//! The messages that commands answer with: plain text, or a rich embed with
//! optional link buttons, as plain data that the front end sends on.
use vstd::prelude::*;

verus! {

/// One named field of an embed.
pub struct EmbedField {
    pub name: String,
    pub value: String,
    pub inline: bool,
}

/// The author line of an embed.
pub struct EmbedAuthor {
    pub name: String,
    pub url: Option<String>,
    pub icon_url: Option<String>,
}

/// A button that opens a link.
pub struct LinkButton {
    pub label: String,
    pub url: String,
}

/// A rich message.
pub struct Embed {
    pub title: Option<String>,
    pub url: Option<String>,
    pub description: Option<String>,
    pub color: Option<u32>,
    pub author: Option<EmbedAuthor>,
    pub thumbnail: Option<String>,
    pub image: Option<String>,
    pub fields: Vec<EmbedField>,
    pub footer: Option<String>,
    /// The moment the embed speaks of, in milliseconds after the Unix epoch.
    pub timestamp: Option<i64>,
}

/// What a command answers with.
pub enum Reply {
    /// A plain message in the channel.
    Say(String),
    /// A plain message that answers (mentions) the author.
    Respond(String),
    /// An embed, with rows of link buttons (at most five per row).
    Post(Embed, Vec<Vec<LinkButton>>),
}

pub struct FieldView {
    pub name: Seq<char>,
    pub value: Seq<char>,
    pub inline: bool,
}

pub struct AuthorView {
    pub name: Seq<char>,
    pub url: Option<Seq<char>>,
    pub icon_url: Option<Seq<char>>,
}

pub struct ButtonView {
    pub label: Seq<char>,
    pub url: Seq<char>,
}

pub struct EmbedView {
    pub title: Option<Seq<char>>,
    pub url: Option<Seq<char>>,
    pub description: Option<Seq<char>>,
    pub color: Option<u32>,
    pub author: Option<AuthorView>,
    pub thumbnail: Option<Seq<char>>,
    pub image: Option<Seq<char>>,
    pub fields: Seq<FieldView>,
    pub footer: Option<Seq<char>>,
    pub timestamp: Option<i64>,
}

pub enum ReplyView {
    Say(Seq<char>),
    Respond(Seq<char>),
    Post(EmbedView, Seq<Seq<ButtonView>>),
}

impl View for EmbedField {
    type V = FieldView;

    open spec fn view(&self) -> FieldView {
        FieldView { name: self.name@, value: self.value@, inline: self.inline }
    }
}

impl View for EmbedAuthor {
    type V = AuthorView;

    open spec fn view(&self) -> AuthorView {
        AuthorView { name: self.name@, url: self.url.deep_view(), icon_url: self.icon_url.deep_view() }
    }
}

impl View for LinkButton {
    type V = ButtonView;

    open spec fn view(&self) -> ButtonView {
        ButtonView { label: self.label@, url: self.url@ }
    }
}

pub open spec fn field_views(v: Seq<EmbedField>) -> Seq<FieldView> {
    v.map_values(|f: EmbedField| f@)
}

pub open spec fn button_views(v: Seq<LinkButton>) -> Seq<ButtonView> {
    v.map_values(|b: LinkButton| b@)
}

pub open spec fn button_row_views(v: Seq<Vec<LinkButton>>) -> Seq<Seq<ButtonView>> {
    v.map_values(|r: Vec<LinkButton>| button_views(r@))
}

impl View for Embed {
    type V = EmbedView;

    open spec fn view(&self) -> EmbedView {
        EmbedView {
            title: self.title.deep_view(),
            url: self.url.deep_view(),
            description: self.description.deep_view(),
            color: self.color,
            author: match self.author {
                Some(a) => Some(a@),
                None => None,
            },
            thumbnail: self.thumbnail.deep_view(),
            image: self.image.deep_view(),
            fields: field_views(self.fields@),
            footer: self.footer.deep_view(),
            timestamp: self.timestamp,
        }
    }
}

impl View for Reply {
    type V = ReplyView;

    open spec fn view(&self) -> ReplyView {
        match self {
            Reply::Say(s) => ReplyView::Say(s@),
            Reply::Respond(s) => ReplyView::Respond(s@),
            Reply::Post(e, rows) => ReplyView::Post(e@, button_row_views(rows@)),
        }
    }
}

/// A field value seen as a view.
pub open spec fn fv(name: Seq<char>, value: Seq<char>, inline: bool) -> FieldView {
    FieldView { name, value, inline }
}

impl EmbedView {
    /// The embed with nothing set.
    pub open spec fn blank() -> EmbedView {
        EmbedView {
            title: None,
            url: None,
            description: None,
            color: None,
            author: None,
            thumbnail: None,
            image: None,
            fields: Seq::empty(),
            footer: None,
            timestamp: None,
        }
    }

    pub open spec fn set_title(self, t: Seq<char>) -> EmbedView {
        EmbedView { title: Some(t), ..self }
    }

    pub open spec fn set_url(self, u: Seq<char>) -> EmbedView {
        EmbedView { url: Some(u), ..self }
    }

    pub open spec fn set_description(self, d: Seq<char>) -> EmbedView {
        EmbedView { description: Some(d), ..self }
    }

    pub open spec fn set_color(self, c: u32) -> EmbedView {
        EmbedView { color: Some(c), ..self }
    }

    pub open spec fn set_author(self, a: AuthorView) -> EmbedView {
        EmbedView { author: Some(a), ..self }
    }

    pub open spec fn set_thumbnail(self, t: Seq<char>) -> EmbedView {
        EmbedView { thumbnail: Some(t), ..self }
    }

    pub open spec fn set_image(self, i: Seq<char>) -> EmbedView {
        EmbedView { image: Some(i), ..self }
    }

    pub open spec fn add_field(self, name: Seq<char>, value: Seq<char>, inline: bool) -> EmbedView {
        EmbedView { fields: self.fields.push(fv(name, value, inline)), ..self }
    }

    pub open spec fn add_fields(self, fs: Seq<FieldView>) -> EmbedView {
        EmbedView { fields: self.fields + fs, ..self }
    }

    pub open spec fn set_footer(self, f: Seq<char>) -> EmbedView {
        EmbedView { footer: Some(f), ..self }
    }

    pub open spec fn set_timestamp(self, ms: i64) -> EmbedView {
        EmbedView { timestamp: Some(ms), ..self }
    }
}

/// An author line with a name only.
pub open spec fn author_named(name: Seq<char>) -> AuthorView {
    AuthorView { name, url: None, icon_url: None }
}

impl EmbedAuthor {
    pub fn named(name: String) -> (a: EmbedAuthor)
        ensures
            a@ == author_named(name@),
    {
        EmbedAuthor { name, url: None, icon_url: None }
    }

    pub fn with_url(self, url: String) -> (a: EmbedAuthor)
        ensures
            a@ == (AuthorView { url: Some(url@), ..self@ }),
    {
        EmbedAuthor { url: Some(url), ..self }
    }

    pub fn with_icon(self, icon: String) -> (a: EmbedAuthor)
        ensures
            a@ == (AuthorView { icon_url: Some(icon@), ..self@ }),
    {
        EmbedAuthor { icon_url: Some(icon), ..self }
    }
}

impl Embed {
    pub fn new() -> (e: Embed)
        ensures
            e@ == EmbedView::blank(),
    {
        let e = Embed {
            title: None,
            url: None,
            description: None,
            color: None,
            author: None,
            thumbnail: None,
            image: None,
            fields: Vec::new(),
            footer: None,
            timestamp: None,
        };
        assert(field_views(e.fields@) =~= Seq::<FieldView>::empty());
        e
    }

    pub fn title(self, t: String) -> (e: Embed)
        ensures
            e@ == self@.set_title(t@),
    {
        Embed { title: Some(t), ..self }
    }

    pub fn url(self, u: String) -> (e: Embed)
        ensures
            e@ == self@.set_url(u@),
    {
        Embed { url: Some(u), ..self }
    }

    pub fn description(self, d: String) -> (e: Embed)
        ensures
            e@ == self@.set_description(d@),
    {
        Embed { description: Some(d), ..self }
    }

    pub fn color(self, c: u32) -> (e: Embed)
        ensures
            e@ == self@.set_color(c),
    {
        Embed { color: Some(c), ..self }
    }

    pub fn author(self, a: EmbedAuthor) -> (e: Embed)
        ensures
            e@ == self@.set_author(a@),
    {
        Embed { author: Some(a), ..self }
    }

    pub fn thumbnail(self, t: String) -> (e: Embed)
        ensures
            e@ == self@.set_thumbnail(t@),
    {
        Embed { thumbnail: Some(t), ..self }
    }

    pub fn image(self, i: String) -> (e: Embed)
        ensures
            e@ == self@.set_image(i@),
    {
        Embed { image: Some(i), ..self }
    }

    pub fn field(self, name: String, value: String, inline: bool) -> (e: Embed)
        ensures
            e@ == self@.add_field(name@, value@, inline),
    {
        let mut e = self;
        let ghost before = e.fields@;
        e.fields.push(EmbedField { name, value, inline });
        assert(field_views(e.fields@) =~= field_views(before).push(fv(name@, value@, inline)));
        e
    }

    pub fn fields(self, fs: Vec<EmbedField>) -> (e: Embed)
        ensures
            e@ == self@.add_fields(field_views(fs@)),
    {
        let mut e = self;
        let ghost before = e.fields@;
        let mut more = fs;
        e.fields.append(&mut more);
        assert(field_views(e.fields@) =~= field_views(before) + field_views(fs@));
        e
    }

    pub fn footer(self, f: String) -> (e: Embed)
        ensures
            e@ == self@.set_footer(f@),
    {
        Embed { footer: Some(f), ..self }
    }

    pub fn timestamp(self, ms: i64) -> (e: Embed)
        ensures
            e@ == self@.set_timestamp(ms),
    {
        Embed { timestamp: Some(ms), ..self }
    }
}

/// Appends a field to a list of fields.
pub fn push_field(v: &mut Vec<EmbedField>, name: String, value: String, inline: bool)
    ensures
        field_views(final(v)@) == field_views(old(v)@).push(fv(name@, value@, inline)),
{
    v.push(EmbedField { name, value, inline });
    assert(field_views(v@) =~= field_views(old(v)@).push(fv(name@, value@, inline)));
}

/// A plain message.
pub fn say(s: String) -> (r: Reply)
    ensures
        r@ == ReplyView::Say(s@),
{
    Reply::Say(s)
}

/// A plain answer to the author.
pub fn respond(s: String) -> (r: Reply)
    ensures
        r@ == ReplyView::Respond(s@),
{
    Reply::Respond(s)
}

/// An embed without buttons.
pub fn post(e: Embed) -> (r: Reply)
    ensures
        r@ == ReplyView::Post(e@, Seq::empty()),
{
    let rows: Vec<Vec<LinkButton>> = Vec::new();
    let r = Reply::Post(e, rows);
    assert(button_row_views(rows@) =~= Seq::<Seq<ButtonView>>::empty());
    r
}

} // verus!

verus! {

/// Buttons five to a row, in order; the last row holds the rest.
pub open spec fn chunks5(s: Seq<ButtonView>) -> Seq<Seq<ButtonView>>
    decreases s.len(),
{
    if s.len() == 0 {
        Seq::empty()
    } else if s.len() <= 5 {
        seq![s]
    } else {
        seq![s.take(5)] + chunks5(s.skip(5))
    }
}

/// A copy of a button.
pub fn copy_button(b: &LinkButton) -> (r: LinkButton)
    ensures
        r@ == b@,
{
    LinkButton { label: b.label.clone(), url: b.url.clone() }
}

/// The buttons split into rows of at most five.
pub fn button_rows_of(bs: &Vec<LinkButton>) -> (rows: Vec<Vec<LinkButton>>)
    ensures
        button_row_views(rows@) == chunks5(button_views(bs@)),
{
    let ghost all = button_views(bs@);
    let mut rows: Vec<Vec<LinkButton>> = Vec::new();
    let mut i: usize = 0;
    assert(all.skip(0) =~= all);
    assert(button_row_views(rows@) =~= Seq::<Seq<ButtonView>>::empty());
    while i < bs.len()
        invariant
            all == button_views(bs@),
            i <= bs@.len(),
            chunks5(all) == button_row_views(rows@) + chunks5(all.skip(i as int)),
        decreases bs@.len() - i,
    {
        let end = if bs.len() - i <= 5 { bs.len() } else { i + 5 };
        let mut row: Vec<LinkButton> = Vec::new();
        let mut j = i;
        while j < end
            invariant
                all == button_views(bs@),
                i <= j <= end <= bs@.len(),
                button_views(row@) == all.subrange(i as int, j as int),
            decreases end - j,
        {
            let b = copy_button(&bs[j]);
            let ghost before = row@;
            row.push(b);
            assert(button_views(row@) =~= button_views(before).push(b@));
            assert(all[j as int] == bs@[j as int]@);
            assert(button_views(row@) =~= all.subrange(i as int, j + 1));
            j = j + 1;
        }
        let ghost rest = all.skip(i as int);
        let ghost before = rows@;
        rows.push(row);
        proof {
            assert(button_row_views(rows@) =~= button_row_views(before).push(button_views(row@)));
            if rest.len() <= 5 {
                assert(all.subrange(i as int, end as int) =~= rest);
                assert(all.skip(end as int).len() == 0);
                assert(chunks5(all.skip(end as int)) =~= Seq::<Seq<ButtonView>>::empty());
            } else {
                assert(all.subrange(i as int, end as int) =~= rest.take(5));
                assert(rest.skip(5) =~= all.skip(end as int));
            }
            assert(button_row_views(before) + chunks5(rest) =~= button_row_views(rows@) + chunks5(all.skip(end as int)));
        }
        i = end;
    }
    assert(chunks5(all.skip(i as int)) =~= Seq::<Seq<ButtonView>>::empty());
    assert(button_row_views(rows@) + Seq::<Seq<ButtonView>>::empty() =~= button_row_views(rows@));
    rows
}

/// Laying buttons out in rows loses none and reorders none: the rows, read
/// one after another, are the buttons; every row holds one to five.
pub proof fn button_rows_keep_every_button(s: Seq<ButtonView>)
    ensures
        chunks5(s).flatten() == s,
        forall|i: int| 0 <= i < chunks5(s).len() ==> 1 <= (#[trigger] chunks5(s)[i]).len() <= 5,
    decreases s.len(),
{
    if s.len() == 0 {
    } else if s.len() <= 5 {
        let c = chunks5(s);
        assert(c.drop_first() =~= Seq::<Seq<ButtonView>>::empty());
        assert(c.first() + c.drop_first().flatten() =~= s);
    } else {
        button_rows_keep_every_button(s.skip(5));
        let c = chunks5(s);
        assert(c.drop_first() =~= chunks5(s.skip(5)));
        assert(c.first() == s.take(5));
        assert(s.take(5) + s.skip(5) =~= s);
        assert forall|i: int| 0 <= i < c.len() implies 1 <= (#[trigger] c[i]).len() <= 5 by {
            if i > 0 {
                assert(c[i] == chunks5(s.skip(5))[i - 1]);
            }
        }
    }
}

} // verus!
