//! The fun commands: ASCII art requests, Urban Dictionary definitions and
//! xkcd comics.
use vstd::prelude::*;
use crate::embed::{say, respond, AuthorView, Embed, EmbedAuthor, EmbedView, LinkButton, Reply, ReplyView, ButtonView};
use crate::parse::{parse_u64, parsed_u64};
use crate::text::{
    byte_prefix, byte_suffix, contains, decimal, has_sub, has_word, owned, prefix_ok, push_decimal, push_str, split_bytes,
    split_words, words,
};

verus! {

// ---------------------------------------------------------------------------
// ASCII art
// ---------------------------------------------------------------------------

/// What is said of the text before anything is fetched: nothing given, or
/// a zero-width space in it.
pub open spec fn ascii_refusal(rest: Seq<char>) -> Option<Seq<char>> {
    if rest.len() == 0 {
        Some("No ASCII string provided. Please provide one."@)
    } else if rest.contains('\u{200B}') {
        Some("Zero width space detected. Don't send these."@)
    } else {
        None
    }
}

pub fn ascii_check(rest: &str) -> (r: Option<Reply>)
    ensures
        r is None <==> ascii_refusal(rest@) is None,
        r matches Some(reply) ==> reply@ == ReplyView::Say(ascii_refusal(rest@).unwrap()),
{
    if rest.is_empty() {
        return Some(say(owned("No ASCII string provided. Please provide one.")));
    }
    let cs = crate::text::chars_of(rest);
    let mut i: usize = 0;
    while i < cs.len()
        invariant
            i <= cs@.len(),
            cs@ == rest@,
            forall|k: int| 0 <= k < i ==> cs@[k] != '\u{200B}',
        decreases cs@.len() - i,
    {
        if cs[i] == '\u{200B}' {
            assert(rest@[i as int] == '\u{200B}');
            return Some(say(owned("Zero width space detected. Don't send these.")));
        }
        i = i + 1;
    }
    None
}

/// The first word of the text, which may name a font.
pub open spec fn font_word(arg: Seq<char>) -> Seq<char> {
    if words(arg).len() > 0 { words(arg)[0] } else { Seq::empty() }
}

/// The text names a font when its first word is one of the listed fonts
/// and it holds a space.
pub open spec fn names_font(arg: Seq<char>, font_list: Seq<char>) -> bool {
    words(font_list).contains(font_word(arg)) && has_sub(arg, " "@)
}

/// Where a font is named, the font and the text are cut from the argument
/// at as many bytes as the font word has characters, which must fall
/// between characters.
pub open spec fn ascii_ok(arg: Seq<char>, font_list: Seq<char>) -> bool {
    names_font(arg, font_list) ==> prefix_ok(arg, font_word(arg).len() as int)
}

/// The text to draw, and the font to draw it in if one is named.
pub struct AsciiRequest {
    pub text: String,
    pub font: Option<String>,
}

pub open spec fn ascii_request_text(arg: Seq<char>, font_list: Seq<char>) -> Seq<char> {
    if names_font(arg, font_list) { byte_suffix(arg, font_word(arg).len() as int) } else { arg }
}

pub open spec fn ascii_request_font(arg: Seq<char>, font_list: Seq<char>) -> Option<Seq<char>> {
    if names_font(arg, font_list) { Some(byte_prefix(arg, font_word(arg).len() as int)) } else { None }
}

/// What to ask the ASCII art service for, given the list of its fonts.
pub fn ascii_request(arg: &str, font_list: &str) -> (r: AsciiRequest)
    requires
        ascii_ok(arg@, font_list@),
    ensures
        r.text@ == ascii_request_text(arg@, font_list@),
        r.font.deep_view() == ascii_request_font(arg@, font_list@),
{
    let ws = split_words(arg);
    let first = if ws.len() > 0 { ws[0].clone() } else { String::new() };
    assert(first@ == font_word(arg@));
    proof {
        reveal_strlit(" ");
    }
    if has_word(font_list, first.as_str()) && contains(arg, " ") {
        let k = crate::text::chars_of(first.as_str()).len();
        let (font, text) = split_bytes(arg, k);
        AsciiRequest { text, font: Some(font) }
    } else {
        AsciiRequest { text: owned(arg), font: None }
    }
}

/// The drawing, as a code block.
pub fn ascii_reply(drawing: &str) -> (r: Reply)
    ensures
        r@ == ReplyView::Say("```Markup\n"@ + drawing@ + "```"@),
{
    let mut s = owned("```Markup\n");
    push_str(&mut s, drawing);
    push_str(&mut s, "```");
    say(s)
}

// ---------------------------------------------------------------------------
// Urban Dictionary
// ---------------------------------------------------------------------------

/// One Urban Dictionary definition.
pub struct Definition {
    pub description: String,
    pub example: String,
    pub word: String,
    pub thumbs_up: u64,
    pub thumbs_down: u64,
    pub permalink: String,
}

pub open spec fn definition_view(d: Definition) -> EmbedView {
    EmbedView::blank().set_author(AuthorView { name: d.word@, url: Some(d.permalink@), icon_url: None }).set_color(
        0x00EF_FF00,
    ).set_description(
        "*"@ + d.description@ + "*\n\n"@ + d.example@ + "\n\n**Ratings**: "@ + decimal(d.thumbs_up as nat)
            + " \u{1f44d} | "@ + decimal(d.thumbs_down as nat) + " \u{1f44e}"@,
    ).set_footer("Powered by the Urban Dictionary."@)
}

/// The card of a definition.
pub fn definition_embed(d: &Definition) -> (e: Embed)
    ensures
        e@ == definition_view(*d),
{
    let mut text = owned("*");
    push_str(&mut text, d.description.as_str());
    push_str(&mut text, "*\n\n");
    push_str(&mut text, d.example.as_str());
    push_str(&mut text, "\n\n**Ratings**: ");
    push_decimal(&mut text, d.thumbs_up);
    push_str(&mut text, " \u{1f44d} | ");
    push_decimal(&mut text, d.thumbs_down);
    push_str(&mut text, " \u{1f44e}");
    let author = EmbedAuthor::named(d.word.clone()).with_url(d.permalink.clone());
    Embed::new().author(author).color(0x00EF_FF00).description(text).footer(owned("Powered by the Urban Dictionary."))
}

/// The answer to a lookup: no word, no definition, or the first one.
pub open spec fn urban_reply_view(term: Seq<char>, defs: Seq<Definition>) -> ReplyView {
    if term.len() == 0 {
        ReplyView::Say("You did not provide a word to look up. Please provide one."@)
    } else if defs.len() == 0 {
        ReplyView::Say("No definitions found for `"@ + term + "`. Try a different word."@)
    } else {
        ReplyView::Post(definition_view(defs[0]), Seq::empty())
    }
}

pub fn urban_reply(term: &str, defs: &Vec<Definition>) -> (r: Reply)
    ensures
        r@ == urban_reply_view(term@, defs@),
{
    if term.is_empty() {
        say(owned("You did not provide a word to look up. Please provide one."))
    } else if defs.len() == 0 {
        let mut s = owned("No definitions found for `");
        push_str(&mut s, term);
        push_str(&mut s, "`. Try a different word.");
        say(s)
    } else {
        crate::embed::post(definition_embed(&defs[0]))
    }
}

// ---------------------------------------------------------------------------
// xkcd
// ---------------------------------------------------------------------------

/// The comic asked for: the first argument as a number, else 0 (latest).
pub open spec fn comic_number(argument: Option<Seq<char>>) -> u32 {
    match argument {
        Some(a) => match parsed_u64(a) {
            Some(v) => if v <= u32::MAX { v as u32 } else { 0 },
            None => 0,
        },
        None => 0,
    }
}

pub open spec fn comic_url(n: u32) -> Seq<char> {
    if n == 0 { "https://xkcd.com/info.0.json"@ } else { "https://xkcd.com/"@ + decimal(n as nat) + "/info.0.json"@ }
}

/// The address to fetch for the given first argument.
pub fn comic_request(argument: Option<&str>) -> (r: (u32, String))
    ensures
        r.0 == comic_number(argument.deep_view()),
        r.1@ == comic_url(r.0),
{
    let n: u32 = match argument {
        Some(a) => match parse_u64(a) {
            Some(v) => if v <= 0xFFFF_FFFF { v as u32 } else { 0 },
            None => 0,
        },
        None => 0,
    };
    let url = if n == 0 {
        owned("https://xkcd.com/info.0.json")
    } else {
        let mut s = owned("https://xkcd.com/");
        push_decimal(&mut s, n as u64);
        push_str(&mut s, "/info.0.json");
        s
    };
    (n, url)
}

/// A comic.
pub struct Comic {
    pub num: u16,
    pub alt: String,
    pub img: String,
    pub title: String,
}

pub open spec fn comic_view(c: Comic) -> EmbedView {
    EmbedView::blank().set_title(c.title@).set_color(0xfafafa).set_description(c.alt@).set_image(c.img@).set_footer(
        "xkcd comic no. "@ + decimal(c.num as nat),
    )
}

pub open spec fn comic_buttons(c: Comic) -> Seq<Seq<ButtonView>> {
    seq![
        seq![
            ButtonView { label: "View xkcd image page"@, url: "https://xkcd.com/"@ + decimal(c.num as nat) },
            ButtonView { label: "View explanation"@, url: "https://explainxkcd.com/wiki/index.php/"@ + decimal(c.num as nat) },
        ],
    ]
}

/// The answer: a missing comic (HTTP 404), or the comic with links to its
/// page and its explanation.
pub fn comic_reply(not_found: bool, c: &Comic) -> (r: Reply)
    ensures
        r@ == if not_found {
            ReplyView::Respond("You did not provide a valid comic id."@)
        } else {
            ReplyView::Post(comic_view(*c), comic_buttons(*c))
        },
{
    if not_found {
        return respond(owned("You did not provide a valid comic id."));
    }
    let mut page = owned("https://xkcd.com/");
    push_decimal(&mut page, c.num as u64);
    let mut wiki = owned("https://explainxkcd.com/wiki/index.php/");
    push_decimal(&mut wiki, c.num as u64);
    let mut footer = owned("xkcd comic no. ");
    push_decimal(&mut footer, c.num as u64);
    let e = Embed::new().title(c.title.clone()).color(0xfafafa).description(c.alt.clone()).image(c.img.clone()).footer(
        footer,
    );
    let mut row: Vec<LinkButton> = Vec::new();
    row.push(LinkButton { label: owned("View xkcd image page"), url: page });
    row.push(LinkButton { label: owned("View explanation"), url: wiki });
    let mut rows: Vec<Vec<LinkButton>> = Vec::new();
    rows.push(row);
    let r = Reply::Post(e, rows);
    assert(crate::embed::button_row_views(rows@) =~= comic_buttons(*c)) by {
        assert(crate::embed::button_views(row@) =~= comic_buttons(*c)[0]);
    }
    r
}

} // verus!
