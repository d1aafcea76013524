//! Reddit lookups: a subreddit's card, a user's card, and what each HTTP
//! status of the Reddit API is answered with.
use vstd::prelude::*;
use crate::embed::{AuthorView, Embed, EmbedAuthor, EmbedView};
use crate::formats::{utc_in_range, utc_string, utc_text};
use crate::text::{bool_text, grouped, join, joined, owned, push_grouped, push_str, replace, replaced, same_text, views};

verus! {

/// The colour Discord calls blurple.
pub const BLURPLE: u32 = 0x7289DA;

/// The colour Discord calls teal.
pub const TEAL: u32 = 0x1ABC9C;

pub const RED: u32 = 0x00FF_0000;

/// `Colour::from_rgb`: the three channels packed into one number.
pub open spec fn rgb_value(r: u8, g: u8, b: u8) -> u32 {
    (r * 65536 + g * 256 + b) as u32
}

pub fn rgb(r: u8, g: u8, b: u8) -> (c: u32)
    ensures
        c == rgb_value(r, g, b),
{
    (r as u32) * 65536 + (g as u32) * 256 + (b as u32)
}

/// The value of a hexadecimal digit, in either case.
pub open spec fn hex_value(c: char) -> Option<int> {
    if '0' <= c && c <= '9' {
        Some(c as int - '0' as int)
    } else if 'a' <= c && c <= 'f' {
        Some(c as int - 'a' as int + 10)
    } else if 'A' <= c && c <= 'F' {
        Some(c as int - 'A' as int + 10)
    } else {
        None
    }
}

pub open spec fn hex_pair(a: char, b: char) -> int {
    hex_value(a).unwrap() * 16 + hex_value(b).unwrap()
}

/// A colour written as six hexadecimal digits, with or without a leading
/// `#`, read as its three channels.
pub open spec fn hex_color(s: Seq<char>) -> Option<(u8, u8, u8)> {
    if color_digits(s).len() == 6 && (forall|i: int| 0 <= i < 6 ==> (#[trigger] hex_value(color_digits(s)[i])) is Some) {
        let t = color_digits(s);
        Some((hex_pair(t[0], t[1]) as u8, hex_pair(t[2], t[3]) as u8, hex_pair(t[4], t[5]) as u8))
    } else {
        None
    }
}

/// The digits of a written colour: what follows a leading `#`, if any.
pub open spec fn color_digits(s: Seq<char>) -> Seq<char> {
    if s.len() > 0 && s[0] == '#' { s.skip(1) } else { s }
}

fn hex_digit_value(c: char) -> (r: Option<u8>)
    ensures
        match hex_value(c) {
            Some(v) => r == Some(v as u8),
            None => r is None,
        },
{
    if '0' <= c && c <= '9' {
        Some(((c as u32) - ('0' as u32)) as u8)
    } else if 'a' <= c && c <= 'f' {
        Some(((c as u32) - ('a' as u32) + 10) as u8)
    } else if 'A' <= c && c <= 'F' {
        Some(((c as u32) - ('A' as u32) + 10) as u8)
    } else {
        None
    }
}

/// Reads a colour written as six hexadecimal digits (`#ff4500`).
pub fn read_hex_color(s: &str) -> (r: Option<(u8, u8, u8)>)
    ensures
        r == hex_color(s@),
{
    let cs = crate::text::chars_of(s);
    let start: usize = if cs.len() > 0 && cs[0] == '#' { 1 } else { 0 };
    assert(cs@ == s@);
    let ghost t = color_digits(s@);
    assert(t =~= cs@.skip(start as int));
    if cs.len() - start != 6 {
        return None;
    }
    let mut vals: Vec<u8> = Vec::new();
    let mut i: usize = 0;
    while i < 6
        invariant
            i <= 6,
            start <= 1,
            cs@ == s@,
            cs@.len() == start + 6,
            t == color_digits(s@),
            t =~= cs@.skip(start as int),
            vals@.len() == i,
            forall|k: int| 0 <= k < i ==> (#[trigger] hex_value(t[k])) is Some && vals@[k] == hex_value(t[k]).unwrap(),
        decreases 6 - i,
    {
        assert(t[i as int] == cs@[start + i]);
        match hex_digit_value(cs[start + i]) {
            Some(v) => vals.push(v),
            None => {
                assert(hex_value(t[i as int]) is None);
                assert(!(forall|k: int| 0 <= k < 6 ==> (#[trigger] hex_value(t[k])) is Some));
                assert(hex_color(s@) is None);
                return None;
            },
        }
        i = i + 1;
    }
    let r = (vals[0] * 16 + vals[1], vals[2] * 16 + vals[3], vals[4] * 16 + vals[5]);
    assert(forall|k: int| 0 <= k < 6 ==> (#[trigger] hex_value(t[k])) is Some);
    Some(r)
}

/// What the bot makes of an HTTP status from the Reddit API.
pub enum StatusKind {
    /// 403: the resource may not be read.
    Forbidden,
    /// 302 or 404: there is no such subreddit or user.
    Missing,
    /// Anything else: read the body.
    Proceed,
}

pub open spec fn status_kind_of(code: u16) -> StatusKind {
    if code == 403 {
        StatusKind::Forbidden
    } else if code == 302 || code == 404 {
        StatusKind::Missing
    } else {
        StatusKind::Proceed
    }
}

/// What a status means for a subreddit lookup.
pub fn subreddit_status(code: u16) -> (k: StatusKind)
    ensures
        k == status_kind_of(code),
{
    if code == 403 {
        StatusKind::Forbidden
    } else if code == 302 || code == 404 {
        StatusKind::Missing
    } else {
        StatusKind::Proceed
    }
}

/// What a status means for a user lookup: a user is never forbidden, so
/// 403 reads the body too.
pub fn user_status(code: u16) -> (k: StatusKind)
    ensures
        k == (if code == 302 || code == 404 { StatusKind::Missing } else { StatusKind::Proceed }),
{
    if code == 302 || code == 404 {
        StatusKind::Missing
    } else {
        StatusKind::Proceed
    }
}

pub open spec fn red_notice(title: Seq<char>, description: Seq<char>) -> EmbedView {
    EmbedView::blank().set_title(title).set_color(RED).set_description(description)
}

fn red_embed(title: &str, description: &str) -> (e: Embed)
    ensures
        e@ == red_notice(title@, description@),
{
    Embed::new().title(owned(title)).color(RED).description(owned(description))
}

/// The answer to a lookup without a name (both the subreddit and the user
/// command say "subreddit").
pub fn no_name_embed() -> (e: Embed)
    ensures
        e@ == red_notice(
            "Error: Invalid subreddit name provided."@,
            "You have provided an invalid subreddit name. Please try again."@,
        ),
{
    red_embed("Error: Invalid subreddit name provided.", "You have provided an invalid subreddit name. Please try again.")
}

/// The answer to the bare `reddit` command.
pub fn subcommand_embed() -> (e: Embed)
    ensures
        e@ == EmbedView::blank().set_title("Error: Invalid / No Subcommand Entered!"@).set_description(
            "You did not enter a valid subcommand! Please check `<prefix>help reddit` for the command usage."@,
        ),
{
    Embed::new().title(owned("Error: Invalid / No Subcommand Entered!")).description(
        owned("You did not enter a valid subcommand! Please check `<prefix>help reddit` for the command usage."),
    )
}

pub open spec fn forbidden_text() -> Seq<char> {
    "Reddit has transmitted a 403 Forbidden error, meaning there was an issue in trying to get the result for this request. Please try again later."@
}

/// The answer to a 403: a quarantined subreddit shows its quarantine
/// notice (`notice`, as the bot's text cleaner left it); any other reason
/// gets a general notice.
pub open spec fn forbidden_view(reason: Seq<char>, notice: Option<Seq<char>>) -> EmbedView {
    if reason == "quarantined"@ {
        red_notice(
            "This subreddit has been quarantined."@,
            replaced(notice.unwrap(), "It is"@, "This subreddit has been"@),
        )
    } else {
        red_notice("Could Not Access Resource"@, forbidden_text())
    }
}

/// The 403 answer; a quarantine always comes with its notice.
pub fn forbidden_embed(reason: &str, notice: Option<String>) -> (e: Embed)
    requires
        reason@ == "quarantined"@ ==> notice is Some,
    ensures
        e@ == forbidden_view(reason@, notice.deep_view()),
{
    if same_text(reason, "quarantined") {
        let text = notice.unwrap();
        proof {
            reveal_strlit("It is");
        }
        let body = replace(text.as_str(), "It is", "This subreddit has been");
        red_embed("This subreddit has been quarantined.", body.as_str())
    } else {
        red_embed(
            "Could Not Access Resource",
            "Reddit has transmitted a 403 Forbidden error, meaning there was an issue in trying to get the result for this request. Please try again later.",
        )
    }
}

/// The answer to a subreddit that was not found.
pub fn subreddit_missing_embed() -> (e: Embed)
    ensures
        e@ == red_notice(
            "Subreddit Not Found Or Redirect Request Made"@,
            "Reddit either could not find this subreddit, or tried to redirect to the Reddit Search API, usually indicating that the subreddit you tried searching for does not exist or could not be found in Reddit's database. Please try searching for a different subreddit."@,
        ),
{
    red_embed(
        "Subreddit Not Found Or Redirect Request Made",
        "Reddit either could not find this subreddit, or tried to redirect to the Reddit Search API, usually indicating that the subreddit you tried searching for does not exist or could not be found in Reddit's database. Please try searching for a different subreddit.",
    )
}

/// The answer to a user that was not found.
pub fn user_missing_embed() -> (e: Embed)
    ensures
        e@ == red_notice(
            "User Not Found Or Redirect Request Made"@,
            "Reddit either could not find this user, or tried to redirect to the Reddit Search API, usually indicating that the user you tried searching for does not exist or could not be found in Reddit's database. Please try searching for a different user."@,
        ),
{
    red_embed(
        "User Not Found Or Redirect Request Made",
        "Reddit either could not find this user, or tried to redirect to the Reddit Search API, usually indicating that the user you tried searching for does not exist or could not be found in Reddit's database. Please try searching for a different user.",
    )
}

/// The addresses the lookups read.
pub fn subreddit_about_url(name: &str) -> (s: String)
    ensures
        s@ == "https://api.reddit.com/r/"@ + name@ + "/about"@,
{
    let mut s = owned("https://api.reddit.com/r/");
    push_str(&mut s, name);
    push_str(&mut s, "/about");
    s
}

pub fn user_about_url(name: &str) -> (s: String)
    ensures
        s@ == "https://api.reddit.com/user/"@ + name@ + "/about"@,
{
    let mut s = owned("https://api.reddit.com/user/");
    push_str(&mut s, name);
    push_str(&mut s, "/about");
    s
}

pub fn user_trophies_url(name: &str) -> (s: String)
    ensures
        s@ == "https://api.reddit.com/user/"@ + name@ + "/trophies"@,
{
    let mut s = owned("https://api.reddit.com/user/");
    push_str(&mut s, name);
    push_str(&mut s, "/trophies");
    s
}

// ---------------------------------------------------------------------------
// Subreddits
// ---------------------------------------------------------------------------

/// What the subreddit card shows.
pub struct Subreddit {
    /// The prefixed name, as in `r/rust`.
    pub name: String,
    pub title: String,
    pub icon: String,
    pub community_icon: String,
    /// The Reddit object id.
    pub object_id: String,
    /// The public description.
    pub description: String,
    pub active_users: i64,
    pub subscribers: i64,
    pub quarantine: bool,
    pub over18: bool,
    pub restrict_posting: bool,
    /// Creation time, whole seconds after the Unix epoch.
    pub created: i64,
    /// The primary colour as written (`#rrggbb`), possibly empty.
    pub primary_color: String,
}

pub open spec fn yes_no(b: bool) -> Seq<char> {
    if b { "Yes"@ } else { "No"@ }
}

/// The subreddit's colour: blurple where it has none or its hex text
/// cannot be read.
pub open spec fn subreddit_color(written: Seq<char>) -> u32 {
    if written.len() == 0 {
        BLURPLE
    } else {
        match hex_color(written) {
            Some((r, g, b)) => rgb_value(r, g, b),
            None => BLURPLE,
        }
    }
}

pub open spec fn created_pattern() -> Seq<char> {
    "%A, %B %e, %Y @ %l:%M %P"@
}

pub open spec fn subreddit_summary(s: Subreddit) -> Seq<char> {
    s.description@ + "\n\n**Title:** "@ + s.title@ + "\n**Active Users:** "@ + grouped((s.active_users as u64) as nat)
        + "\n**Subscribers:** "@ + grouped((s.subscribers as u64) as nat) + "\n**Quarantined:** "@ + yes_no(s.quarantine)
        + "\n**Over Eighteen?** "@ + yes_no(s.over18) + "\n**Posting Restricted?** "@ + yes_no(s.restrict_posting)
        + "\n**Created:** "@ + utc_text(s.created as int, created_pattern()) + "\n"@
}

pub open spec fn subreddit_view(s: Subreddit) -> EmbedView {
    EmbedView::blank().set_author(
        AuthorView { name: s.name@, url: Some("https://reddit.com/"@ + s.name@), icon_url: Some(s.icon@) },
    ).set_color(subreddit_color(s.primary_color@)).set_thumbnail(s.community_icon@).set_description(
        subreddit_summary(s),
    ).set_footer("Subreddit ID: "@ + s.object_id@)
}

fn yes_no_str(b: bool) -> (s: &'static str)
    ensures
        s@ == yes_no(b),
{
    if b { "Yes" } else { "No" }
}

/// The subreddit card.
pub fn subreddit_embed(s: &Subreddit) -> (e: Embed)
    requires
        utc_in_range(s.created as int),
    ensures
        e@ == subreddit_view(*s),
{
    let created = utc_string(s.created, "%A, %B %e, %Y @ %l:%M %P");
    let mut d = s.description.clone();
    push_str(&mut d, "\n\n**Title:** ");
    push_str(&mut d, s.title.as_str());
    push_str(&mut d, "\n**Active Users:** ");
    push_grouped(&mut d, s.active_users as u64);
    push_str(&mut d, "\n**Subscribers:** ");
    push_grouped(&mut d, s.subscribers as u64);
    push_str(&mut d, "\n**Quarantined:** ");
    push_str(&mut d, yes_no_str(s.quarantine));
    push_str(&mut d, "\n**Over Eighteen?** ");
    push_str(&mut d, yes_no_str(s.over18));
    push_str(&mut d, "\n**Posting Restricted?** ");
    push_str(&mut d, yes_no_str(s.restrict_posting));
    push_str(&mut d, "\n**Created:** ");
    push_str(&mut d, created.as_str());
    push_str(&mut d, "\n");
    let color = if s.primary_color.as_str().is_empty() {
        BLURPLE
    } else {
        match read_hex_color(s.primary_color.as_str()) {
            Some((r, g, b)) => rgb(r, g, b),
            None => BLURPLE,
        }
    };
    let mut url = owned("https://reddit.com/");
    push_str(&mut url, s.name.as_str());
    let mut footer = owned("Subreddit ID: ");
    push_str(&mut footer, s.object_id.as_str());
    let author = EmbedAuthor::named(s.name.clone()).with_url(url).with_icon(s.icon.clone());
    Embed::new().author(author).color(color).thumbnail(s.community_icon.clone()).description(d).footer(footer)
}

// ---------------------------------------------------------------------------
// Users
// ---------------------------------------------------------------------------

/// What the user card shows.
pub struct RedditUser {
    pub name: String,
    pub object_id: String,
    pub verified: bool,
    pub is_employee: bool,
    pub link_karma: u64,
    pub comment_karma: u64,
    /// Registration time, whole seconds after the Unix epoch.
    pub created: i64,
    /// The names of the user's trophies.
    pub trophies: Vec<String>,
}

pub open spec fn user_summary(u: RedditUser) -> Seq<char> {
    "**Joined Reddit:** "@ + utc_text(u.created as int, created_pattern()) + "\n**Verified:** "@ + bool_text(u.verified)
        + "\n**Reddit employee:** "@ + bool_text(u.is_employee) + "\n**Link Karma:** "@ + grouped(u.link_karma as nat)
        + "\n**Comment Karma:** "@ + grouped(u.comment_karma as nat) + "\n**Total Karma:** "@ + grouped(
        (u.link_karma + u.comment_karma) as nat,
    ) + "\n**Trophies:** "@ + joined(views(u.trophies@), " / "@) + "\n"@
}

pub open spec fn user_view(u: RedditUser) -> EmbedView {
    EmbedView::blank().set_author(
        AuthorView { name: u.name@, url: Some("https://reddit.com/user/"@ + u.name@), icon_url: None },
    ).set_color(TEAL).set_description(user_summary(u)).set_footer("User Object ID: "@ + u.object_id@)
}

/// The user card. The two karma counts are added, so their sum must fit.
pub fn user_embed(u: &RedditUser) -> (e: Embed)
    requires
        utc_in_range(u.created as int),
        u.link_karma + u.comment_karma <= u64::MAX,
    ensures
        e@ == user_view(*u),
{
    let created = utc_string(u.created, "%A, %B %e, %Y @ %l:%M %P");
    let mut d = owned("**Joined Reddit:** ");
    push_str(&mut d, created.as_str());
    push_str(&mut d, "\n**Verified:** ");
    push_str(&mut d, if u.verified { "true" } else { "false" });
    push_str(&mut d, "\n**Reddit employee:** ");
    push_str(&mut d, if u.is_employee { "true" } else { "false" });
    push_str(&mut d, "\n**Link Karma:** ");
    push_grouped(&mut d, u.link_karma);
    push_str(&mut d, "\n**Comment Karma:** ");
    push_grouped(&mut d, u.comment_karma);
    push_str(&mut d, "\n**Total Karma:** ");
    push_grouped(&mut d, u.link_karma + u.comment_karma);
    push_str(&mut d, "\n**Trophies:** ");
    let trophies = join(&u.trophies, " / ");
    push_str(&mut d, trophies.as_str());
    push_str(&mut d, "\n");
    let mut url = owned("https://reddit.com/user/");
    push_str(&mut url, u.name.as_str());
    let mut footer = owned("User Object ID: ");
    push_str(&mut footer, u.object_id.as_str());
    let author = EmbedAuthor::named(u.name.clone()).with_url(url);
    Embed::new().author(author).color(TEAL).description(d).footer(footer)
}

} // verus!
