//! crates.io lookups: the crate card of the `crate` command and the older
//! `crates` summary.
use vstd::prelude::*;
use crate::embed::{AuthorView, Embed, EmbedAuthor, EmbedView, Reply, ReplyView};
use crate::formats::{utc_in_range, utc_string, utc_text};
use crate::text::{decimal, grouped, join, joined, owned, push_decimal, push_str, trim, trimmed, views};

verus! {

/// What crates.io tells of a crate.
pub struct CrateInfo {
    pub name: String,
    pub description: Option<String>,
    pub homepage: Option<String>,
    pub repository: Option<String>,
    pub keywords: Vec<String>,
    pub categories: Vec<String>,
    /// Creation and last update, whole seconds after the Unix epoch.
    pub created: i64,
    pub updated: i64,
    pub newest_version: String,
    pub downloads: u64,
    pub recent_downloads: u64,
}

pub open spec fn crate_ok(c: CrateInfo) -> bool {
    utc_in_range(c.created as int) && utc_in_range(c.updated as int)
}

/// The address a crate is looked up at: the name with white space around
/// it trimmed (as the `crates` command sends it).
pub fn crate_api_url(name: &str) -> (s: String)
    ensures
        s@ == "https://crates.io/api/v1/crates/"@ + trimmed(name@),
{
    let mut s = owned("https://crates.io/api/v1/crates/");
    let t = trim(name);
    push_str(&mut s, t.as_str());
    s
}

/// The address the `crate` command looks a crate up at.
pub fn krate_api_url(name: &str) -> (s: String)
    ensures
        s@ == "https://crates.io/api/v1/crates/"@ + name@,
{
    let mut s = owned("https://crates.io/api/v1/crates/");
    push_str(&mut s, name);
    s
}

// ---------------------------------------------------------------------------
// The crate card
// ---------------------------------------------------------------------------

pub open spec fn cargo_logo() -> Seq<char> {
    "https://raw.githubusercontent.com/rust-lang/crates.io/master/public/assets/Cargo-Logo-Small.png"@
}

pub open spec fn lines_or_none(items: Seq<String>) -> Seq<char> {
    if items.len() == 0 { "None"@ } else { joined(views(items), "\n"@) }
}

pub open spec fn krate_view(c: CrateInfo) -> EmbedView {
    EmbedView::blank().set_author(
        AuthorView { name: c.name@, url: Some("https://crates.io/crates/"@ + c.name@), icon_url: Some(cargo_logo()) },
    ).set_color(0xe43a25).set_description(
        match c.description {
            Some(d) => d@,
            None => Seq::empty(),
        },
    ).add_field(
        "Homepage"@,
        match c.homepage {
            Some(h) => "[Website]("@ + h@ + ")"@,
            None => "None"@,
        },
        true,
    ).add_field(
        "Repository"@,
        match c.repository {
            Some(r) => "[Repo for "@ + c.name@ + "]("@ + r@ + ")"@,
            None => "None"@,
        },
        true,
    ).add_field("Categories"@, lines_or_none(c.categories@), true).add_field("Keywords"@, lines_or_none(c.keywords@), true).add_field(
        "Latest Version"@,
        c.newest_version@,
        true,
    ).add_field("Creation Date"@, utc_text(c.created as int, "%B %e, %Y"@), true).add_field(
        "Last Updated"@,
        utc_text(c.updated as int, "%B %e, %Y"@),
        true,
    ).add_field("Recent DLs"@, grouped(c.recent_downloads as nat), true).add_field(
        "Total DLs"@,
        grouped(c.downloads as nat),
        true,
    ).set_footer("Powered by your friendly neighbourhood crates.io API."@)
}

fn lines_or_none_string(items: &Vec<String>) -> (s: String)
    ensures
        s@ == lines_or_none(items@),
{
    if items.len() == 0 { owned("None") } else { join(items, "\n") }
}

/// The crate card of the `crate` command.
pub fn krate_embed(c: &CrateInfo) -> (e: Embed)
    requires
        crate_ok(*c),
    ensures
        e@ == krate_view(*c),
{
    let mut url = owned("https://crates.io/crates/");
    push_str(&mut url, c.name.as_str());
    let description = match &c.description {
        Some(d) => d.clone(),
        None => String::new(),
    };
    let homepage = match &c.homepage {
        Some(h) => {
            let mut s = owned("[Website](");
            push_str(&mut s, h.as_str());
            push_str(&mut s, ")");
            s
        },
        None => owned("None"),
    };
    let repository = match &c.repository {
        Some(r) => {
            let mut s = owned("[Repo for ");
            push_str(&mut s, c.name.as_str());
            push_str(&mut s, "](");
            push_str(&mut s, r.as_str());
            push_str(&mut s, ")");
            s
        },
        None => owned("None"),
    };
    let author = EmbedAuthor::named(c.name.clone()).with_url(url).with_icon(
        owned("https://raw.githubusercontent.com/rust-lang/crates.io/master/public/assets/Cargo-Logo-Small.png"),
    );
    let e = Embed::new().author(author).color(0xe43a25).description(description).field(owned("Homepage"), homepage, true).field(
        owned("Repository"),
        repository,
        true,
    ).field(owned("Categories"), lines_or_none_string(&c.categories), true).field(
        owned("Keywords"),
        lines_or_none_string(&c.keywords),
        true,
    );
    let e = e.field(owned("Latest Version"), c.newest_version.clone(), true).field(
        owned("Creation Date"),
        utc_string(c.created, "%B %e, %Y"),
        true,
    ).field(owned("Last Updated"), utc_string(c.updated, "%B %e, %Y"), true).field(
        owned("Recent DLs"),
        crate::text::format_int(c.recent_downloads),
        true,
    ).field(owned("Total DLs"), crate::text::format_int(c.downloads), true);
    e.footer(owned("Powered by your friendly neighbourhood crates.io API."))
}

/// The answer to `crate` without a name.
pub fn krate_no_name() -> (r: Reply)
    ensures
        r@ == ReplyView::Say("Invalid crate name provided. Please try again."@),
{
    crate::embed::say(owned("Invalid crate name provided. Please try again."))
}

// ---------------------------------------------------------------------------
// The older summary
// ---------------------------------------------------------------------------

pub open spec fn crates_summary(c: CrateInfo) -> Seq<char> {
    "**Name**: "@ + c.name@ + "\n**Homepage**: "@ + match c.homepage {
        Some(h) => h@,
        None => "No homepage is available for this crate."@,
    } + "\n**Repository**: "@ + match c.repository {
        Some(r) => r@,
        None => "No repository is available for this crate."@,
    } + "\n**Keywords**: "@ + if c.keywords@.len() == 0 {
        "No keywords for this crate are available."@
    } else {
        joined(views(c.keywords@), ", "@)
    } + "\n**Creation date**: "@ + utc_text(c.created as int, "%B %e, %Y - %I:%M %p"@) + "\n**Last updated**: "@
        + utc_text(c.updated as int, "%B %e, %Y - %I:%M %p"@) + "\n**Recent downloads**: "@ + decimal(
        c.recent_downloads as nat,
    ) + "\n**Total downloads**: "@ + decimal(c.downloads as nat) + "\n"@
}

pub open spec fn crates_view(c: CrateInfo) -> EmbedView {
    EmbedView::blank().set_title("Crate details for "@ + c.name@).set_description(crates_summary(c))
}

/// The summary of the `crates` command.
pub fn crates_embed(c: &CrateInfo) -> (e: Embed)
    requires
        crate_ok(*c),
    ensures
        e@ == crates_view(*c),
{
    let mut d = owned("**Name**: ");
    push_str(&mut d, c.name.as_str());
    push_str(&mut d, "\n**Homepage**: ");
    match &c.homepage {
        Some(h) => push_str(&mut d, h.as_str()),
        None => push_str(&mut d, "No homepage is available for this crate."),
    }
    push_str(&mut d, "\n**Repository**: ");
    match &c.repository {
        Some(r) => push_str(&mut d, r.as_str()),
        None => push_str(&mut d, "No repository is available for this crate."),
    }
    push_str(&mut d, "\n**Keywords**: ");
    if c.keywords.len() == 0 {
        push_str(&mut d, "No keywords for this crate are available.");
    } else {
        let k = join(&c.keywords, ", ");
        push_str(&mut d, k.as_str());
    }
    push_str(&mut d, "\n**Creation date**: ");
    let created = utc_string(c.created, "%B %e, %Y - %I:%M %p");
    push_str(&mut d, created.as_str());
    push_str(&mut d, "\n**Last updated**: ");
    let updated = utc_string(c.updated, "%B %e, %Y - %I:%M %p");
    push_str(&mut d, updated.as_str());
    push_str(&mut d, "\n**Recent downloads**: ");
    push_decimal(&mut d, c.recent_downloads);
    push_str(&mut d, "\n**Total downloads**: ");
    push_decimal(&mut d, c.downloads);
    push_str(&mut d, "\n");
    assert(d@ =~= crates_summary(*c));
    let mut title = owned("Crate details for ");
    push_str(&mut title, c.name.as_str());
    Embed::new().title(title).description(d)
}

/// The answer to `crates` without a name.
pub fn crates_no_name_embed() -> (e: Embed)
    ensures
        e@ == EmbedView::blank().set_title("Error: Invalid crate name provided."@).set_description(
            "You have provided an invalid crate name. Please try again."@,
        ).set_color(0x00FF_0000),
{
    Embed::new().title(owned("Error: Invalid crate name provided.")).description(
        owned("You have provided an invalid crate name. Please try again."),
    ).color(0x00FF_0000)
}

} // verus!
