//! GitHub lookups: a repository's card and a user's card.
use vstd::prelude::*;
use crate::embed::{AuthorView, Embed, EmbedAuthor, EmbedView};
use crate::formats::{size_string, size_text, utc_in_range, utc_string, utc_text};
use crate::reddit::{hex_color, read_hex_color, rgb, rgb_value};
use crate::text::{decimal, owned, push_decimal, push_str, same_text, signed_decimal, signed_string};

verus! {

/// The grey of GitHub cards.
pub const GITHUB_GREY: u32 = 0x0033_3333;

pub open spec fn powered_by() -> Seq<char> {
    "Powered by the GitHub GraphQL API."@
}

/// The answer to the bare `github` command.
pub fn subcommand_embed() -> (e: Embed)
    ensures
        e@ == EmbedView::blank().set_title("Error: Invalid / No Subcommand Entered!"@).set_description(
            "You did not enter a valid subcommand! Please check `<prefix>help github` for the command usage."@,
        ),
{
    Embed::new().title(owned("Error: Invalid / No Subcommand Entered!")).description(
        owned("You did not enter a valid subcommand! Please check `<prefix>help github` for the command usage."),
    )
}

/// The answer to a repository lookup without details.
pub fn no_repository_embed() -> (e: Embed)
    ensures
        e@ == EmbedView::blank().set_title("Error: No repository details provided."@).set_description(
            "You did not provide any repository details. Please provide them and then try again."@,
        ),
{
    Embed::new().title(owned("Error: No repository details provided.")).description(
        owned("You did not provide any repository details. Please provide them and then try again."),
    )
}

/// The answer to a user lookup without a name.
pub fn no_username_embed() -> (e: Embed)
    ensures
        e@ == EmbedView::blank().set_title("Error: No username provided."@).set_description(
            "You did not provide a username. Please enter one and then try again."@,
        ),
{
    Embed::new().title(owned("Error: No username provided.")).description(
        owned("You did not provide a username. Please enter one and then try again."),
    )
}

pub open spec fn date_pattern() -> Seq<char> {
    "%A, %B %e, %Y @ %l:%M %P"@
}

// ---------------------------------------------------------------------------
// Repositories
// ---------------------------------------------------------------------------

/// A named link, as a license or a code of conduct has.
pub struct NamedLink {
    pub name: String,
    pub url: Option<String>,
}

/// The repository's main language.
pub struct PrimaryLanguage {
    pub name: String,
    /// Its colour as written (`#rrggbb`).
    pub color: String,
}

/// What the repository card shows.
pub struct RepositoryInfo {
    pub name_with_owner: String,
    pub url: String,
    pub stars: i64,
    pub forks: i64,
    /// Creation and last update, whole seconds after the Unix epoch.
    pub created: i64,
    pub updated: i64,
    pub homepage: String,
    /// Disk usage in kilobytes, where known.
    pub disk_usage: Option<u64>,
    pub description: Option<String>,
    pub language: Option<PrimaryLanguage>,
    pub code_of_conduct: Option<NamedLink>,
    pub license: Option<NamedLink>,
    pub owner: String,
    pub owner_url: String,
    pub owner_avatar: String,
}

pub open spec fn link_text(name: Seq<char>, url: Seq<char>) -> Seq<char> {
    "["@ + name + "]("@ + url + ")"@
}

pub open spec fn website_text(homepage: Seq<char>) -> Seq<char> {
    if homepage.len() > 0 { link_text("Click here"@, homepage) } else { "No website is available."@ }
}

pub open spec fn disk_text(usage: Option<u64>) -> Seq<char> {
    match usage {
        Some(kb) => size_text(kb as int),
        None => "No disk usage data is available."@,
    }
}

pub open spec fn description_text(d: Option<Seq<char>>) -> Seq<char> {
    match d {
        Some(t) => t + "\n\n"@,
        None => Seq::empty(),
    }
}

pub open spec fn language_text(l: Option<PrimaryLanguage>) -> Seq<char> {
    match l {
        Some(lang) => lang.name@,
        None => "No language is available."@,
    }
}

/// The card's colour: the language's, where its hex text can be read,
/// else grey.
pub open spec fn repository_color(l: Option<PrimaryLanguage>) -> u32 {
    match l {
        Some(lang) => match hex_color(lang.color@) {
            Some((r, g, b)) => rgb_value(r, g, b),
            None => GITHUB_GREY,
        },
        None => GITHUB_GREY,
    }
}

pub open spec fn conduct_text(c: Option<NamedLink>) -> Seq<char> {
    match c {
        Some(l) => match l.url {
            None => l.name@,
            Some(u) => link_text(l.name@, u@),
        },
        None => "No code of conduct is available."@,
    }
}

pub open spec fn license_text(l: Option<NamedLink>) -> Seq<char> {
    match l {
        Some(lic) => if lic.name@ == "Other"@ { lic.name@ } else { link_text(lic.name@, lic.url.unwrap()@) },
        None => "No license available."@,
    }
}

/// A license other than "Other" always links its text.
pub open spec fn repository_ok(r: RepositoryInfo) -> bool {
    &&& utc_in_range(r.created as int)
    &&& utc_in_range(r.updated as int)
    &&& (r.license matches Some(l) ==> (l.name@ != "Other"@ ==> l.url is Some))
}

pub open spec fn repository_summary(r: RepositoryInfo) -> Seq<char> {
    description_text(r.description.deep_view()) + "**Owner**: "@ + link_text(r.owner@, r.owner_url@) + "\n**License**: "@
        + license_text(r.license) + "\n**Language**: "@ + language_text(r.language) + "\n**Website**: "@ + website_text(
        r.homepage@,
    ) + "\n**Code of Conduct**: "@ + conduct_text(r.code_of_conduct) + "\n**Created on**: "@ + utc_text(
        r.created as int,
        date_pattern(),
    ) + "\n**Last updated**: "@ + utc_text(r.updated as int, date_pattern()) + "\n**Disk usage**: "@ + disk_text(
        r.disk_usage,
    ) + "\n**Star Count**: "@ + signed_decimal(r.stars as int) + "\n**Fork Count**: "@ + signed_decimal(r.forks as int)
        + "\n"@
}

pub open spec fn repository_view(r: RepositoryInfo) -> EmbedView {
    EmbedView::blank().set_title(r.name_with_owner@).set_url(r.url@).set_thumbnail(r.owner_avatar@).set_color(
        repository_color(r.language),
    ).set_description(repository_summary(r)).set_footer(powered_by())
}

fn push_link(out: &mut String, name: &str, url: &str)
    ensures
        final(out)@ == old(out)@ + link_text(name@, url@),
{
    push_str(out, "[");
    push_str(out, name);
    push_str(out, "](");
    push_str(out, url);
    push_str(out, ")");
}

/// The repository card.
pub fn repository_embed(r: &RepositoryInfo) -> (e: Embed)
    requires
        repository_ok(*r),
    ensures
        e@ == repository_view(*r),
{
    let mut d = match &r.description {
        Some(t) => {
            let mut s = t.clone();
            push_str(&mut s, "\n\n");
            s
        },
        None => String::new(),
    };
    push_str(&mut d, "**Owner**: ");
    push_link(&mut d, r.owner.as_str(), r.owner_url.as_str());
    push_str(&mut d, "\n**License**: ");
    match &r.license {
        Some(lic) => {
            if same_text(lic.name.as_str(), "Other") {
                push_str(&mut d, lic.name.as_str());
            } else {
                let url = lic.url.as_ref().unwrap();
                push_link(&mut d, lic.name.as_str(), url.as_str());
            }
        },
        None => push_str(&mut d, "No license available."),
    }
    push_str(&mut d, "\n**Language**: ");
    match &r.language {
        Some(l) => push_str(&mut d, l.name.as_str()),
        None => push_str(&mut d, "No language is available."),
    }
    push_str(&mut d, "\n**Website**: ");
    if r.homepage.as_str().is_empty() {
        push_str(&mut d, "No website is available.");
    } else {
        push_link(&mut d, "Click here", r.homepage.as_str());
    }
    push_str(&mut d, "\n**Code of Conduct**: ");
    match &r.code_of_conduct {
        Some(c) => match &c.url {
            None => push_str(&mut d, c.name.as_str()),
            Some(u) => push_link(&mut d, c.name.as_str(), u.as_str()),
        },
        None => push_str(&mut d, "No code of conduct is available."),
    }
    push_str(&mut d, "\n**Created on**: ");
    let created = utc_string(r.created, "%A, %B %e, %Y @ %l:%M %P");
    push_str(&mut d, created.as_str());
    push_str(&mut d, "\n**Last updated**: ");
    let updated = utc_string(r.updated, "%A, %B %e, %Y @ %l:%M %P");
    push_str(&mut d, updated.as_str());
    push_str(&mut d, "\n**Disk usage**: ");
    match r.disk_usage {
        Some(kb) => {
            let size = size_string(kb);
            push_str(&mut d, size.as_str());
        },
        None => push_str(&mut d, "No disk usage data is available."),
    }
    push_str(&mut d, "\n**Star Count**: ");
    let stars = signed_string(r.stars);
    push_str(&mut d, stars.as_str());
    push_str(&mut d, "\n**Fork Count**: ");
    let forks = signed_string(r.forks);
    push_str(&mut d, forks.as_str());
    push_str(&mut d, "\n");
    assert(d@ =~= repository_summary(*r));
    let color = match &r.language {
        Some(l) => match read_hex_color(l.color.as_str()) {
            Some((red, green, blue)) => rgb(red, green, blue),
            None => GITHUB_GREY,
        },
        None => GITHUB_GREY,
    };
    Embed::new().title(r.name_with_owner.clone()).url(r.url.clone()).thumbnail(r.owner_avatar.clone()).color(color).description(
        d,
    ).footer(owned("Powered by the GitHub GraphQL API."))
}

// ---------------------------------------------------------------------------
// Users
// ---------------------------------------------------------------------------

/// What the user card shows.
pub struct GithubUser {
    pub login: String,
    pub name: String,
    pub url: String,
    pub avatar: String,
    /// When the account was made, whole seconds after the Unix epoch.
    pub created: i64,
    pub following: i64,
    pub followers: i64,
    pub repositories: i64,
    pub location: Option<String>,
    pub bio: Option<String>,
    /// The status message, where the user has set a status.
    pub status: Option<String>,
}

pub open spec fn bio_text(bio: Option<Seq<char>>) -> Seq<char> {
    match bio {
        Some(b) => if b.len() > 0 { b + "\n\n"@ } else { Seq::empty() },
        None => Seq::empty(),
    }
}

pub open spec fn github_user_summary(u: GithubUser) -> Seq<char> {
    bio_text(u.bio.deep_view()) + "**__Basic details__**:\n**Status**: "@ + match u.status {
        Some(s) => s@,
        None => "No status available."@,
    } + "\n**Joined GitHub**: "@ + utc_text(u.created as int, date_pattern()) + "\n**Repositories**: "@ + signed_decimal(
        u.repositories as int,
    ) + "\n**Location**: "@ + match u.location {
        Some(l) => l@,
        None => "No location available."@,
    } + "\n**Following**: "@ + signed_decimal(u.following as int) + "\n**Followers**: "@ + signed_decimal(
        u.followers as int,
    ) + "\n"@
}

pub open spec fn github_user_view(u: GithubUser) -> EmbedView {
    EmbedView::blank().set_author(
        AuthorView {
            name: if u.name@.len() == 0 { u.login@ } else { u.name@ },
            url: Some(u.url@),
            icon_url: Some(u.avatar@),
        },
    ).set_color(GITHUB_GREY).set_description(github_user_summary(u)).set_footer(powered_by())
}

/// The user card; the display name falls back to the login.
pub fn github_user_embed(u: &GithubUser) -> (e: Embed)
    requires
        utc_in_range(u.created as int),
    ensures
        e@ == github_user_view(*u),
{
    let mut d = match &u.bio {
        Some(b) => if b.as_str().is_empty() {
            String::new()
        } else {
            let mut s = b.clone();
            push_str(&mut s, "\n\n");
            s
        },
        None => String::new(),
    };
    push_str(&mut d, "**__Basic details__**:\n**Status**: ");
    match &u.status {
        Some(s) => push_str(&mut d, s.as_str()),
        None => push_str(&mut d, "No status available."),
    }
    push_str(&mut d, "\n**Joined GitHub**: ");
    let created = utc_string(u.created, "%A, %B %e, %Y @ %l:%M %P");
    push_str(&mut d, created.as_str());
    push_str(&mut d, "\n**Repositories**: ");
    let repos = signed_string(u.repositories);
    push_str(&mut d, repos.as_str());
    push_str(&mut d, "\n**Location**: ");
    match &u.location {
        Some(l) => push_str(&mut d, l.as_str()),
        None => push_str(&mut d, "No location available."),
    }
    push_str(&mut d, "\n**Following**: ");
    let following = signed_string(u.following);
    push_str(&mut d, following.as_str());
    push_str(&mut d, "\n**Followers**: ");
    let followers = signed_string(u.followers);
    push_str(&mut d, followers.as_str());
    push_str(&mut d, "\n");
    assert(d@ =~= github_user_summary(*u));
    let name = if u.name.as_str().is_empty() { u.login.clone() } else { u.name.clone() };
    let author = EmbedAuthor::named(name).with_icon(u.avatar.clone()).with_url(u.url.clone());
    Embed::new().author(author).color(GITHUB_GREY).description(d).footer(owned("Powered by the GitHub GraphQL API."))
}

} // verus!
