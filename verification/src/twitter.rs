//! The Twitter user card.
use vstd::prelude::*;
use crate::embed::{say, Embed, EmbedView, Reply, ReplyView};
use crate::formats::{utc_in_range, utc_string, utc_text};
use crate::text::{grouped, owned, push_str, replace, replaced};

verus! {

/// What the card shows of a Twitter user.
pub struct TwitterUser {
    pub id: String,
    pub name: String,
    pub username: String,
    /// When the account was made, whole seconds after the Unix epoch.
    pub created: i64,
    pub protected: bool,
    pub location: Option<String>,
    pub description: String,
    pub verified: bool,
    pub profile_image_url: String,
    pub followers: u64,
    pub following: u64,
    pub tweets: u64,
    /// The text of the latest tweet, where there is one.
    pub latest_tweet: Option<String>,
}

pub open spec fn twitter_view(u: TwitterUser) -> EmbedView {
    EmbedView::blank().set_title(u.name@ + if u.verified { " \\\u{2714}\u{fe0f}"@ } else { Seq::empty() }).set_url(
        "https://twitter.com/"@ + u.username@,
    ).set_thumbnail(replaced(u.profile_image_url@, "normal"@, "400x400"@)).set_color(0x00acee).set_description(
        u.description@,
    ).add_field("Username"@, u.username@, true).add_field(
        "Join Date"@,
        utc_text(u.created as int, "%B %-e, %Y"@),
        true,
    ).add_field("Protected"@, if u.protected { "Yes"@ } else { "No"@ }, true).add_field(
        "Location"@,
        match u.location {
            Some(l) => l@,
            None => "None"@,
        },
        true,
    ).add_field("Following"@, grouped(u.following as nat), true).add_field("Followers"@, grouped(u.followers as nat), true).add_field(
        "Tweets"@,
        grouped(u.tweets as nat),
        true,
    ).add_field(
        "Latest Tweet"@,
        match u.latest_tweet {
            Some(t) => t@,
            None => "Tweet not available."@,
        },
        false,
    ).set_footer("User ID: "@ + u.id@ + " | Powered by Twitter."@)
}

/// The user card.
pub fn twitter_embed(u: &TwitterUser) -> (e: Embed)
    requires
        utc_in_range(u.created as int),
    ensures
        e@ == twitter_view(*u),
{
    let mut title = u.name.clone();
    if u.verified {
        push_str(&mut title, " \\\u{2714}\u{fe0f}");
    }
    let mut url = owned("https://twitter.com/");
    push_str(&mut url, u.username.as_str());
    proof {
        reveal_strlit("normal");
    }
    let avatar = replace(u.profile_image_url.as_str(), "normal", "400x400");
    let location = match &u.location {
        Some(l) => l.clone(),
        None => owned("None"),
    };
    let latest = match &u.latest_tweet {
        Some(t) => t.clone(),
        None => owned("Tweet not available."),
    };
    let mut footer = owned("User ID: ");
    push_str(&mut footer, u.id.as_str());
    push_str(&mut footer, " | Powered by Twitter.");
    let e = Embed::new().title(title).url(url).thumbnail(avatar).color(0x00acee).description(u.description.clone());
    let e = e.field(owned("Username"), u.username.clone(), true).field(
        owned("Join Date"),
        utc_string(u.created, "%B %-e, %Y"),
        true,
    ).field(owned("Protected"), owned(if u.protected { "Yes" } else { "No" }), true).field(owned("Location"), location, true);
    let e = e.field(owned("Following"), crate::text::format_int(u.following), true).field(
        owned("Followers"),
        crate::text::format_int(u.followers),
        true,
    ).field(owned("Tweets"), crate::text::format_int(u.tweets), true).field(owned("Latest Tweet"), latest, false);
    e.footer(footer)
}

/// The addresses the card is read from.
pub fn twitter_user_url(username: &str) -> (s: String)
    ensures
        s@ == "https://api.twitter.com/2/users/by/username/"@ + username@,
{
    let mut s = owned("https://api.twitter.com/2/users/by/username/");
    push_str(&mut s, username);
    s
}

pub fn twitter_tweets_url(id: &str) -> (s: String)
    ensures
        s@ == "https://api.twitter.com/2/users/"@ + id@ + "/tweets"@,
{
    let mut s = owned("https://api.twitter.com/2/users/");
    push_str(&mut s, id);
    push_str(&mut s, "/tweets");
    s
}

/// The answer to the bare `twitter` command.
pub fn no_subcommand() -> (r: Reply)
    ensures
        r@ == ReplyView::Say("No valid subcommand entered. Do `help twitter` to see the commands."@),
{
    say(owned("No valid subcommand entered. Do `help twitter` to see the commands."))
}

} // verus!
