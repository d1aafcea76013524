//! The bot's own commands: latency, version, invite, source, nickname,
//! server prefix and shutdown.
use vstd::prelude::*;
use crate::embed::{say, respond, post, Embed, EmbedView, Reply, ReplyView};
use crate::text::{decimal, owned, push_decimal, push_str, signed_decimal, signed_string};

verus! {

// ---------------------------------------------------------------------------
// Latency
// ---------------------------------------------------------------------------

/// A shard latency that chrono's `TimeDelta` can hold: up to `i64::MAX`
/// milliseconds.
pub open spec fn latency_in_range(secs: u64, nanos: u32) -> bool {
    secs < 9_223_372_036_854_775 || (secs == 9_223_372_036_854_775 && nanos <= 807_000_000)
}

/// `chrono::Duration::from_std(std::time::Duration::new(secs, nanos))`,
/// then `num_milliseconds`: whole milliseconds where chrono can hold the
/// duration.
#[verifier::external_body]
fn latency_millis(secs: u64, nanos: u32) -> (r: Option<i64>)
    requires
        nanos < 1_000_000_000,
    ensures
        r is Some <==> latency_in_range(secs, nanos),
        r matches Some(ms) ==> ms == secs * 1000 + nanos / 1_000_000,
{
    match chrono::Duration::from_std(std::time::Duration::new(secs, nanos)) {
        Ok(t) => Some(t.num_milliseconds()),
        Err(_) => None,
    }
}

/// A clock reading: whole seconds and the milliseconds past them.
pub struct Instant {
    pub secs: i64,
    pub millis: u32,
}

/// The round trip of the "Pinging!" message, in milliseconds.
pub open spec fn api_millis(start: Instant, end: Instant) -> int {
    (end.secs - start.secs) * 1000 + (end.millis - start.millis)
}

pub open spec fn ping_ok(start: Instant, end: Instant, latency: Option<(u64, u32)>) -> bool {
    &&& i64::MIN <= end.secs - start.secs <= i64::MAX
    &&& i64::MIN <= (end.secs - start.secs) * 1000 <= i64::MAX
    &&& i64::MIN <= api_millis(start, end) <= i64::MAX
    &&& (latency matches Some((_, n)) ==> n < 1_000_000_000)
}

pub open spec fn shard_text(latency: Option<(u64, u32)>) -> Seq<char> {
    match latency {
        Some((s, n)) => if latency_in_range(s, n) {
            "`"@ + signed_decimal(s * 1000 + n / 1_000_000) + "ms`"@
        } else {
            "No latency information available"@
        },
        None => "No data available at the moment."@,
    }
}

pub open spec fn ping_view(start: Instant, end: Instant, latency: Option<(u64, u32)>) -> EmbedView {
    EmbedView::blank().set_color(0x008b_0000).set_title("Discord Latency Information"@).set_description(
        "Pong! Succesfully retrieved the message and shard latencies. :ping_pong:\n\n**API Response Time**: `"@
            + signed_decimal(api_millis(start, end)) + "ms`\n**Shard Response Time**: "@ + shard_text(latency),
    )
}

/// The latency message, from the clock before and after the first message
/// and the shard's heartbeat latency (seconds and nanoseconds), if known.
pub fn ping_embed(start: &Instant, end: &Instant, latency: Option<(u64, u32)>) -> (e: Embed)
    requires
        ping_ok(*start, *end, latency),
    ensures
        e@ == ping_view(*start, *end, latency),
{
    let api = (end.secs - start.secs) * 1000 + (end.millis as i64 - start.millis as i64);
    let shard = match latency {
        Some((s, n)) => match latency_millis(s, n) {
            Some(ms) => {
                let mut t = owned("`");
                let v = signed_string(ms);
                push_str(&mut t, v.as_str());
                push_str(&mut t, "ms`");
                t
            },
            None => owned("No latency information available"),
        },
        None => owned("No data available at the moment."),
    };
    let mut d = owned("Pong! Succesfully retrieved the message and shard latencies. :ping_pong:\n\n**API Response Time**: `");
    let a = signed_string(api);
    push_str(&mut d, a.as_str());
    push_str(&mut d, "ms`\n**Shard Response Time**: ");
    push_str(&mut d, shard.as_str());
    Embed::new().color(0x008b_0000).title(owned("Discord Latency Information")).description(d)
}

// ---------------------------------------------------------------------------
// Version, invite, source
// ---------------------------------------------------------------------------

/// What the version command shows; the build facts come from the build.
pub struct VersionInfo {
    pub bot_name: String,
    pub version: String,
    /// The git description of the build, where known.
    pub git_version: Option<String>,
    pub branch: String,
    pub revision: String,
    pub codename: String,
    pub build_date: String,
    pub build_host: String,
    pub build_target: String,
    pub rust_runtime: String,
}

pub open spec fn git_text(v: Option<Seq<char>>) -> Seq<char> {
    match v {
        Some(g) => " (git "@ + g + ")"@,
        None => "Unknown git version"@,
    }
}

pub open spec fn version_view(v: VersionInfo) -> EmbedView {
    EmbedView::blank().set_title(v.bot_name@ + " version information"@).set_description(
        "**Version**: v"@ + v.version@ + " "@ + git_text(v.git_version.deep_view()) + "\n**Branch**: "@ + v.branch@
            + "\n**Revision**: "@ + v.revision@ + "\n**Codename**: "@ + v.codename@ + "\n**Build date**: "@
            + v.build_date@ + "\n**Build host**: "@ + v.build_host@ + "\n**Build target**: "@ + v.build_target@
            + "\n**Rust runtime**: "@ + v.rust_runtime@,
    )
}

pub fn version_embed(v: &VersionInfo) -> (e: Embed)
    ensures
        e@ == version_view(*v),
{
    let git = match &v.git_version {
        Some(g) => {
            let mut s = owned(" (git ");
            push_str(&mut s, g.as_str());
            push_str(&mut s, ")");
            s
        },
        None => owned("Unknown git version"),
    };
    let mut d = owned("**Version**: v");
    push_str(&mut d, v.version.as_str());
    push_str(&mut d, " ");
    push_str(&mut d, git.as_str());
    push_str(&mut d, "\n**Branch**: ");
    push_str(&mut d, v.branch.as_str());
    push_str(&mut d, "\n**Revision**: ");
    push_str(&mut d, v.revision.as_str());
    push_str(&mut d, "\n**Codename**: ");
    push_str(&mut d, v.codename.as_str());
    push_str(&mut d, "\n**Build date**: ");
    push_str(&mut d, v.build_date.as_str());
    push_str(&mut d, "\n**Build host**: ");
    push_str(&mut d, v.build_host.as_str());
    push_str(&mut d, "\n**Build target**: ");
    push_str(&mut d, v.build_target.as_str());
    push_str(&mut d, "\n**Rust runtime**: ");
    push_str(&mut d, v.rust_runtime.as_str());
    let mut title = v.bot_name.clone();
    push_str(&mut title, " version information");
    Embed::new().title(title).description(d)
}

pub open spec fn invite_view(name: Seq<char>, avatar: Seq<char>, url: Seq<char>) -> EmbedView {
    EmbedView::blank().set_title(name + " Invite URL"@).set_thumbnail(avatar).set_description(
        "Click [here]("@ + url + ") to add "@ + name + " to your Discord server."@,
    )
}

/// The invite answer, given the invite link if one could be made.
pub fn invite_reply(name: &str, avatar: &str, url: Option<String>) -> (r: Reply)
    ensures
        r@ == match url {
            Some(u) => ReplyView::Post(invite_view(name@, avatar@, u@), Seq::empty()),
            None => ReplyView::Respond("Couldn't generate invite."@),
        },
{
    match url {
        Some(u) => {
            let mut title = owned(name);
            push_str(&mut title, " Invite URL");
            let mut d = owned("Click [here](");
            push_str(&mut d, u.as_str());
            push_str(&mut d, ") to add ");
            push_str(&mut d, name);
            push_str(&mut d, " to your Discord server.");
            post(Embed::new().title(title).thumbnail(owned(avatar)).description(d))
        },
        None => respond(owned("Couldn't generate invite.")),
    }
}

/// The source command's answer.
pub fn source_reply() -> (r: Reply)
    ensures
        r@ == ReplyView::Respond("GitHub repository: <https://github.com/evelynmarie/Ellie>"@),
{
    respond(owned("GitHub repository: <https://github.com/evelynmarie/Ellie>"))
}

// ---------------------------------------------------------------------------
// Nickname
// ---------------------------------------------------------------------------

/// What the nickname command sets (`None` clears it) and says.
pub fn nickname_plan(nick: Option<String>) -> (r: (Option<String>, Reply))
    ensures
        r.0.deep_view() == nick.deep_view(),
        r.1@ == match nick {
            Some(n) => ReplyView::Say("Set my nickname to \""@ + n@ + "\"."@),
            None => ReplyView::Say("Cleared my nickname / left it the same."@),
        },
{
    match nick {
        Some(n) => {
            let mut s = owned("Set my nickname to \"");
            push_str(&mut s, n.as_str());
            push_str(&mut s, "\".");
            (Some(n), say(s))
        },
        None => (None, say(owned("Cleared my nickname / left it the same."))),
    }
}

// ---------------------------------------------------------------------------
// Server prefix
// ---------------------------------------------------------------------------

/// The prefix a guild has when none is stored.
pub const DEFAULT_PREFIX: &'static str = ";";

/// The prefix `set` stores: the given argument, or the default.
pub open spec fn stored_prefix(argument: Option<Seq<char>>) -> Seq<char> {
    match argument {
        Some(a) => a,
        None => DEFAULT_PREFIX@,
    }
}

pub fn prefix_to_store(argument: Option<String>) -> (p: String)
    ensures
        p@ == stored_prefix(argument.deep_view()),
{
    match argument {
        Some(a) => a,
        None => owned(DEFAULT_PREFIX),
    }
}

/// The prefix a guild uses: the one stored for it, or the default.
pub open spec fn prefix_in(store: Map<u64, Seq<char>>, guild: u64) -> Seq<char> {
    if store.contains_key(guild) { store[guild] } else { DEFAULT_PREFIX@ }
}

/// The stored prefixes after `set` in a guild with the given argument.
pub open spec fn after_set(store: Map<u64, Seq<char>>, guild: u64, argument: Option<Seq<char>>) -> Map<u64, Seq<char>> {
    store.insert(guild, stored_prefix(argument))
}

/// The stored prefixes after `clear` in a guild.
pub open spec fn after_clear(store: Map<u64, Seq<char>>, guild: u64) -> Map<u64, Seq<char>> {
    store.remove(guild)
}

/// The prefix a guild uses, given what is stored for it.
pub fn current_prefix(stored: Option<String>) -> (p: String)
    ensures
        p@ == match stored {
            Some(s) => s@,
            None => DEFAULT_PREFIX@,
        },
{
    match stored {
        Some(s) => s,
        None => owned(DEFAULT_PREFIX),
    }
}

/// The answer of the prefix command, given the guild's name where the
/// guild could be found.
pub open spec fn prefix_shown_view(guild: Option<Seq<char>>, prefix: Seq<char>) -> ReplyView {
    match guild {
        Some(g) => ReplyView::Say("The current prefix for **"@ + g + "** is `"@ + prefix + "`."@),
        None => ReplyView::Say("Unable to get the command prefix, as the guild cannot be located."@),
    }
}

pub open spec fn prefix_set_view(guild: Option<Seq<char>>, prefix: Seq<char>) -> ReplyView {
    match guild {
        Some(g) => ReplyView::Say("The prefix for **"@ + g + "** has been set to `"@ + prefix + "`."@),
        None => ReplyView::Say("Unable to set command prefix, as the guild cannot be located."@),
    }
}

pub open spec fn prefix_cleared_view(guild: Option<Seq<char>>) -> ReplyView {
    match guild {
        Some(g) => ReplyView::Say("The prefix for **"@ + g + "** has been cleared."@),
        None => ReplyView::Say("Unable to clear the command prefix, as the guild cannot be located."@),
    }
}

pub fn prefix_shown(guild: Option<&str>, prefix: &str) -> (r: Reply)
    ensures
        r@ == prefix_shown_view(guild.deep_view(), prefix@),
{
    match guild {
        Some(g) => {
            let mut s = owned("The current prefix for **");
            push_str(&mut s, g);
            push_str(&mut s, "** is `");
            push_str(&mut s, prefix);
            push_str(&mut s, "`.");
            say(s)
        },
        None => say(owned("Unable to get the command prefix, as the guild cannot be located.")),
    }
}

pub fn prefix_set(guild: Option<&str>, prefix: &str) -> (r: Reply)
    ensures
        r@ == prefix_set_view(guild.deep_view(), prefix@),
{
    match guild {
        Some(g) => {
            let mut s = owned("The prefix for **");
            push_str(&mut s, g);
            push_str(&mut s, "** has been set to `");
            push_str(&mut s, prefix);
            push_str(&mut s, "`.");
            say(s)
        },
        None => say(owned("Unable to set command prefix, as the guild cannot be located.")),
    }
}

pub fn prefix_cleared(guild: Option<&str>) -> (r: Reply)
    ensures
        r@ == prefix_cleared_view(guild.deep_view()),
{
    match guild {
        Some(g) => {
            let mut s = owned("The prefix for **");
            push_str(&mut s, g);
            push_str(&mut s, "** has been cleared.");
            say(s)
        },
        None => say(owned("Unable to clear the command prefix, as the guild cannot be located.")),
    }
}

/// A prefix that was set is the prefix shown: after `set` in a guild, the
/// prefix command there names the stored prefix (the argument given, or
/// the default), whatever was stored before; other guilds keep theirs.
pub proof fn set_prefix_is_shown(store: Map<u64, Seq<char>>, guild: u64, argument: Option<Seq<char>>, name: Seq<char>)
    ensures
        prefix_in(after_set(store, guild, argument), guild) == stored_prefix(argument),
        prefix_shown_view(Some(name), prefix_in(after_set(store, guild, argument), guild)) == ReplyView::Say(
            "The current prefix for **"@ + name + "** is `"@ + stored_prefix(argument) + "`."@,
        ),
        forall|other: u64| other != guild ==> prefix_in(after_set(store, guild, argument), other) == prefix_in(store, other),
{
}

/// A cleared prefix reads back as the default, as if `set` had never run
/// in the guild; other guilds keep theirs.
pub proof fn cleared_prefix_is_default(store: Map<u64, Seq<char>>, guild: u64, argument: Option<Seq<char>>)
    ensures
        prefix_in(after_clear(store, guild), guild) == DEFAULT_PREFIX@,
        prefix_in(after_clear(after_set(store, guild, argument), guild), guild) == prefix_in(after_clear(store, guild), guild),
        forall|other: u64| other != guild ==> prefix_in(after_clear(store, guild), other) == prefix_in(store, other),
{
}

// ---------------------------------------------------------------------------
// Shutdown
// ---------------------------------------------------------------------------

/// How the bot goes down.
pub enum Shutdown {
    /// Stop every shard.
    Graceful,
    /// Exit the process at once.
    Kill,
}

/// Gracefully only when the shard manager is there and could be locked.
pub fn shutdown_plan(has_manager: bool, locked: bool) -> (s: Shutdown)
    ensures
        s == (if has_manager && locked { Shutdown::Graceful } else { Shutdown::Kill }),
{
    if has_manager && locked { Shutdown::Graceful } else { Shutdown::Kill }
}


/// The message the latency check sends first and then edits.
pub fn pinging_text() -> (s: String)
    ensures
        s@ == ":ping_pong: Pinging!"@,
{
    owned(":ping_pong: Pinging!")
}

/// The latency check's answers when the shard manager, or the shard that
/// received the command, cannot be found.
pub fn no_shard_manager() -> (r: Reply)
    ensures
        r@ == ReplyView::Respond("I encountered a problem while getting the shard manager."@),
{
    respond(owned("I encountered a problem while getting the shard manager."))
}

pub fn no_shard() -> (r: Reply)
    ensures
        r@ == ReplyView::Respond("Could not find a shard"@),
{
    respond(owned("Could not find a shard"))
}

/// What the shutdown command says before it stops the bot.
pub fn shutting_down() -> (r: Reply)
    ensures
        r@ == ReplyView::Say("Shutting down..."@),
{
    say(owned("Shutting down..."))
}

} // verus!
