//! The server-information commands: a channel, a role, the first message of
//! a channel, the bot itself, and the latest commits.
use vstd::prelude::*;
use crate::embed::{post, say, AuthorView, Embed, EmbedAuthor, EmbedView, Reply, ReplyView};
use crate::formats::{utc_in_range, utc_string, utc_text};
use crate::text::{byte_prefix, prefix_bytes, prefix_ok, bool_string, bool_text, decimal, join, joined, owned, push_decimal, push_str, replace, replaced, same_text, views};

verus! {

/// What the channel command shows of a guild channel.
pub struct ChannelInfo {
    pub id: u64,
    pub name: String,
    pub guild_icon: String,
    /// The name of the channel's category, if it has one.
    pub category: Option<String>,
    pub position: u16,
    pub bitrate: Option<u32>,
    pub nsfw: bool,
    pub topic: Option<String>,
    /// The channel type's name as the Discord client library spells it
    /// (`text`, `voice`, `category`, ...).
    pub kind: String,
}

pub open spec fn channel_kind_text(kind: Seq<char>) -> Seq<char> {
    if kind == "text"@ {
        "Text Channel"@
    } else if kind == "voice"@ {
        "Voice Channel"@
    } else if kind == "category"@ {
        "Channel Category"@
    } else if kind == "news"@ {
        "News Channel"@
    } else if kind == "store"@ {
        "Store Channel"@
    } else if kind == "stage"@ {
        "Stage Channel"@
    } else {
        "Unrecognized channel type"@
    }
}

/// The topic, followed by a blank line, or nothing.
pub open spec fn topic_text(topic: Option<Seq<char>>) -> Seq<char> {
    match topic {
        Some(t) => if t.len() > 0 { t + "\n\n"@ } else { Seq::empty() },
        None => Seq::empty(),
    }
}

pub open spec fn bitrate_text(bitrate: Option<u32>) -> Seq<char> {
    match bitrate {
        Some(b) => decimal(b as nat) + " kbps"@,
        None => "N/A"@,
    }
}

pub open spec fn category_text(category: Option<Seq<char>>) -> Seq<char> {
    match category {
        Some(c) => c,
        None => "No category available"@,
    }
}

pub open spec fn channel_view(c: ChannelInfo) -> EmbedView {
    EmbedView::blank().set_author(AuthorView { name: c.name@, url: None, icon_url: Some(c.guild_icon@) }).set_color(
        0x7289DA,
    ).set_description(topic_text(c.topic.deep_view())).add_field(
        "Category"@,
        category_text(c.category.deep_view()),
        false,
    ).add_field("Position"@, decimal(c.position as nat), true).add_field(
        "Bitrate"@,
        bitrate_text(c.bitrate),
        true,
    ).add_field("Kind"@, channel_kind_text(c.kind@), true).add_field("NSFW"@, bool_text(c.nsfw), true).set_footer(
        "Channel ID: "@ + decimal(c.id as nat),
    )
}

fn channel_kind_string(kind: &str) -> (s: &'static str)
    ensures
        s@ == channel_kind_text(kind@),
{
    if same_text(kind, "text") {
        "Text Channel"
    } else if same_text(kind, "voice") {
        "Voice Channel"
    } else if same_text(kind, "category") {
        "Channel Category"
    } else if same_text(kind, "news") {
        "News Channel"
    } else if same_text(kind, "store") {
        "Store Channel"
    } else if same_text(kind, "stage") {
        "Stage Channel"
    } else {
        "Unrecognized channel type"
    }
}

/// The channel-information message.
pub fn channel_embed(c: &ChannelInfo) -> (e: Embed)
    ensures
        e@ == channel_view(*c),
{
    let topic = match &c.topic {
        Some(t) => {
            if t.as_str().is_empty() {
                String::new()
            } else {
                let mut s = t.clone();
                push_str(&mut s, "\n\n");
                s
            }
        },
        None => String::new(),
    };
    let category = match &c.category {
        Some(name) => name.clone(),
        None => owned("No category available"),
    };
    let bitrate = match c.bitrate {
        Some(b) => {
            let mut s = String::new();
            push_decimal(&mut s, b as u64);
            push_str(&mut s, " kbps");
            s
        },
        None => owned("N/A"),
    };
    let mut position = String::new();
    push_decimal(&mut position, c.position as u64);
    let mut footer = owned("Channel ID: ");
    push_decimal(&mut footer, c.id);
    let author = EmbedAuthor::named(c.name.clone()).with_icon(c.guild_icon.clone());
    let e = Embed::new().author(author).color(0x7289DA).description(topic).field(
        owned("Category"),
        category,
        false,
    ).field(owned("Position"), position, true).field(owned("Bitrate"), bitrate, true).field(
        owned("Kind"),
        owned(channel_kind_string(c.kind.as_str())),
        true,
    ).field(owned("NSFW"), bool_string(c.nsfw), true).footer(footer);
    assert(e@.description == Some(topic_text(c.topic.deep_view())));
    e
}

// ---------------------------------------------------------------------------
// Roles
// ---------------------------------------------------------------------------

/// What the role command shows of a role.
pub struct RoleInfo {
    pub id: u64,
    pub name: String,
    pub color: u32,
    pub managed: bool,
    pub hoisted: bool,
    pub mentionable: bool,
    pub position: u16,
    /// The role's permission bits.
    pub permissions: u64,
}

/// The second in which a Discord id (a snowflake) was made: its upper 42
/// bits count milliseconds from the first instant of 2015.
pub open spec fn snowflake_secs(id: u64) -> int {
    (id / 4194304 + 1420070400000) / 1000
}

/// The text the Discord client library writes for a set of permissions:
/// their names, separated by commas, the last two joined by "and".
pub uninterp spec fn permission_list_text(bits: u64) -> Seq<char>;

/// serenity's `Permissions::from_bits_truncate(bits).to_string()`: the
/// names of the permissions in `bits` as the library lists them; the text
/// is named, not stated.
#[verifier::external_body]
fn permission_list(bits: u64) -> (s: String)
    ensures
        s@ == permission_list_text(bits),
{
    serenity::model::permissions::Permissions::from_bits_truncate(bits).to_string()
}

pub open spec fn role_created_pattern() -> Seq<char> {
    "%A, %B %e, %Y @ %l:%M %P"@
}

pub open spec fn role_view(r: RoleInfo, guild_icon: Seq<char>) -> EmbedView {
    EmbedView::blank().set_author(AuthorView { name: r.name@, url: None, icon_url: Some(guild_icon) }).set_color(
        r.color,
    ).add_field("Integration Managed"@, bool_text(r.managed), true).add_field(
        "Hoisted"@,
        bool_text(r.hoisted),
        true,
    ).add_field("Mentionable"@, bool_text(r.mentionable), true).add_field(
        "Position"@,
        decimal(r.position as nat),
        true,
    ).add_field("Created"@, utc_text(snowflake_secs(r.id), role_created_pattern()), false).add_field(
        "Permissions"@,
        permission_list_text(r.permissions),
        false,
    ).set_footer("Role ID: "@ + decimal(r.id as nat))
}

/// The second in which a Discord id was made.
pub fn snowflake_seconds(id: u64) -> (s: i64)
    ensures
        s == snowflake_secs(id),
        utc_in_range(s as int),
{
    let high = id >> 22;
    assert(high == id / 4194304) by (bit_vector)
        requires
            high == id >> 22,
    ;
    assert(high <= 4398046511103) by (bit_vector)
        requires
            high == id >> 22,
    ;
    let ms = high + 1_420_070_400_000;
    (ms / 1000) as i64
}

/// The role-information message.
pub fn role_embed(r: &RoleInfo, guild_icon: &str) -> (e: Embed)
    ensures
        e@ == role_view(*r, guild_icon@),
{
    let created = utc_string(snowflake_seconds(r.id), "%A, %B %e, %Y @ %l:%M %P");
    let mut position = String::new();
    push_decimal(&mut position, r.position as u64);
    let mut footer = owned("Role ID: ");
    push_decimal(&mut footer, r.id);
    let author = EmbedAuthor::named(r.name.clone()).with_icon(owned(guild_icon));
    Embed::new().author(author).color(r.color).field(owned("Integration Managed"), bool_string(r.managed), true).field(
        owned("Hoisted"),
        bool_string(r.hoisted),
        true,
    ).field(owned("Mentionable"), bool_string(r.mentionable), true).field(owned("Position"), position, true).field(
        owned("Created"),
        created,
        false,
    ).field(owned("Permissions"), permission_list(r.permissions), false).footer(footer)
}

/// Some role of the given name, as a lookup in the guild's role map finds
/// one: which of several roles of that name is not fixed.
pub fn find_role(roles: &Vec<RoleInfo>, name: &str) -> (r: Option<usize>)
    ensures
        r is None <==> forall|i: int| 0 <= i < roles@.len() ==> roles@[i].name@ != name@,
        r matches Some(i) ==> i < roles@.len() && roles@[i as int].name@ == name@,
{
    let mut i: usize = 0;
    while i < roles.len()
        invariant
            i <= roles@.len(),
            forall|j: int| 0 <= j < i ==> roles@[j].name@ != name@,
        decreases roles@.len() - i,
    {
        if same_text(roles[i].name.as_str(), name) {
            return Some(i);
        }
        i = i + 1;
    }
    None
}

/// The role command: no argument, an unknown role, or the role's message.
pub open spec fn role_reply_ok(roles: Seq<RoleInfo>, guild_icon: Seq<char>, argument: Option<Seq<char>>, r: ReplyView) -> bool {
    match argument {
        None => r == ReplyView::Say("You didn't provide a role to lookup!"@),
        Some(name) => if forall|i: int| 0 <= i < roles.len() ==> roles[i].name@ != name {
            r == ReplyView::Say("That is an invalid role!"@)
        } else {
            exists|i: int| 0 <= i < roles.len() && roles[i].name@ == name && r == ReplyView::Post(role_view(roles[i], guild_icon), Seq::empty())
        },
    }
}

/// What the role command answers, given the guild's roles and the text
/// after the command, if any.
pub fn role_reply(roles: &Vec<RoleInfo>, guild_icon: &str, argument: Option<String>) -> (r: Reply)
    ensures
        role_reply_ok(roles@, guild_icon@, argument.deep_view(), r@),
{
    match argument {
        None => say(owned("You didn't provide a role to lookup!")),
        Some(name) => match find_role(roles, name.as_str()) {
            None => say(owned("That is an invalid role!")),
            Some(i) => {
                let r = post(role_embed(&roles[i], guild_icon));
                assert(roles@[i as int].name@ == name@);
                r
            },
        },
    }
}

// ---------------------------------------------------------------------------
// The first message of a channel
// ---------------------------------------------------------------------------

/// What the first-message command shows of a message.
pub struct FirstMessage {
    pub id: u64,
    pub channel_id: u64,
    /// The guild the message says it belongs to, if it says so.
    pub guild_id: Option<u64>,
    pub author_tag: String,
    pub author_avatar: String,
    /// The colour of the author's highest coloured role.
    pub author_color: u32,
    pub content: String,
    /// When it was sent, in milliseconds after the Unix epoch.
    pub timestamp: i64,
}

/// The link to a message, as the Discord client library writes it: `@me`
/// stands for the guild where the message names none.
pub open spec fn message_link_text(guild: Option<u64>, channel: u64, id: u64) -> Seq<char> {
    "https://discord.com/channels/"@ + match guild {
        Some(g) => decimal(g as nat),
        None => "@me"@,
    } + "/"@ + decimal(channel as nat) + "/"@ + decimal(id as nat)
}

pub open spec fn jump_link(m: FirstMessage, guild: u64) -> Seq<char> {
    replaced(message_link_text(m.guild_id, m.channel_id, m.id), "@me"@, decimal(guild as nat))
}

pub open spec fn first_message_view(m: FirstMessage, guild: u64) -> EmbedView {
    EmbedView::blank().set_author(
        AuthorView { name: m.author_tag@, url: None, icon_url: Some(m.author_avatar@) },
    ).set_color(m.author_color).set_thumbnail(m.author_avatar@).set_description(m.content@).set_timestamp(
        m.timestamp,
    ).add_field("\u{276f} Jump To Message"@, "[Click Here]("@ + jump_link(m, guild) + ")"@, true).set_footer(
        "Message ID: "@ + decimal(m.id as nat),
    )
}

/// The link to a message.
pub fn message_link(guild: Option<u64>, channel: u64, id: u64) -> (s: String)
    ensures
        s@ == message_link_text(guild, channel, id),
{
    let mut s = owned("https://discord.com/channels/");
    match guild {
        Some(g) => push_decimal(&mut s, g),
        None => push_str(&mut s, "@me"),
    }
    push_str(&mut s, "/");
    push_decimal(&mut s, channel);
    push_str(&mut s, "/");
    push_decimal(&mut s, id);
    s
}

/// The message that shows the first message of a channel of guild `guild`.
pub fn first_message_embed(m: &FirstMessage, guild: u64) -> (e: Embed)
    ensures
        e@ == first_message_view(*m, guild),
{
    let link = message_link(m.guild_id, m.channel_id, m.id);
    let guild_text = crate::text::decimal_string(guild);
    proof {
        reveal_strlit("@me");
    }
    let jump = replace(link.as_str(), "@me", guild_text.as_str());
    let mut value = owned("[Click Here](");
    push_str(&mut value, jump.as_str());
    push_str(&mut value, ")");
    let mut footer = owned("Message ID: ");
    push_decimal(&mut footer, m.id);
    let author = EmbedAuthor::named(m.author_tag.clone()).with_icon(m.author_avatar.clone());
    Embed::new().author(author).color(m.author_color).thumbnail(m.author_avatar.clone()).description(
        m.content.clone(),
    ).timestamp(m.timestamp).field(owned("\u{276f} Jump To Message"), value, true).footer(footer)
}

// ---------------------------------------------------------------------------
// About the bot
// ---------------------------------------------------------------------------

/// What the about command shows.
pub struct AboutInfo {
    pub version: String,
    pub codename: String,
    pub branch: String,
    pub revision: String,
    pub owner_tag: String,
    pub bot_name: String,
    pub bot_avatar: String,
    pub shards: u64,
    pub guilds: u64,
    pub channels: u64,
    pub users: u64,
}

pub open spec fn about_view(a: AboutInfo) -> EmbedView {
    EmbedView::blank().set_title("**"@ + a.bot_name@ + "**"@).set_url("https://github.com/evelynmarie/Ellie"@).set_thumbnail(
        a.bot_avatar@,
    ).set_color(0x00BFFF).add_field("Version"@, a.version@, true).add_field("Codename"@, a.codename@, true).add_field(
        "Branch"@,
        a.branch@,
        true,
    ).add_field("Revision"@, "`"@ + a.revision@ + "`"@, true).add_field("Owner"@, a.owner_tag@, true).add_field(
        "Shards"@,
        decimal(a.shards as nat),
        true,
    ).add_field("Guilds"@, decimal(a.guilds as nat), true).add_field("Channels"@, decimal(a.channels as nat), true).add_field(
        "Users"@,
        decimal(a.users as nat),
        true,
    ).set_footer("Written with Rust & serenity."@)
}

/// The about message.
pub fn about_embed(a: &AboutInfo) -> (e: Embed)
    ensures
        e@ == about_view(*a),
{
    let mut title = owned("**");
    push_str(&mut title, a.bot_name.as_str());
    push_str(&mut title, "**");
    let mut revision = owned("`");
    push_str(&mut revision, a.revision.as_str());
    push_str(&mut revision, "`");
    Embed::new().title(title).url(owned("https://github.com/evelynmarie/Ellie")).thumbnail(a.bot_avatar.clone()).color(
        0x00BFFF,
    ).field(owned("Version"), a.version.clone(), true).field(owned("Codename"), a.codename.clone(), true).field(
        owned("Branch"),
        a.branch.clone(),
        true,
    ).field(owned("Revision"), revision, true).field(owned("Owner"), a.owner_tag.clone(), true).field(
        owned("Shards"),
        crate::text::decimal_string(a.shards),
        true,
    ).field(owned("Guilds"), crate::text::decimal_string(a.guilds), true).field(
        owned("Channels"),
        crate::text::decimal_string(a.channels),
        true,
    ).field(owned("Users"), crate::text::decimal_string(a.users), true).footer(owned("Written with Rust & serenity."))
}

// ---------------------------------------------------------------------------
// Recent commits
// ---------------------------------------------------------------------------

/// A commit as the repository history lists it.
pub struct Commit {
    pub headline: String,
    pub url: String,
    pub oid: String,
}

pub open spec fn commit_ok(c: Commit) -> bool {
    prefix_ok(c.url@, 52) && prefix_ok(c.oid@, 7)
}

/// One line of the list: the short hash, linked, then the headline.
pub open spec fn commit_line(c: Commit) -> Seq<char> {
    "[`"@ + byte_prefix(c.oid@, 7) + "`]("@ + byte_prefix(c.url@, 52) + ") "@ + c.headline@
}

pub open spec fn commit_lines(cs: Seq<Commit>) -> Seq<Seq<char>> {
    cs.map_values(|c: Commit| commit_line(c))
}

pub open spec fn changelog_view(name: Seq<char>, url: Seq<char>, branch: Seq<char>, cs: Seq<Commit>) -> EmbedView {
    EmbedView::blank().set_title("Recent commits to "@ + name + " on `"@ + branch + "`"@).set_url(
        url + "/commits/"@ + branch,
    ).set_description(joined(commit_lines(cs), "\n"@)).set_footer("Powered by the GitHub GraphQL API."@)
}

fn commit_text(c: &Commit) -> (s: String)
    requires
        commit_ok(*c),
    ensures
        s@ == commit_line(*c),
{
    let mut s = owned("[`");
    let sha = prefix_bytes(c.oid.as_str(), 7);
    push_str(&mut s, sha.as_str());
    push_str(&mut s, "`](");
    let url = prefix_bytes(c.url.as_str(), 52);
    push_str(&mut s, url.as_str());
    push_str(&mut s, ") ");
    push_str(&mut s, c.headline.as_str());
    s
}

/// The message listing the latest commits of a branch. The hashes and
/// links are cut to their first 7 and 52 bytes, which every commit must
/// allow.
pub fn changelog_embed(name: &str, url: &str, branch: &str, commits: &Vec<Commit>) -> (e: Embed)
    requires
        forall|i: int| 0 <= i < commits@.len() ==> commit_ok(#[trigger] commits@[i]),
    ensures
        e@ == changelog_view(name@, url@, branch@, commits@),
{
    let mut lines: Vec<String> = Vec::new();
    let mut i: usize = 0;
    while i < commits.len()
        invariant
            i <= commits@.len(),
            forall|k: int| 0 <= k < commits@.len() ==> commit_ok(#[trigger] commits@[k]),
            views(lines@) == commit_lines(commits@.take(i as int)),
        decreases commits@.len() - i,
    {
        let line = commit_text(&commits[i]);
        let ghost before = lines@;
        lines.push(line);
        assert(views(lines@) =~= views(before).push(line@));
        assert(commit_lines(commits@.take(i + 1)) =~= commit_lines(commits@.take(i as int)).push(
            commit_line(commits@[i as int]),
        ));
        i = i + 1;
    }
    assert(commits@.take(commits@.len() as int) =~= commits@);
    let mut title = owned("Recent commits to ");
    push_str(&mut title, name);
    push_str(&mut title, " on `");
    push_str(&mut title, branch);
    push_str(&mut title, "`");
    let mut link = owned(url);
    push_str(&mut link, "/commits/");
    push_str(&mut link, branch);
    Embed::new().title(title).url(link).description(join(&lines, "\n")).footer(
        owned("Powered by the GitHub GraphQL API."),
    )
}

// ---------------------------------------------------------------------------
// User tags
// ---------------------------------------------------------------------------

/// A user's tag as Discord shows it: the name, then `#` and the
/// discriminator in four digits where the user still has one.
pub open spec fn tag_text(name: Seq<char>, discriminator: Option<u16>) -> Seq<char> {
    match discriminator {
        Some(d) => name + "#"@ + crate::user_info::zero_padded(decimal(d as nat), 4),
        None => name,
    }
}

pub fn user_tag(name: &str, discriminator: Option<u16>) -> (s: String)
    ensures
        s@ == tag_text(name@, discriminator),
{
    let mut s = owned(name);
    match discriminator {
        Some(d) => {
            push_str(&mut s, "#");
            let digits = crate::text::decimal_string(d as u64);
            let n = digits.as_str().unicode_len();
            let ghost base = s@;
            let mut k = n;
            while k < 4
                invariant
                    n == decimal(d as nat).len(),
                    n <= k <= 4 || (n > 4 && k == n),
                    s@ == base + Seq::new((k - n) as nat, |i: int| '0'),
                decreases 4 - k,
            {
                crate::text::push_char(&mut s, '0');
                assert(s@ =~= base + Seq::new((k + 1 - n) as nat, |i: int| '0'));
                k = k + 1;
            }
            push_str(&mut s, digits.as_str());
            assert(s@ =~= tag_text(name@, discriminator));
        },
        None => {},
    }
    s
}


/// The answer when the channel a command names cannot be found.
pub fn no_such_channel() -> (r: Reply)
    ensures
        r@ == ReplyView::Say("This channel does not exist."@),
{
    say(owned("This channel does not exist."))
}

} // verus!
