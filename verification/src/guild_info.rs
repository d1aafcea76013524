//! The guild-information command: counts, levels, roles and the summary.
use vstd::prelude::*;
use crate::embed::{AuthorView, Embed, EmbedAuthor, EmbedView};
use crate::formats::{utc_in_range, utc_string, utc_text};
use crate::order::{stable_order, stable_sorted};
use crate::text::{decimal, join, joined, owned, push_decimal, push_str, views};

verus! {

pub enum ChannelKind {
    Text,
    Voice,
    Other,
}

pub struct GuildRole {
    pub id: u64,
    pub name: String,
    pub position: i64,
    pub color: u32,
}

pub enum VerificationLevel {
    Unrestricted,
    Low,
    Medium,
    High,
    Higher,
    Unknown,
}

pub enum MfaLevel {
    NotRequired,
    Elevated,
    Unknown,
}

pub enum ContentFilter {
    Disabled,
    WithoutRole,
    All,
    Unknown,
}

pub enum PremiumTier {
    Tier0,
    Tier1,
    Tier2,
    Tier3,
    Unknown,
}

/// What the command shows of a guild.
pub struct GuildInfo {
    pub id: u64,
    pub name: String,
    pub icon: String,
    pub owner_tag: String,
    pub system_channel: u64,
    /// Creation time, in seconds after the Unix epoch.
    pub created: i64,
    pub members: u64,
    pub online: u64,
    pub channels: Vec<ChannelKind>,
    /// For each custom emoji, whether it is animated.
    pub emojis: Vec<bool>,
    pub features: Vec<String>,
    pub verification: VerificationLevel,
    pub mfa: MfaLevel,
    pub content_filter: ContentFilter,
    pub boosts: u64,
    pub tier: PremiumTier,
    /// The guild's roles, `@everyone` (whose id is the guild's) among them.
    pub roles: Vec<GuildRole>,
}

pub open spec fn verification_text(v: VerificationLevel) -> Seq<char> {
    match v {
        VerificationLevel::Unrestricted => "None - Unrestricted."@,
        VerificationLevel::Low => "Low - Must have a verified email."@,
        VerificationLevel::Medium => "Medium - Registered on Discord for 5+ minutes."@,
        VerificationLevel::High => "(\u{256f}\u{b0}\u{25a1}\u{b0}\u{ff09}\u{256f}\u{fe35} \u{253b}\u{2501}\u{253b} - In the server for 10+ minutes."@,
        VerificationLevel::Higher => "\u{253b}\u{2501}\u{253b} \u{ff90}\u{30fd}(\u{ca0}\u{76ca}\u{ca0})\u{ff89}\u{5f61}\u{253b}\u{2501}\u{253b}) - Must have a verified phone number."@,
        VerificationLevel::Unknown => "Unrecognized verification level."@,
    }
}

pub open spec fn mfa_text(m: MfaLevel) -> Seq<char> {
    match m {
        MfaLevel::NotRequired => "Multi-factor authentication not required."@,
        MfaLevel::Elevated => "Multi-factor authentication required."@,
        MfaLevel::Unknown => "Unrecognized multi-factor authentication level."@,
    }
}

pub open spec fn filter_text(f: ContentFilter) -> Seq<char> {
    match f {
        ContentFilter::Disabled => "Disabled"@,
        ContentFilter::WithoutRole => "Media scanned from members w/o a role."@,
        ContentFilter::All => "Everyone"@,
        ContentFilter::Unknown => "Unrecognized filter setting."@,
    }
}

pub open spec fn tier_text(t: PremiumTier) -> Seq<char> {
    match t {
        PremiumTier::Tier0 => "No current tier (not boosted)"@,
        PremiumTier::Tier1 => "Level 1 (2+ boosts)"@,
        PremiumTier::Tier2 => "Level 2 (15+ boosts)"@,
        PremiumTier::Tier3 => "Level 3 (30+ boosts)"@,
        PremiumTier::Unknown => "Unrecognized boost tier."@,
    }
}

/// How many channels are of a kind.
pub open spec fn count_kind(cs: Seq<ChannelKind>, text: bool) -> nat
    decreases cs.len(),
{
    if cs.len() == 0 {
        0
    } else {
        count_kind(cs.drop_last(), text) + (if (text && cs.last() is Text) || (!text && cs.last() is Voice) {
            1nat
        } else {
            0nat
        })
    }
}

/// How many emojis are (or are not) animated.
pub open spec fn count_animated(es: Seq<bool>, animated: bool) -> nat
    decreases es.len(),
{
    if es.len() == 0 {
        0
    } else {
        count_animated(es.drop_last(), animated) + (if es.last() == animated { 1nat } else { 0nat })
    }
}

/// Role `k` is the highest: no role has a higher position, and among roles
/// of the same position none has a smaller id.
pub open spec fn is_highest(roles: Seq<GuildRole>, k: int) -> bool {
    &&& 0 <= k < roles.len()
    &&& forall|j: int|
        0 <= j < roles.len() ==> (#[trigger] roles[j]).position < roles[k].position || (roles[j].position
            == roles[k].position && roles[j].id >= roles[k].id)
}

/// The roles from the highest position down: the stable ascending order by
/// position, reversed.
pub open spec fn position_keys(roles: Seq<GuildRole>) -> Seq<i64> {
    roles.map_values(|r: GuildRole| r.position)
}

pub open spec fn roles_descending(roles: Seq<GuildRole>) -> Seq<GuildRole> {
    stable_sorted(position_keys(roles)).reverse().map_values(|i: usize| roles[i as int])
}

/// The names of the roles other than `@everyone`, from the top down.
pub open spec fn role_names(roles: Seq<GuildRole>, guild: u64) -> Seq<Seq<char>> {
    roles_descending(roles).filter(|r: GuildRole| r.id != guild).map_values(|r: GuildRole| r.name@)
}

pub open spec fn role_count(roles: Seq<GuildRole>, guild: u64) -> nat {
    roles.filter(|r: GuildRole| r.id != guild).len()
}

pub open spec fn features_text(fs: Seq<String>) -> Seq<char> {
    let j = joined(views(fs), ", "@);
    if j.len() > 0 { j } else { "None"@ }
}

/// The summary lines of the guild message.
/// The lines of the guild message before the MFA level.
pub open spec fn summary_head(g: GuildInfo) -> Seq<char> {
    "**Owner**: "@ + g.owner_tag@ + "\n**System Channel**: <#"@ + decimal(g.system_channel as nat)
        + ">\n**Creation Date**: "@ + utc_text(g.created as int, "%B %e, %Y @ %l:%M %P"@) + "\n**Online Members**: "@
        + decimal(g.online as nat) + "\n**Total Members**: "@ + decimal(g.members as nat) + "\n**Channels**: "@
        + decimal(g.channels@.len()) + " ("@ + decimal(count_kind(g.channels@, true)) + " text, "@ + decimal(
        count_kind(g.channels@, false),
    ) + " voice)\n**Emojis**: "@ + decimal(g.emojis@.len()) + " ("@ + decimal(count_animated(g.emojis@, false))
        + " static, "@ + decimal(count_animated(g.emojis@, true)) + " animated)\n**Features**: "@ + features_text(
        g.features@,
    )
}

/// The lines of the guild message after the MFA level, from the
/// verification level on.
pub open spec fn summary_tail(g: GuildInfo, highest: int) -> Seq<char> {
    verification_text(g.verification) + "\n**Explicit Content Filter**: "@ + filter_text(g.content_filter)
        + "\n**Nitro Boosts**: "@ + decimal(g.boosts as nat) + "\n**Nitro Boost Level**: "@ + tier_text(g.tier)
        + "\n**Highest Role**: "@ + g.roles@[highest].name@ + "\n**Roles ("@ + decimal(role_count(g.roles@, g.id))
        + ")**: "@ + joined(role_names(g.roles@, g.id), " / "@) + "\n"@
}

pub open spec fn guild_summary(g: GuildInfo, highest: int) -> Seq<char> {
    summary_head(g) + "\n**MFA Level**: "@ + mfa_text(g.mfa) + "\n**Verification Level**: "@ + summary_tail(g, highest)
}

/// The guild message, given the highest role.
pub open spec fn guild_view(g: GuildInfo, highest: int) -> EmbedView {
    EmbedView::blank().set_author(AuthorView { name: g.name@, url: None, icon_url: Some(g.icon@) }).set_color(
        g.roles@[highest].color,
    ).set_description(guild_summary(g, highest)).set_footer(g.name@ + " server ID: "@ + decimal(g.id as nat))
}

pub open spec fn guild_ok(g: GuildInfo) -> bool {
    &&& g.roles@.len() > 0
    &&& utc_in_range(g.created as int)
}

/// The index of the highest role.
pub fn highest_role(roles: &Vec<GuildRole>) -> (k: usize)
    requires
        roles@.len() > 0,
    ensures
        is_highest(roles@, k as int),
{
    let mut k: usize = 0;
    let mut i: usize = 1;
    while i < roles.len()
        invariant
            roles@.len() > 0,
            1 <= i <= roles@.len(),
            k < i,
            forall|j: int|
                0 <= j < i ==> (#[trigger] roles@[j]).position < roles@[k as int].position || (roles@[j].position
                    == roles@[k as int].position && roles@[j].id >= roles@[k as int].id),
        decreases roles@.len() - i,
    {
        let r = &roles[i];
        let h = &roles[k];
        if !(r.position < h.position || (r.position == h.position && r.id > h.id)) {
            k = i;
        }
        i = i + 1;
    }
    k
}

/// The highest role is the same role whichever order the roles come in:
/// where role ids are distinct, only one role is highest.
pub proof fn highest_role_is_unique(roles: Seq<GuildRole>, a: int, b: int)
    requires
        forall|i: int, j: int| 0 <= i < roles.len() && 0 <= j < roles.len() && i != j ==> roles[i].id != roles[j].id,
        is_highest(roles, a),
        is_highest(roles, b),
    ensures
        a == b,
{
    assert(roles[a].position < roles[b].position || (roles[a].position == roles[b].position && roles[a].id
        >= roles[b].id));
    assert(roles[b].position < roles[a].position || (roles[b].position == roles[a].position && roles[b].id
        >= roles[a].id));
}

fn count_channels(cs: &Vec<ChannelKind>, text: bool) -> (n: u64)
    ensures
        n == count_kind(cs@, text),
{
    let mut n: u64 = 0;
    let mut i: usize = 0;
    while i < cs.len()
        invariant
            i <= cs@.len(),
            n == count_kind(cs@.take(i as int), text),
            n <= i,
        decreases cs@.len() - i,
    {
        assert(cs@.take(i + 1).drop_last() =~= cs@.take(i as int));
        let hit = match cs[i] {
            ChannelKind::Text => text,
            ChannelKind::Voice => !text,
            ChannelKind::Other => false,
        };
        if hit {
            n = n + 1;
        }
        i = i + 1;
    }
    assert(cs@.take(cs@.len() as int) =~= cs@);
    n
}

fn count_emojis(es: &Vec<bool>, animated: bool) -> (n: u64)
    ensures
        n == count_animated(es@, animated),
{
    let mut n: u64 = 0;
    let mut i: usize = 0;
    while i < es.len()
        invariant
            i <= es@.len(),
            n == count_animated(es@.take(i as int), animated),
            n <= i,
        decreases es@.len() - i,
    {
        assert(es@.take(i + 1).drop_last() =~= es@.take(i as int));
        if es[i] == animated {
            n = n + 1;
        }
        i = i + 1;
    }
    assert(es@.take(es@.len() as int) =~= es@);
    n
}

/// The role names below the top, joined, and how many roles there are
/// besides `@everyone`.
fn role_list(roles: &Vec<GuildRole>, guild: u64) -> (r: (String, u64))
    ensures
        r.0@ == joined(role_names(roles@, guild), " / "@),
        r.1 == role_count(roles@, guild),
{
    let mut keys: Vec<i64> = Vec::new();
    let mut i: usize = 0;
    while i < roles.len()
        invariant
            i <= roles@.len(),
            keys@ == position_keys(roles@).take(i as int),
        decreases roles@.len() - i,
    {
        keys.push(roles[i].position);
        assert(keys@ =~= position_keys(roles@).take(i + 1));
        i = i + 1;
    }
    assert(keys@ =~= position_keys(roles@));
    let order = stable_order(&keys);
    let ghost desc = roles_descending(roles@);
    let ghost rev = order@.reverse();
    let mut names: Vec<String> = Vec::new();
    let mut k: usize = order.len();
    assert(desc.take(0) =~= Seq::<GuildRole>::empty());
    assert(desc.take(0).filter(|r: GuildRole| r.id != guild) =~= Seq::<GuildRole>::empty()) by {
        reveal(Seq::filter);
    }
    while k > 0
        invariant
            k <= order@.len(),
            order@.len() == roles@.len(),
            crate::order::is_stable_order(keys@, order@),
            keys@ == position_keys(roles@),
            rev == order@.reverse(),
            desc == rev.map_values(|i: usize| roles@[i as int]),
            views(names@) == desc.take(order@.len() - k).filter(|r: GuildRole| r.id != guild).map_values(
                |r: GuildRole| r.name@,
            ),
        decreases k,
    {
        let idx = order[k - 1];
        let ghost t: int = order@.len() - k;
        assert(rev[t] == order@[k - 1]);
        assert(desc[t] == roles@[idx as int]);
        let ghost pre = desc.take(t);
        let ghost next = desc.take(t + 1);
        assert(next.drop_last() =~= pre);
        proof {
            reveal(Seq::filter);
        }
        if roles[idx].id != guild {
            let ghost before = names@;
            names.push(roles[idx].name.clone());
            assert(views(names@) =~= views(before).push(roles@[idx as int].name@));
            assert(next.filter(|r: GuildRole| r.id != guild) =~= pre.filter(|r: GuildRole| r.id != guild).push(desc[t]));
        } else {
            assert(next.filter(|r: GuildRole| r.id != guild) =~= pre.filter(|r: GuildRole| r.id != guild));
        }
        k = k - 1;
    }
    assert(desc.take(order@.len() as int) =~= desc);
    let mut count: u64 = 0;
    let mut j: usize = 0;
    while j < roles.len()
        invariant
            j <= roles@.len(),
            count == roles@.take(j as int).filter(|r: GuildRole| r.id != guild).len(),
            count <= j,
        decreases roles@.len() - j,
    {
        proof {
            reveal(Seq::filter);
            assert(roles@.take(j + 1).drop_last() =~= roles@.take(j as int));
        }
        if roles[j].id != guild {
            count = count + 1;
        }
        j = j + 1;
    }
    assert(roles@.take(roles@.len() as int) =~= roles@);
    (join(&names, " / "), count)
}

/// The guild-information message, and the index of the highest role, whose
/// name and colour it shows.
pub fn guild_embed(g: &GuildInfo) -> (r: (Embed, usize))
    requires
        guild_ok(*g),
    ensures
        is_highest(g.roles@, r.1 as int),
        r.0@ == guild_view(*g, r.1 as int),
{
    let top = highest_role(&g.roles);
    let created = utc_string(g.created, "%B %e, %Y @ %l:%M %P");
    let features = join(&g.features, ", ");
    let features = if features.as_str().is_empty() { owned("None") } else { features };
    let (names, count) = role_list(&g.roles, g.id);
    let mut s = owned("**Owner**: ");
    push_str(&mut s, g.owner_tag.as_str());
    push_str(&mut s, "\n**System Channel**: <#");
    push_decimal(&mut s, g.system_channel);
    push_str(&mut s, ">\n**Creation Date**: ");
    push_str(&mut s, created.as_str());
    push_str(&mut s, "\n**Online Members**: ");
    push_decimal(&mut s, g.online);
    push_str(&mut s, "\n**Total Members**: ");
    push_decimal(&mut s, g.members);
    push_str(&mut s, "\n**Channels**: ");
    push_decimal(&mut s, g.channels.len() as u64);
    push_str(&mut s, " (");
    push_decimal(&mut s, count_channels(&g.channels, true));
    push_str(&mut s, " text, ");
    push_decimal(&mut s, count_channels(&g.channels, false));
    push_str(&mut s, " voice)\n**Emojis**: ");
    push_decimal(&mut s, g.emojis.len() as u64);
    push_str(&mut s, " (");
    push_decimal(&mut s, count_emojis(&g.emojis, false));
    push_str(&mut s, " static, ");
    push_decimal(&mut s, count_emojis(&g.emojis, true));
    push_str(&mut s, " animated)\n**Features**: ");
    push_str(&mut s, features.as_str());
    assert(s@ =~= summary_head(*g));
    push_str(&mut s, "\n**MFA Level**: ");
    push_str(&mut s, match g.mfa {
        MfaLevel::NotRequired => "Multi-factor authentication not required.",
        MfaLevel::Elevated => "Multi-factor authentication required.",
        MfaLevel::Unknown => "Unrecognized multi-factor authentication level.",
    });
    push_str(&mut s, "\n**Verification Level**: ");
    let mut t = String::new();
    push_str(&mut t, match g.verification {
        VerificationLevel::Unrestricted => "None - Unrestricted.",
        VerificationLevel::Low => "Low - Must have a verified email.",
        VerificationLevel::Medium => "Medium - Registered on Discord for 5+ minutes.",
        VerificationLevel::High => "(\u{256f}\u{b0}\u{25a1}\u{b0}\u{ff09}\u{256f}\u{fe35} \u{253b}\u{2501}\u{253b} - In the server for 10+ minutes.",
        VerificationLevel::Higher => "\u{253b}\u{2501}\u{253b} \u{ff90}\u{30fd}(\u{ca0}\u{76ca}\u{ca0})\u{ff89}\u{5f61}\u{253b}\u{2501}\u{253b}) - Must have a verified phone number.",
        VerificationLevel::Unknown => "Unrecognized verification level.",
    });
    push_str(&mut t, "\n**Explicit Content Filter**: ");
    push_str(&mut t, match g.content_filter {
        ContentFilter::Disabled => "Disabled",
        ContentFilter::WithoutRole => "Media scanned from members w/o a role.",
        ContentFilter::All => "Everyone",
        ContentFilter::Unknown => "Unrecognized filter setting.",
    });
    push_str(&mut t, "\n**Nitro Boosts**: ");
    push_decimal(&mut t, g.boosts);
    push_str(&mut t, "\n**Nitro Boost Level**: ");
    push_str(&mut t, match g.tier {
        PremiumTier::Tier0 => "No current tier (not boosted)",
        PremiumTier::Tier1 => "Level 1 (2+ boosts)",
        PremiumTier::Tier2 => "Level 2 (15+ boosts)",
        PremiumTier::Tier3 => "Level 3 (30+ boosts)",
        PremiumTier::Unknown => "Unrecognized boost tier.",
    });
    push_str(&mut t, "\n**Highest Role**: ");
    push_str(&mut t, g.roles[top].name.as_str());
    push_str(&mut t, "\n**Roles (");
    push_decimal(&mut t, count);
    push_str(&mut t, ")**: ");
    push_str(&mut t, names.as_str());
    push_str(&mut t, "\n");
    assert(t@ =~= summary_tail(*g, top as int));
    push_str(&mut s, t.as_str());
    assert(s@ =~= guild_summary(*g, top as int));
    let mut footer = g.name.clone();
    push_str(&mut footer, " server ID: ");
    push_decimal(&mut footer, g.id);
    let author = EmbedAuthor::named(g.name.clone()).with_icon(g.icon.clone());
    let e = Embed::new().author(author).color(g.roles[top].color).description(s).footer(footer);
    (e, top)
}


/// The MFA Level line says that multi-factor authentication is required
/// exactly for an elevated level: "required." for Elevated, "not
/// required." where it is not required, and a notice for a level the bot
/// does not know; the line stands between the features and the
/// verification level.
pub proof fn mfa_line_follows_level(g: GuildInfo, highest: int)
    ensures
        g.mfa is Elevated ==> guild_summary(g, highest) == summary_head(g)
            + "\n**MFA Level**: Multi-factor authentication required.\n**Verification Level**: "@ + summary_tail(g, highest),
        g.mfa is NotRequired ==> guild_summary(g, highest) == summary_head(g)
            + "\n**MFA Level**: Multi-factor authentication not required.\n**Verification Level**: "@ + summary_tail(g, highest),
        g.mfa is Unknown ==> guild_summary(g, highest) == summary_head(g)
            + "\n**MFA Level**: Unrecognized multi-factor authentication level.\n**Verification Level**: "@ + summary_tail(g, highest),
{
    reveal_strlit("\n**MFA Level**: ");
    reveal_strlit("\n**Verification Level**: ");
    reveal_strlit("Multi-factor authentication required.");
    reveal_strlit("Multi-factor authentication not required.");
    reveal_strlit("Unrecognized multi-factor authentication level.");
    reveal_strlit("\n**MFA Level**: Multi-factor authentication required.\n**Verification Level**: ");
    reveal_strlit("\n**MFA Level**: Multi-factor authentication not required.\n**Verification Level**: ");
    reveal_strlit("\n**MFA Level**: Unrecognized multi-factor authentication level.\n**Verification Level**: ");
    let line = "\n**MFA Level**: "@ + mfa_text(g.mfa) + "\n**Verification Level**: "@;
    assert(guild_summary(g, highest) =~= summary_head(g) + line + summary_tail(g, highest));
    if g.mfa is Elevated {
        assert(line =~= "\n**MFA Level**: Multi-factor authentication required.\n**Verification Level**: "@);
    } else if g.mfa is NotRequired {
        assert(line =~= "\n**MFA Level**: Multi-factor authentication not required.\n**Verification Level**: "@);
    } else {
        assert(line =~= "\n**MFA Level**: Unrecognized multi-factor authentication level.\n**Verification Level**: "@);
    }
}

} // verus!
