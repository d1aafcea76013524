//! The user-information command: presence, activities and the member's
//! standing in the guild.
use vstd::prelude::*;
use crate::embed::{AuthorView, Embed, EmbedAuthor, EmbedView};
use crate::formats::{utc_in_range, utc_string, utc_text};
use crate::spotify::{artists_text, spotify_artists};
use crate::text::{decimal, decimal_string, digit_char, join, joined, owned, push_char, push_decimal, push_str, replace, replaced, views};

verus! {

/// The kinds of activity Discord reports.
pub enum ActivityKind {
    Playing,
    Streaming,
    Listening,
    Watching,
    Custom,
    Competing,
}

/// One activity of a member's presence.
pub struct Activity {
    pub kind: ActivityKind,
    pub name: String,
    pub details: Option<String>,
    pub state: Option<String>,
    pub sync_id: Option<String>,
    pub large_text: Option<String>,
    pub large_image: Option<String>,
    pub small_text: Option<String>,
    /// When the activity started and ends, in milliseconds after the Unix
    /// epoch, where Discord says.
    pub start_ms: Option<u64>,
    pub end_ms: Option<u64>,
}

pub enum OnlineStatus {
    Online,
    Idle,
    DoNotDisturb,
    Invisible,
    Offline,
}

/// On which clients the member is connected.
pub struct ClientStatus {
    pub desktop: bool,
    pub mobile: bool,
    pub web: bool,
}

pub struct Presence {
    pub status: OnlineStatus,
    pub client_status: Option<ClientStatus>,
    pub activities: Vec<Activity>,
}

/// What the command shows of a member.
pub struct MemberInfo {
    pub name: String,
    pub tag: String,
    pub id: u64,
    pub bot: bool,
    pub avatar: String,
    /// Account creation, in seconds after the Unix epoch.
    pub created: i64,
    /// Guild join time, in seconds after the Unix epoch.
    pub joined: Option<i64>,
    pub nick: Option<String>,
    pub color: Option<u32>,
    /// The member's role ids, when the guild's roles are known.
    pub roles: Option<Vec<u64>>,
    /// The member's highest role, when known.
    pub highest_role: Option<u64>,
}

pub open spec fn is_spotify(a: Activity) -> bool {
    a.name@ == "Spotify"@
}

pub open spec fn is_vscode(a: Activity) -> bool {
    a.name@ == "Visual Studio Code"@
}

/// The fields an activity must carry for the command to describe it.
pub open spec fn activity_ok(a: Activity) -> bool {
    &&& (a.kind is Listening && is_spotify(a)) ==> {
        &&& a.details is Some
        &&& a.state is Some
        &&& a.large_text is Some
        &&& a.sync_id is Some
        &&& a.large_image is Some
    }
    &&& (a.kind is Playing && is_vscode(a)) ==> {
        &&& a.details is Some
        &&& a.state is Some
        &&& a.small_text is Some
    }
}

/// The album art of a Spotify activity.
pub open spec fn artwork_url(a: Activity) -> Seq<char> {
    "https://i.scdn.co/image/"@ + replaced(a.large_image.unwrap()@, "spotify:"@, Seq::empty())
}

/// How an activity is described, before its name in bold.
pub open spec fn activity_phrase(a: Activity) -> Seq<char> {
    match a.kind {
        ActivityKind::Listening => if is_spotify(a) {
            "listening to **["@ + a.details.unwrap()@ + "](https://open.spotify.com/track/"@ + a.sync_id.unwrap()@
                + ")** on **"@ + a.large_text.unwrap()@ + "** by **"@ + artists_text(a.state.unwrap()@) + "** on"@
        } else {
            "listening to"@
        },
        ActivityKind::Playing => if is_vscode(a) {
            "working on the file **"@ + replaced(a.details.unwrap()@, "Editing "@, Seq::empty())
                + "** in the project **"@ + replaced(a.state.unwrap()@, "Workspace: "@, Seq::empty()) + "** with"@
        } else {
            "playing"@
        },
        ActivityKind::Watching => "watching"@,
        ActivityKind::Streaming => "streaming on"@,
        _ => Seq::empty(),
    }
}

/// The name shown for an activity: the editor's name for Visual Studio Code.
pub open spec fn activity_name(a: Activity) -> Seq<char> {
    if a.kind is Playing && is_vscode(a) { a.small_text.unwrap()@ } else { a.name@ }
}

pub open spec fn activity_text(a: Activity) -> Seq<char> {
    activity_phrase(a) + " **"@ + activity_name(a) + "**"@
}

/// The activities that are described: all but custom statuses.
pub open spec fn described(acts: Seq<Activity>) -> Seq<Activity> {
    acts.filter(|a: Activity| !(a.kind is Custom))
}

pub open spec fn activities_text(acts: Seq<Activity>) -> Seq<char> {
    joined(described(acts).map_values(|a: Activity| activity_text(a)), " and "@)
}

/// The thumbnail: the album art of the last Spotify track among the
/// described activities, or nothing.
pub open spec fn track_art(acts: Seq<Activity>) -> Seq<char>
    decreases acts.len(),
{
    if acts.len() == 0 {
        Seq::empty()
    } else if !(acts.last().kind is Custom) && acts.last().kind is Listening && is_spotify(acts.last()) {
        artwork_url(acts.last())
    } else {
        track_art(acts.drop_last())
    }
}

pub open spec fn status_text(s: OnlineStatus) -> Seq<char> {
    match s {
        OnlineStatus::Online => "Online"@,
        OnlineStatus::Idle => "Idle"@,
        OnlineStatus::DoNotDisturb => "Do Not Disturb"@,
        OnlineStatus::Invisible => "Invisible"@,
        OnlineStatus::Offline => "Offline"@,
    }
}

/// The clients a member uses, in words.
pub open spec fn clients_text(c: Option<ClientStatus>) -> Seq<char> {
    match c {
        None => Seq::empty(),
        Some(s) => {
            if s.desktop && !s.mobile && !s.web {
                "Desktop"@
            } else if s.mobile && !s.desktop && !s.web {
                "Mobile"@
            } else if s.web && !s.desktop && !s.mobile {
                "Web"@
            } else if s.desktop && s.mobile && !s.web {
                "Desktop and Mobile"@
            } else if s.desktop && s.mobile && s.web {
                "Desktop, Mobile, and Web"@
            } else if s.mobile && s.web && !s.desktop {
                "Mobile and Web"@
            } else {
                "Desktop and Web"@
            }
        },
    }
}

/// The opening sentence about the presence, followed by the activities.
pub open spec fn presence_text(user_name: Seq<char>, p: Presence) -> Seq<char> {
    let acts = activities_text(p.activities@);
    let status = status_text(p.status);
    let clients = clients_text(p.client_status);
    user_name + " is currently "@ + (if p.status is DoNotDisturb {
        "in **Do Not Disturb** mode"@
    } else {
        "**"@ + status + "**"@
    }) + (if clients.len() > 0 { " on **"@ + clients + "**"@ } else { Seq::empty() }) + (if acts.len() == 0 {
        ".\n\n"@
    } else {
        ", "@ + acts + ".\n\n"@
    })
}

/// Lower-case hexadecimal digits of `n`.
pub open spec fn hex_lower(n: nat) -> Seq<char>
    decreases n,
{
    if n < 16 {
        seq![hex_digit(n as int)]
    } else {
        hex_lower(n / 16).push(hex_digit((n % 16) as int))
    }
}

pub open spec fn hex_digit(d: int) -> char {
    if d < 10 { digit_char(d) }
    else if d == 10 { 'a' }
    else if d == 11 { 'b' }
    else if d == 12 { 'c' }
    else if d == 13 { 'd' }
    else if d == 14 { 'e' }
    else { 'f' }
}

/// Zeros before `s` up to `width` characters.
pub open spec fn zero_padded(s: Seq<char>, width: nat) -> Seq<char> {
    if s.len() >= width { s } else { Seq::new((width - s.len()) as nat, |i: int| '0') + s }
}

/// A display colour as `#` and six (or more) lower-case hex digits.
pub open spec fn color_hex(c: u32) -> Seq<char> {
    seq!['#'] + zero_padded(hex_lower(c as nat), 6)
}

pub open spec fn role_mention(id: u64) -> Seq<char> {
    "<@&"@ + decimal(id as nat) + ">"@
}

pub open spec fn roles_text(roles: Option<Vec<u64>>) -> Seq<char> {
    match roles {
        None => Seq::empty(),
        Some(r) => if r@.len() == 0 {
            "No roles available."@
        } else {
            joined(r@.map_values(|id: u64| role_mention(id)), " / "@)
        },
    }
}

pub open spec fn role_count(roles: Option<Vec<u64>>) -> nat {
    match roles {
        None => 0,
        Some(r) => r@.len(),
    }
}

pub open spec fn long_time() -> Seq<char> {
    "%A, %B %e, %Y @ %l:%M %P"@
}

/// The member facts of the user-information embed.
pub open spec fn member_details(m: MemberInfo) -> Seq<char> {
    "**__User Information__**:\n**Type**: "@ + (if m.bot { "Bot"@ } else { "User"@ }) + "\n**Profile**: <@"@
        + decimal(m.id as nat) + ">\n**Tag**: "@ + m.tag@ + "\n**ID**: "@ + decimal(m.id as nat)
        + "\n**Creation Date**: "@ + utc_text(m.created as int, long_time())
        + "\n\n**__Guild-related Information__**:\n**Join Date**: "@ + (match m.joined {
        Some(j) => utc_text(j as int, long_time()),
        None => "Unavailable"@,
    }) + "\n**Nickname**: "@ + (match m.nick {
        Some(n) => n@,
        None => "No nickname has been set."@,
    }) + "\n**Display Color**: "@ + (match m.color {
        Some(c) => color_hex(c),
        None => "No display color available."@,
    }) + "\n**Main Role**: "@ + (match m.highest_role {
        Some(r) => role_mention(r),
        None => "No main role available."@,
    }) + "\n**Roles ("@ + decimal(role_count(m.roles)) + ")**: "@ + roles_text(m.roles)
}

/// The body of the user-information embed: the presence, then the member.
pub open spec fn member_description(m: MemberInfo, presence: Option<Presence>) -> Seq<char> {
    (match presence {
        Some(p) => presence_text(m.name@, p),
        None => Seq::empty(),
    }) + member_details(m)
}

/// The input the command can describe.
pub open spec fn member_ok(m: MemberInfo, presence: Option<Presence>) -> bool {
    &&& utc_in_range(m.created as int)
    &&& m.joined matches Some(j) ==> utc_in_range(j as int)
    &&& presence matches Some(p) ==> forall|i: int| 0 <= i < p.activities@.len() ==> activity_ok(#[trigger] p.activities@[i])
}

/// The user-information embed.
pub open spec fn member_view(m: MemberInfo, presence: Option<Presence>) -> EmbedView {
    let art = match presence {
        Some(p) => track_art(p.activities@),
        None => Seq::empty(),
    };
    EmbedView::blank().set_author(AuthorView { name: m.name@, url: None, icon_url: Some(m.avatar@) }).set_thumbnail(
        art,
    ).set_color(
        match m.color {
            Some(c) => c,
            None => 0x00FF_FFFF,
        },
    ).set_description(member_description(m, presence))
}

fn activity_string(a: &Activity) -> (s: String)
    requires
        activity_ok(*a),
    ensures
        s@ == activity_text(*a),
{
    proof {
        reveal_strlit("Editing ");
        reveal_strlit("Workspace: ");
        reveal_strlit("spotify:");
        reveal_strlit("");
        assert(""@ =~= Seq::<char>::empty());
    }
    let mut s = String::new();
    let mut shown = a.name.clone();
    match a.kind {
        ActivityKind::Listening => {
            if crate::text::same_text(a.name.as_str(), "Spotify") {
                let song = a.details.as_ref().unwrap();
                let track = a.sync_id.as_ref().unwrap();
                let album = a.large_text.as_ref().unwrap();
                let artists = spotify_artists(a.state.as_ref().unwrap().as_str());
                push_str(&mut s, "listening to **[");
                push_str(&mut s, song.as_str());
                push_str(&mut s, "](https://open.spotify.com/track/");
                push_str(&mut s, track.as_str());
                push_str(&mut s, ")** on **");
                push_str(&mut s, album.as_str());
                push_str(&mut s, "** by **");
                push_str(&mut s, artists.as_str());
                push_str(&mut s, "** on");
            } else {
                push_str(&mut s, "listening to");
            }
        },
        ActivityKind::Playing => {
            if crate::text::same_text(a.name.as_str(), "Visual Studio Code") {
                let file = replace(a.details.as_ref().unwrap().as_str(), "Editing ", "");
                let project = replace(a.state.as_ref().unwrap().as_str(), "Workspace: ", "");
                shown = a.small_text.as_ref().unwrap().clone();
                push_str(&mut s, "working on the file **");
                push_str(&mut s, file.as_str());
                push_str(&mut s, "** in the project **");
                push_str(&mut s, project.as_str());
                push_str(&mut s, "** with");
            } else {
                push_str(&mut s, "playing");
            }
        },
        ActivityKind::Watching => push_str(&mut s, "watching"),
        ActivityKind::Streaming => push_str(&mut s, "streaming on"),
        _ => {},
    }
    push_str(&mut s, " **");
    push_str(&mut s, shown.as_str());
    push_str(&mut s, "**");
    assert(s@ =~= activity_text(*a));
    s
}

fn artwork_string(a: &Activity) -> (s: String)
    requires
        activity_ok(*a),
        a.kind is Listening,
        is_spotify(*a),
    ensures
        s@ == artwork_url(*a),
{
    proof {
        reveal_strlit("spotify:");
        reveal_strlit("");
        assert(""@ =~= Seq::<char>::empty());
    }
    let mut s = owned("https://i.scdn.co/image/");
    let img = replace(a.large_image.as_ref().unwrap().as_str(), "spotify:", "");
    push_str(&mut s, img.as_str());
    s
}

/// The described activities joined, and the album art of the last Spotify one.
fn activities_and_art(acts: &Vec<Activity>) -> (r: (String, String))
    requires
        forall|i: int| 0 <= i < acts@.len() ==> activity_ok(#[trigger] acts@[i]),
    ensures
        r.0@ == activities_text(acts@),
        r.1@ == track_art(acts@),
{
    let mut parts: Vec<String> = Vec::new();
    let mut art = String::new();
    let mut i: usize = 0;
    while i < acts.len()
        invariant
            i <= acts@.len(),
            forall|j: int| 0 <= j < acts@.len() ==> activity_ok(#[trigger] acts@[j]),
            views(parts@) == described(acts@.take(i as int)).map_values(|a: Activity| activity_text(a)),
            art@ == track_art(acts@.take(i as int)),
        decreases acts@.len() - i,
    {
        let a = &acts[i];
        let ghost pre = acts@.take(i as int);
        let ghost next = acts@.take(i + 1);
        assert(next.drop_last() =~= pre);
        assert(next.last() == acts@[i as int]);
        assert(activity_ok(acts@[i as int]));
        let custom = match a.kind {
            ActivityKind::Custom => true,
            _ => false,
        };
        proof {
            reveal(Seq::filter);
            assert(described(next) == if custom { described(pre) } else { described(pre).push(acts@[i as int]) });
        }
        if !custom {
            let t = activity_string(a);
            let ghost before = parts@;
            parts.push(t);
            assert(views(parts@) =~= views(before).push(t@));
            assert(described(next).map_values(|a: Activity| activity_text(a)) =~= described(pre).map_values(
                |a: Activity| activity_text(a),
            ).push(activity_text(acts@[i as int])));
            let listening = match a.kind {
                ActivityKind::Listening => true,
                _ => false,
            };
            if listening && crate::text::same_text(a.name.as_str(), "Spotify") {
                art = artwork_string(a);
            }
        }
        i = i + 1;
    }
    assert(acts@.take(acts@.len() as int) =~= acts@);
    (join(&parts, " and "), art)
}

fn status_string(s: &OnlineStatus) -> (r: &'static str)
    ensures
        r@ == status_text(*s),
{
    match s {
        OnlineStatus::Online => "Online",
        OnlineStatus::Idle => "Idle",
        OnlineStatus::DoNotDisturb => "Do Not Disturb",
        OnlineStatus::Invisible => "Invisible",
        OnlineStatus::Offline => "Offline",
    }
}

fn clients_string(c: &Option<ClientStatus>) -> (r: &'static str)
    ensures
        r@ == clients_text(*c),
{
    proof {
        reveal_strlit("");
    }
    match c {
        None => "",
        Some(s) => {
            if s.desktop && !s.mobile && !s.web {
                "Desktop"
            } else if s.mobile && !s.desktop && !s.web {
                "Mobile"
            } else if s.web && !s.desktop && !s.mobile {
                "Web"
            } else if s.desktop && s.mobile && !s.web {
                "Desktop and Mobile"
            } else if s.desktop && s.mobile && s.web {
                "Desktop, Mobile, and Web"
            } else if s.mobile && s.web && !s.desktop {
                "Mobile and Web"
            } else {
                "Desktop and Web"
            }
        },
    }
}

/// The presence sentence and the album art of the last Spotify track.
pub fn presence_summary(user_name: &str, p: &Presence) -> (r: (String, String))
    requires
        forall|i: int| 0 <= i < p.activities@.len() ==> activity_ok(#[trigger] p.activities@[i]),
    ensures
        r.0@ == presence_text(user_name@, *p),
        r.1@ == track_art(p.activities@),
{
    proof {
        reveal_strlit("");
    }
    let (acts, art) = activities_and_art(&p.activities);
    let clients = clients_string(&p.client_status);
    let mut s = owned(user_name);
    push_str(&mut s, " is currently ");
    match p.status {
        OnlineStatus::DoNotDisturb => push_str(&mut s, "in **Do Not Disturb** mode"),
        _ => {
            push_str(&mut s, "**");
            push_str(&mut s, status_string(&p.status));
            push_str(&mut s, "**");
        },
    }
    if !clients.is_empty() {
        push_str(&mut s, " on **");
        push_str(&mut s, clients);
        push_str(&mut s, "**");
    }
    if acts.as_str().is_empty() {
        push_str(&mut s, ".\n\n");
    } else {
        push_str(&mut s, ", ");
        push_str(&mut s, acts.as_str());
        push_str(&mut s, ".\n\n");
    }
    proof {
        let dnd = p.status is DoNotDisturb;
        assert(s@ =~= presence_text(user_name@, *p));
    }
    (s, art)
}

fn hex_char(d: u32) -> (c: char)
    requires
        d < 16,
    ensures
        c == hex_digit(d as int),
{
    if d < 10 {
        match d {
            0 => '0',
            1 => '1',
            2 => '2',
            3 => '3',
            4 => '4',
            5 => '5',
            6 => '6',
            7 => '7',
            8 => '8',
            _ => '9',
        }
    } else if d == 10 { 'a' }
    else if d == 11 { 'b' }
    else if d == 12 { 'c' }
    else if d == 13 { 'd' }
    else if d == 14 { 'e' }
    else { 'f' }
}

fn push_hex(out: &mut String, n: u32)
    ensures
        final(out)@ == old(out)@ + hex_lower(n as nat),
    decreases n,
{
    if n >= 16 {
        push_hex(out, n / 16);
    }
    push_char(out, hex_char(n % 16));
    assert(out@ =~= old(out)@ + hex_lower(n as nat));
}

/// `#` and the colour in lower-case hex, at least six digits.
pub fn color_string(c: u32) -> (s: String)
    ensures
        s@ == color_hex(c),
{
    let mut digits = String::new();
    push_hex(&mut digits, c);
    assert(digits@ =~= hex_lower(c as nat));
    let mut s = String::new();
    push_char(&mut s, '#');
    let n = digits.as_str().unicode_len();
    let mut k = n;
    while k < 6
        invariant
            n == hex_lower(c as nat).len(),
            n <= k <= 6 || (n > 6 && k == n),
            s@ == seq!['#'] + Seq::new((k - n) as nat, |i: int| '0'),
        decreases 6 - k,
    {
        push_char(&mut s, '0');
        assert(s@ =~= seq!['#'] + Seq::new((k + 1 - n) as nat, |i: int| '0'));
        k = k + 1;
    }
    push_str(&mut s, digits.as_str());
    if n >= 6 {
        assert(s@ =~= color_hex(c));
    } else {
        assert(s@ =~= color_hex(c));
    }
    s
}

fn roles_string(roles: &Option<Vec<u64>>) -> (s: String)
    ensures
        s@ == roles_text(*roles),
{
    match roles {
        None => String::new(),
        Some(r) => {
            if r.len() == 0 {
                owned("No roles available.")
            } else {
                let mut parts: Vec<String> = Vec::new();
                let mut i: usize = 0;
                while i < r.len()
                    invariant
                        i <= r@.len(),
                        views(parts@) == r@.take(i as int).map_values(|id: u64| role_mention(id)),
                    decreases r@.len() - i,
                {
                    let mut m = owned("<@&");
                    push_decimal(&mut m, r[i]);
                    push_str(&mut m, ">");
                    let ghost before = parts@;
                    parts.push(m);
                    assert(views(parts@) =~= r@.take(i + 1).map_values(|id: u64| role_mention(id))) by {
                        assert(views(parts@) =~= views(before).push(m@));
                    }
                    i = i + 1;
                }
                assert(r@.take(r@.len() as int) =~= r@);
                join(&parts, " / ")
            }
        },
    }
}

fn details_string(m: &MemberInfo) -> (d: String)
    requires
        utc_in_range(m.created as int),
        m.joined matches Some(j) ==> utc_in_range(j as int),
    ensures
        d@ == member_details(*m),
{
    let mut d = owned("**__User Information__**:\n**Type**: ");
    push_str(&mut d, if m.bot { "Bot" } else { "User" });
    push_str(&mut d, "\n**Profile**: <@");
    push_decimal(&mut d, m.id);
    push_str(&mut d, ">\n**Tag**: ");
    push_str(&mut d, m.tag.as_str());
    push_str(&mut d, "\n**ID**: ");
    push_decimal(&mut d, m.id);
    push_str(&mut d, "\n**Creation Date**: ");
    let created = utc_string(m.created, "%A, %B %e, %Y @ %l:%M %P");
    push_str(&mut d, created.as_str());
    push_str(&mut d, "\n\n**__Guild-related Information__**:\n**Join Date**: ");
    match m.joined {
        Some(j) => {
            let joined = utc_string(j, "%A, %B %e, %Y @ %l:%M %P");
            push_str(&mut d, joined.as_str());
        },
        None => push_str(&mut d, "Unavailable"),
    }
    push_str(&mut d, "\n**Nickname**: ");
    match &m.nick {
        Some(n) => push_str(&mut d, n.as_str()),
        None => push_str(&mut d, "No nickname has been set."),
    }
    push_str(&mut d, "\n**Display Color**: ");
    match m.color {
        Some(c) => {
            let h = color_string(c);
            push_str(&mut d, h.as_str());
        },
        None => push_str(&mut d, "No display color available."),
    }
    push_str(&mut d, "\n**Main Role**: ");
    match m.highest_role {
        Some(r) => {
            push_str(&mut d, "<@&");
            push_decimal(&mut d, r);
            push_str(&mut d, ">");
        },
        None => push_str(&mut d, "No main role available."),
    }
    push_str(&mut d, "\n**Roles (");
    let count: u64 = match &m.roles {
        Some(r) => r.len() as u64,
        None => 0,
    };
    push_decimal(&mut d, count);
    push_str(&mut d, ")**: ");
    let roles = roles_string(&m.roles);
    push_str(&mut d, roles.as_str());
    assert(d@ =~= member_details(*m));
    d
}

/// The user-information embed for a member and their presence (if any).
pub fn member_embed(m: &MemberInfo, presence: &Option<Presence>) -> (e: Embed)
    requires
        member_ok(*m, *presence),
    ensures
        e@ == member_view(*m, *presence),
{
    let (lead, art) = match presence {
        Some(p) => presence_summary(m.name.as_str(), p),
        None => (String::new(), String::new()),
    };
    let details = details_string(m);
    let mut d = lead;
    push_str(&mut d, details.as_str());
    let color = match m.color {
        Some(c) => c,
        None => 0x00FF_FFFF,
    };
    let author = EmbedAuthor::named(m.name.clone()).with_icon(m.avatar.clone());
    Embed::new().author(author).thumbnail(art).color(color).description(d)
}


/// The presence sentence names the member's own status: after the name it
/// reads "is currently **Online**", "**Idle**", "**Invisible**" or
/// "**Offline**", or "in **Do Not Disturb** mode", each for its own status.
pub proof fn presence_names_status(user_name: Seq<char>, p: Presence)
    ensures
        (user_name + match p.status {
            OnlineStatus::Online => " is currently **Online**"@,
            OnlineStatus::Idle => " is currently **Idle**"@,
            OnlineStatus::DoNotDisturb => " is currently in **Do Not Disturb** mode"@,
            OnlineStatus::Invisible => " is currently **Invisible**"@,
            OnlineStatus::Offline => " is currently **Offline**"@,
        }).is_prefix_of(presence_text(user_name, p)),
{
    reveal_strlit(" is currently ");
    reveal_strlit("**");
    reveal_strlit("Online");
    reveal_strlit("Idle");
    reveal_strlit("Invisible");
    reveal_strlit("Offline");
    reveal_strlit("in **Do Not Disturb** mode");
    reveal_strlit(" is currently **Online**");
    reveal_strlit(" is currently **Idle**");
    reveal_strlit(" is currently in **Do Not Disturb** mode");
    reveal_strlit(" is currently **Invisible**");
    reveal_strlit(" is currently **Offline**");
    let s = presence_text(user_name, p);
    let head = user_name + " is currently "@ + (if p.status is DoNotDisturb {
        "in **Do Not Disturb** mode"@
    } else {
        "**"@ + status_text(p.status) + "**"@
    });
    let acts = activities_text(p.activities@);
    let clients = clients_text(p.client_status);
    let tail = (if clients.len() > 0 { " on **"@ + clients + "**"@ } else { Seq::empty() }) + (if acts.len() == 0 {
        ".\n\n"@
    } else {
        ", "@ + acts + ".\n\n"@
    });
    assert(s =~= head + tail);
    let want = user_name + match p.status {
        OnlineStatus::Online => " is currently **Online**"@,
        OnlineStatus::Idle => " is currently **Idle**"@,
        OnlineStatus::DoNotDisturb => " is currently in **Do Not Disturb** mode"@,
        OnlineStatus::Invisible => " is currently **Invisible**"@,
        OnlineStatus::Offline => " is currently **Offline**"@,
    };
    assert(want =~= head);
    assert(s.subrange(0, head.len() as int) =~= head);
}

} // verus!
