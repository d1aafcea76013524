//! Last.fm: which account a command looks up, how Last.fm failures are
//! reported, and the profile and now-playing messages.
use vstd::prelude::*;
use crate::embed::{AuthorView, Embed, EmbedAuthor, EmbedView};
use crate::formats::{utc_in_range, utc_string, utc_text};
use crate::parse::{parse_u64, parsed_u64};
use crate::text::{format_int, grouped, join, joined, owned, push_str, replace, replaced, views};

verus! {

/// A track as Last.fm lists it among the recent tracks.
pub struct LastfmTrack {
    pub name: String,
    pub url: String,
    pub artist: String,
    pub album: String,
    /// Last.fm marks the track as the one playing now.
    pub now_playing: bool,
}

/// One of a user's top artists; the play count is the text Last.fm sends.
pub struct LastfmArtist {
    pub name: String,
    pub plays: String,
}

/// The account details that Last.fm sends for a user.
pub struct LastfmUser {
    pub username: String,
    pub display_name: String,
    pub country: String,
    pub url: String,
    pub avatar: String,
    /// Registration time, in seconds after the Unix epoch.
    pub registered: i64,
    /// Total scrobbles, as the text Last.fm sends.
    pub scrobbles: String,
}

/// The failures of a Last.fm request that the bot tells apart.
pub enum LastfmFailure {
    OperationFailed(String),
    InvalidParameter(String),
    Other,
}

/// The message that Last.fm sends while its back end is down.
pub open spec fn backend_down_message() -> Seq<char> {
    "Operation failed - Most likely the backend service failed. Please try again."@
}

// ---------------------------------------------------------------------------
// Which account
// ---------------------------------------------------------------------------

/// The account that the Last.fm profile command shows: the first argument
/// when one is given, else the user's saved Last.fm name, else an error.
pub open spec fn chosen_account(first_arg: Option<Seq<char>>, saved: Option<Seq<char>>) -> Option<Seq<char>> {
    match first_arg {
        Some(a) => Some(a),
        None => saved,
    }
}

pub fn choose_account(first_arg: Option<String>, saved: Option<String>) -> (r: Option<String>)
    ensures
        r.deep_view() == chosen_account(first_arg.deep_view(), saved.deep_view()),
{
    match first_arg {
        Some(a) => Some(a),
        None => saved,
    }
}

/// The account for the now-playing and profile subcommands: with an argument
/// and a mention, the mentioned user's saved name; with an argument only, the
/// argument; with neither, the author's saved name. `None` means that nothing
/// was found and the user is told so.
pub open spec fn chosen_account_with_mention(
    first_arg: Option<Seq<char>>,
    mention_saved: Option<Seq<char>>,
    has_mention: bool,
    saved: Option<Seq<char>>,
) -> Option<Seq<char>> {
    match first_arg {
        Some(a) => if has_mention { mention_saved } else { Some(a) },
        None => saved,
    }
}

pub fn choose_account_with_mention(
    first_arg: Option<String>,
    mention_saved: Option<String>,
    has_mention: bool,
    saved: Option<String>,
) -> (r: Option<String>)
    requires
        first_arg is Some && has_mention ==> mention_saved is Some,
    ensures
        r.deep_view() == chosen_account_with_mention(
            first_arg.deep_view(),
            mention_saved.deep_view(),
            has_mention,
            saved.deep_view(),
        ),
        r is Some <==> first_arg is Some || saved is Some,
{
    match first_arg {
        Some(a) => if has_mention { mention_saved } else { Some(a) },
        None => saved,
    }
}

/// The error shown when no account was given or saved (profile command).
pub fn no_account_embed() -> (e: Embed)
    ensures
        e@ == EmbedView::blank().set_title("Error: No Last.fm username was found or provided."@).set_color(
            0x00FF_0000,
        ).set_description("No username found. Please provide one or set one via `profile set`."@),
{
    Embed::new().title(owned("Error: No Last.fm username was found or provided.")).color(0x00FF_0000).description(
        owned("No username found. Please provide one or set one via `profile set`."),
    )
}

/// The answer when no account was given or saved (subcommands).
pub fn no_account_text() -> (s: String)
    ensures
        s@ == "No username found. Please set one via `profile set` or provide one."@,
{
    owned("No username found. Please set one via `profile set` or provide one.")
}

// ---------------------------------------------------------------------------
// Failures
// ---------------------------------------------------------------------------

/// Title and description of the embed for a failed Last.fm request.
pub open spec fn failure_lines(f: LastfmFailure) -> (Seq<char>, Seq<char>) {
    match f {
        LastfmFailure::OperationFailed(m) => if m@ == backend_down_message() {
            ("Error: Last.fm is currently offline."@, "Last.fm's servers are currently offline. Please try again later."@)
        } else {
            ("Error: Unknown Last.fm operation error."@, "An unknown Last.fm operation error was encountered. Please try again later."@)
        },
        LastfmFailure::InvalidParameter(m) => if m@ == "User not found"@ {
            ("Error: Invalid Last.fm username provided."@, "Invalid username provided. Please provide a valid one and then try again."@)
        } else {
            ("Error: Invalid Last.fm parameter provided."@, "An invalid Last.fm parameter was provided."@)
        },
        LastfmFailure::Other => ("Error: Unrecognized Last.fm error encountered."@, "An unrecognized Last.fm error was detected. Please try again later."@),
    }
}

/// The red embed for a failed Last.fm request (profile command).
pub fn failure_embed(f: &LastfmFailure) -> (e: Embed)
    ensures
        e@ == EmbedView::blank().set_title(failure_lines(*f).0).set_description(failure_lines(*f).1).set_color(
            0x00FF_0000,
        ),
{
    let (t, d) = match f {
        LastfmFailure::OperationFailed(m) => if crate::text::same_text(m.as_str(), "Operation failed - Most likely the backend service failed. Please try again.") {
            ("Error: Last.fm is currently offline.", "Last.fm's servers are currently offline. Please try again later.")
        } else {
            ("Error: Unknown Last.fm operation error.", "An unknown Last.fm operation error was encountered. Please try again later.")
        },
        LastfmFailure::InvalidParameter(m) => if crate::text::same_text(m.as_str(), "User not found") {
            ("Error: Invalid Last.fm username provided.", "Invalid username provided. Please provide a valid one and then try again.")
        } else {
            ("Error: Invalid Last.fm parameter provided.", "An invalid Last.fm parameter was provided.")
        },
        LastfmFailure::Other => ("Error: Unrecognized Last.fm error encountered.", "An unrecognized Last.fm error was detected. Please try again later."),
    };
    Embed::new().title(owned(t)).description(owned(d)).color(0x00FF_0000)
}

/// The plain answer for a failed Last.fm request (subcommands).
pub open spec fn failure_text(f: LastfmFailure) -> Seq<char> {
    match f {
        LastfmFailure::OperationFailed(m) => if m@ == backend_down_message() {
            "Last.fm's servers are currently offline. Please try again later."@
        } else {
            "An unknown Last.fm operation error occurred. Try again later."@
        },
        LastfmFailure::InvalidParameter(m) => if m@ == "User not found"@ {
            "Invalid username provided. Please provide a valid one and try again."@
        } else {
            "An invalid Last.fm parameter was provided."@
        },
        LastfmFailure::Other => "An unrecognized Last.fm error was detected. Please try again later."@,
    }
}

pub fn failure_message(f: &LastfmFailure) -> (s: String)
    ensures
        s@ == failure_text(*f),
{
    match f {
        LastfmFailure::OperationFailed(m) => if crate::text::same_text(m.as_str(), "Operation failed - Most likely the backend service failed. Please try again.") {
            owned("Last.fm's servers are currently offline. Please try again later.")
        } else {
            owned("An unknown Last.fm operation error occurred. Try again later.")
        },
        LastfmFailure::InvalidParameter(m) => if crate::text::same_text(m.as_str(), "User not found") {
            owned("Invalid username provided. Please provide a valid one and try again.")
        } else {
            owned("An invalid Last.fm parameter was provided.")
        },
        LastfmFailure::Other => owned("An unrecognized Last.fm error was detected. Please try again later."),
    }
}

// ---------------------------------------------------------------------------
// Names
// ---------------------------------------------------------------------------

/// The name that heads the message: the author's saved display name when the
/// account shown is the author's own saved Last.fm account, else the Last.fm
/// user name.
pub open spec fn heading_name(
    saved_name: Option<Seq<char>>,
    saved_lastfm: Option<Seq<char>>,
    account: Seq<char>,
    lastfm_username: Seq<char>,
) -> Seq<char> {
    match saved_name {
        Some(n) => {
            let lastfm_name = match saved_lastfm {
                Some(l) => l,
                None => lastfm_username,
            };
            if lastfm_name == account { n } else { lastfm_username }
        },
        None => lastfm_username,
    }
}

pub fn heading(saved_name: Option<String>, saved_lastfm: Option<String>, account: &str, lastfm_username: &str) -> (s: String)
    ensures
        s@ == heading_name(saved_name.deep_view(), saved_lastfm.deep_view(), account@, lastfm_username@),
{
    match saved_name {
        Some(n) => {
            let lastfm_name = match saved_lastfm {
                Some(l) => l,
                None => owned(lastfm_username),
            };
            let acc = owned(account);
            if lastfm_name == acc { n } else { owned(lastfm_username) }
        },
        None => owned(lastfm_username),
    }
}

/// The display name, or "None" when Last.fm has none.
pub open spec fn display_name_text(d: Seq<char>) -> Seq<char> {
    if d.len() == 0 { "None"@ } else { d }
}

// ---------------------------------------------------------------------------
// Lines
// ---------------------------------------------------------------------------

/// A count sent as text, written with thousands separators.
pub open spec fn count_text(s: Seq<char>) -> Seq<char> {
    grouped(parsed_u64(s).unwrap())
}

/// The mark before a track that plays now: an escaped play symbol.
pub open spec fn playing_mark() -> Seq<char> {
    "\\\u{25b6}\u{fe0f}"@
}

/// `s` with every `**` escaped so that it does not end bold text.
pub open spec fn escape_bold(s: Seq<char>) -> Seq<char> {
    replaced(s, "**"@, "\\**"@)
}

/// A top-artist line; `unit` is "plays" or "scrobbles".
pub open spec fn artist_line(a: LastfmArtist, unit: Seq<char>) -> Seq<char> {
    "**"@ + a.name@ + "** \u{2014} "@ + count_text(a.plays@) + " "@ + unit
}

/// A recent-track line; `escape_url` also escapes `**` in the link.
pub open spec fn track_line(t: LastfmTrack, escape_url: bool) -> Seq<char> {
    (if t.now_playing { playing_mark() } else { Seq::empty() }) + " **["@ + escape_bold(t.name@) + "]("@
        + (if escape_url { escape_bold(t.url@) } else { t.url@ }) + ")** \u{2014} "@ + t.artist@
}

pub open spec fn artists_ok(artists: Seq<LastfmArtist>) -> bool {
    forall|i: int| 0 <= i < artists.len() ==> (#[trigger] parsed_u64(artists[i].plays@)) is Some
}

pub open spec fn artist_lines(artists: Seq<LastfmArtist>, unit: Seq<char>) -> Seq<Seq<char>> {
    artists.map_values(|a: LastfmArtist| artist_line(a, unit))
}

pub open spec fn track_lines(tracks: Seq<LastfmTrack>, escape_url: bool) -> Seq<Seq<char>> {
    tracks.map_values(|t: LastfmTrack| track_line(t, escape_url))
}

fn count_string(s: &String) -> (r: String)
    requires
        parsed_u64(s@) is Some,
    ensures
        r@ == count_text(s@),
{
    match parse_u64(s.as_str()) {
        Some(v) => format_int(v),
        None => String::new(),
    }
}

fn artists_text(artists: &Vec<LastfmArtist>, unit: &str) -> (s: String)
    requires
        artists_ok(artists@),
    ensures
        s@ == joined(artist_lines(artists@, unit@), "\n"@),
{
    let mut lines: Vec<String> = Vec::new();
    let mut i: usize = 0;
    while i < artists.len()
        invariant
            i <= artists@.len(),
            artists_ok(artists@),
            views(lines@) == artist_lines(artists@, unit@).take(i as int),
        decreases artists@.len() - i,
    {
        let a = &artists[i];
        assert(parsed_u64(artists@[i as int].plays@) is Some);
        let mut line = owned("**");
        push_str(&mut line, a.name.as_str());
        push_str(&mut line, "** \u{2014} ");
        let c = count_string(&a.plays);
        push_str(&mut line, c.as_str());
        push_str(&mut line, " ");
        push_str(&mut line, unit);
        let ghost before = lines@;
        lines.push(line);
        assert(views(lines@) =~= artist_lines(artists@, unit@).take(i + 1)) by {
            assert(views(lines@) =~= views(before).push(line@));
        }
        i = i + 1;
    }
    assert(artist_lines(artists@, unit@).take(artists@.len() as int) =~= artist_lines(artists@, unit@));
    join(&lines, "\n")
}

fn track_text(t: &LastfmTrack, escape_url: bool) -> (s: String)
    ensures
        s@ == track_line(*t, escape_url),
{
    proof {
        reveal_strlit("**");
    }
    let mut line = String::new();
    if t.now_playing {
        push_str(&mut line, "\\\u{25b6}\u{fe0f}");
    }
    push_str(&mut line, " **[");
    let n = replace(t.name.as_str(), "**", "\\**");
    push_str(&mut line, n.as_str());
    push_str(&mut line, "](");
    if escape_url {
        let u = replace(t.url.as_str(), "**", "\\**");
        push_str(&mut line, u.as_str());
    } else {
        push_str(&mut line, t.url.as_str());
    }
    push_str(&mut line, ")** \u{2014} ");
    push_str(&mut line, t.artist.as_str());
    assert(line@ =~= track_line(*t, escape_url));
    line
}

fn tracks_text(tracks: &Vec<LastfmTrack>, escape_url: bool) -> (s: String)
    ensures
        s@ == joined(track_lines(tracks@, escape_url), "\n"@),
{
    let mut lines: Vec<String> = Vec::new();
    let mut i: usize = 0;
    while i < tracks.len()
        invariant
            i <= tracks@.len(),
            views(lines@) == track_lines(tracks@, escape_url).take(i as int),
        decreases tracks@.len() - i,
    {
        let line = track_text(&tracks[i], escape_url);
        let ghost before = lines@;
        lines.push(line);
        assert(views(lines@) =~= track_lines(tracks@, escape_url).take(i + 1)) by {
            assert(views(lines@) =~= views(before).push(line@));
        }
        i = i + 1;
    }
    assert(track_lines(tracks@, escape_url).take(tracks@.len() as int) =~= track_lines(tracks@, escape_url));
    join(&lines, "\n")
}

// ---------------------------------------------------------------------------
// The profile message
// ---------------------------------------------------------------------------

/// What the profile message shows, apart from the account itself.
pub struct LastfmStats {
    /// The recent tracks, the latest first.
    pub recent: Vec<LastfmTrack>,
    pub top_artists: Vec<LastfmArtist>,
    /// The total number of artists, as Last.fm sends it.
    pub total_artists: String,
    /// The number of loved tracks, as Last.fm sends it.
    pub loved_tracks: String,
    /// Album artwork of the latest track.
    pub artwork: String,
}

/// The sentence about the latest track.
pub open spec fn now_playing_sentence(name: Seq<char>, t: LastfmTrack) -> Seq<char> {
    name + " "@ + (if t.now_playing { "is currently listening to"@ } else { "last listened to"@ }) + " **"@
        + t.name@ + "** by **"@ + t.artist@ + "** on **"@ + t.album@ + "**."@
}

/// The input the profile messages can show: at least one recent track, and
/// counts that read as numbers.
pub open spec fn stats_ok(user: LastfmUser, stats: LastfmStats) -> bool {
    &&& stats.recent@.len() > 0
    &&& artists_ok(stats.top_artists@)
    &&& parsed_u64(stats.total_artists@) is Some
    &&& parsed_u64(user.scrobbles@) is Some
    &&& utc_in_range(user.registered as int)
}

/// The profile embed. `newer` picks the subcommand's wording (display-name
/// label, "scrobbles", "Unknown", escaped links) over the command's.
pub open spec fn profile_embed_view(name: Seq<char>, user: LastfmUser, stats: LastfmStats, newer: bool) -> EmbedView {
    let tracks = if stats.recent@.len() == 0 {
        if newer { "Unknown"@ } else { "No recent tracks available"@ }
    } else {
        joined(track_lines(stats.recent@, newer), "\n"@)
    };
    EmbedView::blank().set_author(
        AuthorView { name, url: Some(user.url@), icon_url: Some(user.avatar@) },
    ).set_thumbnail(stats.artwork@).set_color(0x00d5_1007).set_description(
        now_playing_sentence(name, stats.recent@[0]),
    ).add_field(if newer { "**Display Name**"@ } else { "**Name**"@ }, display_name_text(user.display_name@), true)
    .add_field("**Country**"@, user.country@, true)
    .add_field("**Join Date**"@, utc_text(user.registered as int, "%B %e, %Y"@), true)
    .add_field("**Loved Tracks**"@, stats.loved_tracks@, true)
    .add_field("**Total Artists**"@, count_text(stats.total_artists@), true)
    .add_field("**Total Scrobbles**"@, count_text(user.scrobbles@), true)
    .add_field("**Top Artists:**"@, joined(artist_lines(stats.top_artists@, if newer { "scrobbles"@ } else { "plays"@ }), "\n"@), false)
    .add_field("**Recently Played:**"@, tracks, false)
    .set_footer("Powered by Last.fm."@)
}

/// The Last.fm profile embed: the heading name, the latest track, account
/// details, top artists and recent tracks.
pub fn profile_embed(name: String, user: LastfmUser, stats: LastfmStats, newer: bool) -> (e: Embed)
    requires
        stats_ok(user, stats),
    ensures
        e@ == profile_embed_view(name@, user, stats, newer),
{
    let latest = &stats.recent[0];
    let mut sentence = name.clone();
    push_str(&mut sentence, " ");
    push_str(&mut sentence, if latest.now_playing { "is currently listening to" } else { "last listened to" });
    push_str(&mut sentence, " **");
    push_str(&mut sentence, latest.name.as_str());
    push_str(&mut sentence, "** by **");
    push_str(&mut sentence, latest.artist.as_str());
    push_str(&mut sentence, "** on **");
    push_str(&mut sentence, latest.album.as_str());
    push_str(&mut sentence, "**.");
    let tracks = if stats.recent.len() == 0 {
        owned(if newer { "Unknown" } else { "No recent tracks available" })
    } else {
        tracks_text(&stats.recent, newer)
    };
    let display = if user.display_name.as_str().is_empty() { owned("None") } else { user.display_name.clone() };
    let joined_date = utc_string(user.registered, "%B %e, %Y");
    let total = count_string(&stats.total_artists);
    let scrobbles = count_string(&user.scrobbles);
    let artists = artists_text(&stats.top_artists, if newer { "scrobbles" } else { "plays" });
    let author = EmbedAuthor::named(name).with_url(user.url.clone()).with_icon(user.avatar.clone());
    Embed::new().author(author).thumbnail(stats.artwork.clone()).color(0x00d5_1007).description(sentence).field(
        owned(if newer { "**Display Name**" } else { "**Name**" }),
        display,
        true,
    ).field(owned("**Country**"), user.country.clone(), true).field(owned("**Join Date**"), joined_date, true).field(
        owned("**Loved Tracks**"),
        stats.loved_tracks.clone(),
        true,
    ).field(owned("**Total Artists**"), total, true).field(owned("**Total Scrobbles**"), scrobbles, true).field(
        owned("**Top Artists:**"),
        artists,
        false,
    ).field(owned("**Recently Played:**"), tracks, false).footer(owned("Powered by Last.fm."))
}

// ---------------------------------------------------------------------------
// Now playing
// ---------------------------------------------------------------------------

/// The now-playing embed for the latest track.
pub open spec fn now_playing_view(name: Seq<char>, user: LastfmUser, t: LastfmTrack, artwork: Seq<char>) -> EmbedView {
    EmbedView::blank().set_author(
        AuthorView { name: name + " is currently playing:"@, url: Some(user.url@), icon_url: Some(user.avatar@) },
    ).set_title(t.name@).set_url(t.url@).set_description("**"@ + t.artist@ + "** | "@ + t.album@).set_thumbnail(
        artwork,
    ).set_color(0x00d5_1007)
}

pub fn now_playing_embed(name: String, user: &LastfmUser, latest: &LastfmTrack, artwork: String) -> (e: Embed)
    ensures
        e@ == now_playing_view(name@, *user, *latest, artwork@),
{
    let mut header = name;
    push_str(&mut header, " is currently playing:");
    let mut desc = owned("**");
    push_str(&mut desc, latest.artist.as_str());
    push_str(&mut desc, "** | ");
    push_str(&mut desc, latest.album.as_str());
    let author = EmbedAuthor::named(header).with_url(user.url.clone()).with_icon(user.avatar.clone());
    Embed::new().author(author).title(latest.name.clone()).url(latest.url.clone()).description(desc).thumbnail(
        artwork,
    ).color(0x00d5_1007)
}


/// The profile's description tells whether the latest track is playing:
/// after the heading name it says "is currently listening to" exactly when
/// the latest track is marked as playing now, and "last listened to"
/// otherwise, then names that track, its artist and its album.
pub proof fn profile_tells_play_state(name: Seq<char>, user: LastfmUser, stats: LastfmStats, newer: bool)
    requires
        stats.recent@.len() > 0,
    ensures
        ({
            let t = stats.recent@[0];
            let d = profile_embed_view(name, user, stats, newer).description;
            &&& t.now_playing ==> d == Some(
                name + " is currently listening to **"@ + t.name@ + "** by **"@ + t.artist@ + "** on **"@ + t.album@
                    + "**."@,
            )
            &&& !t.now_playing ==> d == Some(
                name + " last listened to **"@ + t.name@ + "** by **"@ + t.artist@ + "** on **"@ + t.album@ + "**."@,
            )
        }),
{
    reveal_strlit(" ");
    reveal_strlit(" **");
    reveal_strlit("is currently listening to");
    reveal_strlit("last listened to");
    reveal_strlit(" is currently listening to **");
    reveal_strlit(" last listened to **");
    let t = stats.recent@[0];
    let rest = t.name@ + "** by **"@ + t.artist@ + "** on **"@ + t.album@ + "**."@;
    assert(" "@ + "is currently listening to"@ + " **"@ =~= " is currently listening to **"@);
    assert(" "@ + "last listened to"@ + " **"@ =~= " last listened to **"@);
    if t.now_playing {
        assert(now_playing_sentence(name, t) =~= name + " is currently listening to **"@ + rest);
        assert(name + " is currently listening to **"@ + t.name@ + "** by **"@ + t.artist@ + "** on **"@ + t.album@
            + "**."@ =~= name + " is currently listening to **"@ + rest);
    } else {
        assert(now_playing_sentence(name, t) =~= name + " last listened to **"@ + rest);
        assert(name + " last listened to **"@ + t.name@ + "** by **"@ + t.artist@ + "** on **"@ + t.album@ + "**."@
            =~= name + " last listened to **"@ + rest);
    }
}

} // verus!
