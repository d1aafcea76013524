//! Spotify: artist lists of a playing track, albums, tracks, credits, new
//! releases and the status of a listening member.
use vstd::prelude::*;
use crate::embed::{AuthorView, Embed, EmbedAuthor, EmbedView, Reply, ReplyView};
use crate::user_info::{is_spotify, Activity, Presence};
use crate::formats::{parse_ymd, ymd_days, percent_bytes, percent_encode, date_in_range, date_string, date_text, duration_text, format_duration_secs, utc_in_range, utc_string, utc_text};
use vstd::string::StringSliceAdditionalSpecFns;
use crate::text::{
    bool_string, bool_text, chars_of, count_matches, decimal, join, joined, last_index, last_index_of, match_count, owned,
    push_char, push_decimal, push_grouped, grouped, push_str, replace, replaced, views, trim, trimmed, same_text, is_ascii_text, upper_text,
};

verus! {

/// Spotify's artist list with each `;` made a `,`.
pub open spec fn semicolons_to_commas(s: Seq<char>) -> Seq<char> {
    s.map_values(|c: char| if c == ';' { ',' } else { c })
}

/// The artist list of a playing track in readable form: Spotify separates
/// artists with `;`. Those become commas and the last one introduces the
/// final artist with `&` (", &" when the list has at least two ", ").
pub open spec fn artists_text(s: Seq<char>) -> Seq<char> {
    let k = last_index_of(s, ';');
    if k < 0 {
        s
    } else {
        let r = semicolons_to_commas(s);
        if match_count(r, ", "@) >= 2 {
            r.take(k) + replaced(r.skip(k), ","@, ", &"@)
        } else {
            r.take(k) + " "@ + replaced(r.skip(k), ","@, "&"@)
        }
    }
}

/// A single artist (no `;` in the list) is shown as Spotify wrote it.
pub proof fn single_artist_unchanged(s: Seq<char>)
    requires
        !s.contains(';'),
    ensures
        artists_text(s) == s,
{
    crate::text::lemma_last_index_of(s, ';');
    if last_index_of(s, ';') >= 0 {
        assert(s[last_index_of(s, ';')] == ';');
    }
}

fn commas_between(cs: &Vec<char>, from: usize, to: usize) -> (s: String)
    requires
        from <= to <= cs@.len(),
    ensures
        s@ == semicolons_to_commas(cs@).subrange(from as int, to as int),
{
    let mut s = String::new();
    let mut i = from;
    while i < to
        invariant
            from <= i <= to <= cs@.len(),
            s@ == semicolons_to_commas(cs@).subrange(from as int, i as int),
        decreases to - i,
    {
        let c = cs[i];
        push_char(&mut s, if c == ';' { ',' } else { c });
        assert(s@ =~= semicolons_to_commas(cs@).subrange(from as int, i + 1));
        i = i + 1;
    }
    s
}

/// The readable artist list of a playing Spotify track.
pub fn spotify_artists(artists: &str) -> (r: String)
    ensures
        r@ == artists_text(artists@),
{
    proof {
        reveal_strlit(",");
        reveal_strlit(", ");
    }
    let cs = chars_of(artists);
    match last_index(&cs, ';') {
        None => owned(artists),
        Some(k) => {
            proof {
                crate::text::lemma_last_index_of(cs@, ';');
            }
            let all = commas_between(&cs, 0, cs.len());
            assert(all@ =~= semicolons_to_commas(artists@));
            let left = commas_between(&cs, 0, k);
            let right = commas_between(&cs, k, cs.len());
            assert(left@ =~= semicolons_to_commas(artists@).take(k as int));
            assert(right@ =~= semicolons_to_commas(artists@).skip(k as int));
            let commas = count_matches(all.as_str(), ", ");
            let mut out = left;
            if commas >= 2 {
                let tail = replace(right.as_str(), ",", ", &");
                push_str(&mut out, tail.as_str());
            } else {
                push_str(&mut out, " ");
                let tail = replace(right.as_str(), ",", "&");
                push_str(&mut out, tail.as_str());
            }
            out
        },
    }
}

// ---------------------------------------------------------------------------
// Tracks and albums
// ---------------------------------------------------------------------------

/// Spotify's green.
pub const SPOTIFY_GREEN: u32 = 0x001D_B954;

/// A name with its Spotify link.
pub struct SpotifyLink {
    pub name: String,
    pub url: String,
}

pub open spec fn link_line(name: Seq<char>, url: Seq<char>) -> Seq<char> {
    "["@ + name + "]("@ + url + ")"@
}

pub open spec fn link_lines(ls: Seq<SpotifyLink>) -> Seq<Seq<char>> {
    ls.map_values(|l: SpotifyLink| link_line(l.name@, l.url@))
}

/// The artists, each linked, separated by commas.
pub open spec fn artist_links_text(ls: Seq<SpotifyLink>) -> Seq<char> {
    joined(link_lines(ls), ", "@)
}

fn link_string(name: &str, url: &str) -> (s: String)
    ensures
        s@ == link_line(name@, url@),
{
    let mut s = owned("[");
    push_str(&mut s, name);
    push_str(&mut s, "](");
    push_str(&mut s, url);
    push_str(&mut s, ")");
    s
}

/// The artists, each linked, separated by commas.
pub fn artist_links(ls: &Vec<SpotifyLink>) -> (s: String)
    ensures
        s@ == artist_links_text(ls@),
{
    let mut parts: Vec<String> = Vec::new();
    let mut i: usize = 0;
    while i < ls.len()
        invariant
            i <= ls@.len(),
            views(parts@) == link_lines(ls@.take(i as int)),
        decreases ls@.len() - i,
    {
        let ghost before = parts@;
        parts.push(link_string(ls[i].name.as_str(), ls[i].url.as_str()));
        assert(views(parts@) =~= views(before).push(link_line(ls@[i as int].name@, ls@[i as int].url@)));
        assert(link_lines(ls@.take(i + 1)) =~= link_lines(ls@.take(i as int)).push(
            link_line(ls@[i as int].name@, ls@[i as int].url@),
        ));
        i = i + 1;
    }
    assert(ls@.take(ls@.len() as int) =~= ls@);
    join(&parts, ", ")
}

/// The footer of a release: its first copyright notice and the label, or
/// the label alone.
pub open spec fn copyright_text(first_copyright: Option<Seq<char>>, label: Seq<char>) -> Seq<char> {
    match first_copyright {
        Some(c) => c + " ("@ + label + ")"@,
        None => label,
    }
}

pub fn copyright_string(first_copyright: &Option<String>, label: &str) -> (s: String)
    ensures
        s@ == copyright_text(first_copyright.deep_view(), label@),
{
    match first_copyright {
        Some(c) => {
            let mut s = c.clone();
            push_str(&mut s, " (");
            push_str(&mut s, label);
            push_str(&mut s, ")");
            s
        },
        None => owned(label),
    }
}

/// A length in milliseconds as the bot writes it: whole seconds, in
/// humantime's words.
pub open spec fn length_text(ms: u64) -> Seq<char> {
    duration_text((ms / 1000) as nat)
}

pub fn length_string(ms: u64) -> (s: String)
    ensures
        s@ == length_text(ms),
{
    format_duration_secs(ms / 1000)
}

/// The pitch class Spotify reports, in note names.
pub open spec fn key_text(key: u32) -> Seq<char> {
    if key == 0 {
        "C"@
    } else if key == 1 {
        "C\u{266f}, D\u{266d}"@
    } else if key == 2 {
        "D"@
    } else if key == 3 {
        "D\u{266f}"@
    } else if key == 4 {
        "E"@
    } else if key == 5 {
        "F"@
    } else if key == 6 {
        "F\u{266f}, G\u{266d}"@
    } else if key == 7 {
        "G"@
    } else if key == 8 {
        "G\u{266f}, A\u{266d}"@
    } else if key == 9 {
        "A"@
    } else if key == 10 {
        "A\u{266f}, B\u{266d}"@
    } else if key == 11 {
        "B"@
    } else {
        decimal(key as nat)
    }
}

pub fn key_string(key: u32) -> (s: String)
    ensures
        s@ == key_text(key),
{
    if key == 0 {
        owned("C")
    } else if key == 1 {
        owned("C\u{266f}, D\u{266d}")
    } else if key == 2 {
        owned("D")
    } else if key == 3 {
        owned("D\u{266f}")
    } else if key == 4 {
        owned("E")
    } else if key == 5 {
        owned("F")
    } else if key == 6 {
        owned("F\u{266f}, G\u{266d}")
    } else if key == 7 {
        owned("G")
    } else if key == 8 {
        owned("G\u{266f}, A\u{266d}")
    } else if key == 9 {
        owned("A")
    } else if key == 10 {
        owned("A\u{266f}, B\u{266d}")
    } else if key == 11 {
        owned("B")
    } else {
        crate::text::decimal_string(key as u64)
    }
}

/// The mode as the track card writes it: a major key is shown as "Minor"
/// and a minor key as "Major".
pub open spec fn mode_text(major: bool) -> Seq<char> {
    if major { "Minor"@ } else { "Major"@ }
}

/// What the track card shows.
pub struct TrackCard {
    pub name: String,
    pub url: String,
    /// The album cover.
    pub image: String,
    pub artists: Vec<SpotifyLink>,
    pub album: SpotifyLink,
    pub disc: u64,
    pub position: u64,
    /// The album's release date, in days after 1970-01-01.
    pub release: i32,
    pub popularity: u32,
    pub explicit: bool,
    pub preview: Option<String>,
    /// In how many markets the album is sold.
    pub markets: u64,
    pub duration_ms: u64,
    /// Loudness and tempo as the front end writes those numbers.
    pub loudness: String,
    pub tempo: String,
    pub key: u32,
    pub major: bool,
    pub time_signature: u32,
    pub first_copyright: Option<String>,
    pub label: String,
}

pub open spec fn preview_text(p: Option<Seq<char>>) -> Seq<char> {
    match p {
        Some(u) => "[Click Here]("@ + u + ")"@,
        None => "No preview available."@,
    }
}

pub open spec fn track_view(t: TrackCard) -> EmbedView {
    EmbedView::blank().set_title(t.name@).set_thumbnail(t.image@).set_url(t.url@).set_color(SPOTIFY_GREEN).add_field(
        "Artists"@,
        artist_links_text(t.artists@),
        true,
    ).add_field("Album"@, link_line(t.album.name@, t.album.url@), true).add_field("Disc"@, decimal(t.disc as nat), true).add_field(
        "Position"@,
        decimal(t.position as nat),
        true,
    ).add_field("Release Date"@, date_text(t.release as int), true).add_field(
        "Popularity"@,
        decimal(t.popularity as nat) + "%"@,
        true,
    ).add_field("Explicit"@, bool_text(t.explicit), true).add_field("Song Preview"@, preview_text(t.preview.deep_view()), true).add_field(
        "Markets"@,
        decimal(t.markets as nat),
        true,
    ).add_field("Duration"@, length_text(t.duration_ms), true).add_field("Loudness"@, t.loudness@ + " dB"@, true).add_field(
        "Keys"@,
        key_text(t.key),
        true,
    ).add_field("Mode"@, mode_text(t.major), true).add_field("Tempo"@, t.tempo@, true).add_field(
        "Time Signature"@,
        decimal(t.time_signature as nat),
        true,
    ).set_footer(copyright_text(t.first_copyright.deep_view(), t.label@))
}

/// The track card.
pub fn track_embed(t: &TrackCard) -> (e: Embed)
    requires
        date_in_range(t.release as int),
    ensures
        e@ == track_view(*t),
{
    let preview = match &t.preview {
        Some(u) => {
            let mut s = owned("[Click Here](");
            push_str(&mut s, u.as_str());
            push_str(&mut s, ")");
            s
        },
        None => owned("No preview available."),
    };
    let mut popularity = String::new();
    push_decimal(&mut popularity, t.popularity as u64);
    push_str(&mut popularity, "%");
    let mut loudness = t.loudness.clone();
    push_str(&mut loudness, " dB");
    let e = Embed::new().title(t.name.clone()).thumbnail(t.image.clone()).url(t.url.clone()).color(SPOTIFY_GREEN);
    let e = e.field(owned("Artists"), artist_links(&t.artists), true).field(
        owned("Album"),
        link_string(t.album.name.as_str(), t.album.url.as_str()),
        true,
    ).field(owned("Disc"), crate::text::decimal_string(t.disc), true).field(
        owned("Position"),
        crate::text::decimal_string(t.position),
        true,
    );
    let e = e.field(owned("Release Date"), date_string(t.release), true).field(owned("Popularity"), popularity, true).field(
        owned("Explicit"),
        bool_string(t.explicit),
        true,
    ).field(owned("Song Preview"), preview, true).field(owned("Markets"), crate::text::decimal_string(t.markets), true);
    let e = e.field(owned("Duration"), length_string(t.duration_ms), true).field(owned("Loudness"), loudness, true).field(
        owned("Keys"),
        key_string(t.key),
        true,
    ).field(owned("Mode"), owned(if t.major { "Minor" } else { "Major" }), true).field(owned("Tempo"), t.tempo.clone(), true).field(
        owned("Time Signature"),
        crate::text::decimal_string(t.time_signature as u64),
        true,
    );
    e.footer(copyright_string(&t.first_copyright, t.label.as_str()))
}

pub enum AlbumKind {
    Album,
    Single,
    Compilation,
}

/// One track of an album.
pub struct AlbumTrack {
    pub name: String,
    pub url: String,
    pub position: u64,
    pub duration_ms: u64,
    pub explicit: bool,
}

/// What the album card shows.
pub struct AlbumCard {
    pub name: String,
    pub url: String,
    pub image: String,
    pub kind: AlbumKind,
    pub artists: Vec<SpotifyLink>,
    /// The release date, in days after 1970-01-01.
    pub release: i32,
    pub popularity: u32,
    pub markets: u64,
    /// How many tracks the album has, and the ones Spotify listed.
    pub track_count: u64,
    pub tracks: Vec<AlbumTrack>,
    pub first_copyright: Option<String>,
    pub label: String,
}

/// A single of two to six tracks is an EP.
pub open spec fn album_kind_text(kind: AlbumKind, track_count: u64) -> Seq<char> {
    match kind {
        AlbumKind::Album => "Album"@,
        AlbumKind::Single => if 1 < track_count && track_count <= 6 { "Extended Play (EP)"@ } else { "Single"@ },
        AlbumKind::Compilation => "Compilation"@,
    }
}

/// The summed length of tracks, in milliseconds.
pub open spec fn total_ms(ts: Seq<AlbumTrack>) -> int
    decreases ts.len(),
{
    if ts.len() == 0 { 0 } else { total_ms(ts.drop_last()) + ts.last().duration_ms }
}

pub open spec fn album_track_line(t: AlbumTrack) -> Seq<char> {
    "**"@ + decimal(t.position as nat) + ".** "@ + link_line(t.name@, t.url@) + " \u{2014} "@ + length_text(t.duration_ms)
        + " "@ + if t.explicit { "(explicit)"@ } else { Seq::empty() }
}

pub open spec fn album_track_lines(ts: Seq<AlbumTrack>) -> Seq<Seq<char>> {
    ts.map_values(|t: AlbumTrack| album_track_line(t))
}

pub open spec fn album_view(a: AlbumCard) -> EmbedView {
    EmbedView::blank().set_title(a.name@).set_url(a.url@).set_thumbnail(a.image@).set_color(SPOTIFY_GREEN).add_field(
        "Type"@,
        album_kind_text(a.kind, a.track_count),
        true,
    ).add_field("Length"@, duration_text((total_ms(a.tracks@) / 1000) as nat), true).add_field(
        "Artists"@,
        artist_links_text(a.artists@),
        true,
    ).add_field("Release Date"@, date_text(a.release as int), true).add_field(
        "Popularity"@,
        decimal(a.popularity as nat) + "%"@,
        true,
    ).add_field("Markets"@, decimal(a.markets as nat), true).add_field("Tracks"@, decimal(a.track_count as nat), true).set_description(
        joined(album_track_lines(a.tracks@), "\n"@),
    ).set_footer(copyright_text(a.first_copyright.deep_view(), a.label@))
}

fn album_track_string(t: &AlbumTrack) -> (s: String)
    ensures
        s@ == album_track_line(*t),
{
    let mut s = owned("**");
    push_decimal(&mut s, t.position);
    push_str(&mut s, ".** ");
    let link = link_string(t.name.as_str(), t.url.as_str());
    push_str(&mut s, link.as_str());
    push_str(&mut s, " \u{2014} ");
    let length = length_string(t.duration_ms);
    push_str(&mut s, length.as_str());
    push_str(&mut s, " ");
    if t.explicit {
        push_str(&mut s, "(explicit)");
    }
    assert(s@ =~= album_track_line(*t));
    s
}

/// The album card. The track lengths are summed, so the sum must fit.
pub fn album_embed(a: &AlbumCard) -> (e: Embed)
    requires
        date_in_range(a.release as int),
        total_ms(a.tracks@) <= u64::MAX,
    ensures
        e@ == album_view(*a),
{
    let mut total: u64 = 0;
    let mut lines: Vec<String> = Vec::new();
    let mut i: usize = 0;
    while i < a.tracks.len()
        invariant
            i <= a.tracks@.len(),
            total_ms(a.tracks@) <= u64::MAX,
            total == total_ms(a.tracks@.take(i as int)),
            views(lines@) == album_track_lines(a.tracks@.take(i as int)),
        decreases a.tracks@.len() - i,
    {
        proof {
            let pre = a.tracks@.take(i + 1);
            assert(pre.drop_last() =~= a.tracks@.take(i as int));
            lemma_total_prefix(a.tracks@, i + 1);
        }
        total = total + a.tracks[i].duration_ms;
        let ghost before = lines@;
        lines.push(album_track_string(&a.tracks[i]));
        assert(views(lines@) =~= views(before).push(album_track_line(a.tracks@[i as int])));
        assert(album_track_lines(a.tracks@.take(i + 1)) =~= album_track_lines(a.tracks@.take(i as int)).push(
            album_track_line(a.tracks@[i as int]),
        ));
        i = i + 1;
    }
    assert(a.tracks@.take(a.tracks@.len() as int) =~= a.tracks@);
    let kind = match a.kind {
        AlbumKind::Album => "Album",
        AlbumKind::Single => if 1 < a.track_count && a.track_count <= 6 { "Extended Play (EP)" } else { "Single" },
        AlbumKind::Compilation => "Compilation",
    };
    let mut popularity = String::new();
    push_decimal(&mut popularity, a.popularity as u64);
    push_str(&mut popularity, "%");
    let e = Embed::new().title(a.name.clone()).url(a.url.clone()).thumbnail(a.image.clone()).color(SPOTIFY_GREEN);
    let e = e.field(owned("Type"), owned(kind), true).field(owned("Length"), format_duration_secs(total / 1000), true).field(
        owned("Artists"),
        artist_links(&a.artists),
        true,
    ).field(owned("Release Date"), date_string(a.release), true);
    let e = e.field(owned("Popularity"), popularity, true).field(owned("Markets"), crate::text::decimal_string(a.markets), true).field(
        owned("Tracks"),
        crate::text::decimal_string(a.track_count),
        true,
    );
    e.description(join(&lines, "\n")).footer(copyright_string(&a.first_copyright, a.label.as_str()))
}

/// A prefix of the tracks is no longer than the whole.
pub proof fn lemma_total_prefix(ts: Seq<AlbumTrack>, n: int)
    requires
        0 <= n <= ts.len(),
    ensures
        total_ms(ts.take(n)) <= total_ms(ts),
    decreases ts.len() - n,
{
    if n < ts.len() {
        lemma_total_prefix(ts, n + 1);
        assert(ts.take(n + 1).drop_last() =~= ts.take(n));
    } else {
        assert(ts.take(n) =~= ts);
    }
}

/// The answers before a search: no name given.
pub fn no_track_name() -> (r: Reply)
    ensures
        r@ == ReplyView::Say("No track name provided. Please provide one & try again."@),
{
    crate::embed::say(owned("No track name provided. Please provide one & try again."))
}

pub fn no_album_name() -> (r: Reply)
    ensures
        r@ == ReplyView::Say("No album name provided. Please provide one & try again."@),
{
    crate::embed::say(owned("No album name provided. Please provide one & try again."))
}

/// The answers to a search that found nothing.
pub fn no_track_found(query: &str) -> (r: Reply)
    ensures
        r@ == ReplyView::Say("No track was found for `"@ + query@ + "`. Try something else."@),
{
    let mut s = owned("No track was found for `");
    push_str(&mut s, query);
    push_str(&mut s, "`. Try something else.");
    crate::embed::say(s)
}

pub fn no_album_found(query: &str) -> (r: Reply)
    ensures
        r@ == ReplyView::Say("No album found for `"@ + query@ + "`. Try a different name."@),
{
    let mut s = owned("No album found for `");
    push_str(&mut s, query);
    push_str(&mut s, "`. Try a different name.");
    crate::embed::say(s)
}

/// The answer to the bare `spotify` command.
pub fn no_subcommand() -> (r: Reply)
    ensures
        r@ == ReplyView::Say("No valid subcommand provided. Do `help spotify` to see the commands."@),
{
    crate::embed::say(owned("No valid subcommand provided. Do `help spotify` to see the commands."))
}

// ---------------------------------------------------------------------------
// The Spotify status of a member
// ---------------------------------------------------------------------------

/// Whole seconds of a millisecond count that Discord sent as an unsigned
/// number and the bot reads as a signed one (`ms as i64 / 1000`, rounding
/// toward zero).
pub open spec fn signed_secs(ms: u64) -> int {
    let v = (ms as i64) as int;
    if v >= 0 { v / 1000 } else { -((-v) / 1000) }
}

pub fn signed_seconds(ms: u64) -> (s: i64)
    ensures
        s == signed_secs(ms),
{
    let v = ms as i64;
    if v >= 0 {
        v / 1000
    } else {
        let w: i128 = 0i128 - (v as i128);
        (0i128 - w / 1000) as i64
    }
}

/// The length pattern: seconds below a minute, hours above an hour.
pub open spec fn length_pattern(d: int) -> Seq<char> {
    if d < 60 {
        "%-S seconds"@
    } else if d > 3600 {
        "%-H hour(s), %-M minutes, %-S seconds"@
    } else {
        "%-M minutes, %-S seconds"@
    }
}

pub open spec fn track_secs(a: Activity) -> int {
    signed_secs(a.end_ms.unwrap()) - signed_secs(a.start_ms.unwrap())
}

/// A Spotify activity carries everything the card reads, and its times
/// are ones the clock library can hold.
pub open spec fn spotify_activity_ok(a: Activity) -> bool {
    &&& a.details is Some
    &&& a.state is Some
    &&& a.large_text is Some
    &&& a.large_image is Some
    &&& a.sync_id is Some
    &&& a.start_ms is Some
    &&& a.end_ms is Some
    &&& utc_in_range(signed_secs(a.start_ms.unwrap()))
    &&& utc_in_range(signed_secs(a.end_ms.unwrap()))
    &&& utc_in_range(track_secs(a))
}

pub open spec fn spotify_icon() -> Seq<char> {
    "https://upload.wikimedia.org/wikipedia/commons/7/71/Spotify.png"@
}

pub open spec fn status_view(name: Seq<char>, a: Activity) -> EmbedView {
    EmbedView::blank().set_author(
        AuthorView { name: "Now playing on Spotify for "@ + name + ":"@, url: None, icon_url: Some(spotify_icon()) },
    ).set_title(a.details.unwrap()@).set_color(SPOTIFY_GREEN).set_url(
        "https://open.spotify.com/track/"@ + a.sync_id.unwrap()@,
    ).set_description("**"@ + artists_text(a.state.unwrap()@) + "** | "@ + a.large_text.unwrap()@).set_thumbnail(
        "https://i.scdn.co/image/"@ + replaced(a.large_image.unwrap()@, "spotify:"@, Seq::empty()),
    ).set_footer("Length: "@ + utc_text(track_secs(a), length_pattern(track_secs(a))))
}

/// The first Spotify activity is at `i`.
pub open spec fn first_spotify(acts: Seq<Activity>, i: int) -> bool {
    &&& 0 <= i < acts.len()
    &&& is_spotify(acts[i])
    &&& forall|j: int| 0 <= j < i ==> !is_spotify(#[trigger] acts[j])
}

pub open spec fn status_ok(presence: Option<Presence>) -> bool {
    presence matches Some(p) ==> forall|i: int| first_spotify(p.activities@, i) ==> spotify_activity_ok(p.activities@[i])
}

/// The status command's answer for a member named `name`: refused for a
/// member on the deny list, else the member's Spotify card or why there is
/// none.
pub open spec fn status_reply_ok(name: Seq<char>, denied: bool, presence: Option<Presence>, r: ReplyView) -> bool {
    if denied {
        r == ReplyView::Respond("This user's status cannot be viewed; they are in the deny list."@)
    } else {
        match presence {
            None => r == ReplyView::Respond("**"@ + name + "** is currently offline / doesn't have a presence."@),
            Some(p) => if p.activities@.len() == 0 {
                r == ReplyView::Respond("**"@ + name + "** does not have an active activity."@)
            } else if forall|i: int| 0 <= i < p.activities@.len() ==> !is_spotify(#[trigger] p.activities@[i]) {
                r == ReplyView::Respond("**"@ + name + "** is not currently playing anything on Spotify."@)
            } else {
                exists|i: int| first_spotify(p.activities@, i) && r == ReplyView::Post(status_view(name, p.activities@[i]), Seq::empty())
            },
        }
    }
}

fn named_notice(name: &str, text: &str) -> (r: Reply)
    ensures
        r@ == ReplyView::Respond("**"@ + name@ + text@),
{
    let mut s = owned("**");
    push_str(&mut s, name);
    push_str(&mut s, text);
    crate::embed::respond(s)
}

/// The Spotify card for an activity.
pub fn status_embed(name: &str, a: &Activity) -> (e: Embed)
    requires
        spotify_activity_ok(*a),
    ensures
        e@ == status_view(name@, *a),
{
    let start = signed_seconds(*a.start_ms.as_ref().unwrap());
    let end = signed_seconds(*a.end_ms.as_ref().unwrap());
    let d = end - start;
    let length = if d < 60 {
        utc_string(d, "%-S seconds")
    } else if d > 3600 {
        utc_string(d, "%-H hour(s), %-M minutes, %-S seconds")
    } else {
        utc_string(d, "%-M minutes, %-S seconds")
    };
    let mut footer = owned("Length: ");
    push_str(&mut footer, length.as_str());
    let mut author = owned("Now playing on Spotify for ");
    push_str(&mut author, name);
    push_str(&mut author, ":");
    let mut url = owned("https://open.spotify.com/track/");
    push_str(&mut url, a.sync_id.as_ref().unwrap().as_str());
    let artists = spotify_artists(a.state.as_ref().unwrap().as_str());
    let mut description = owned("**");
    push_str(&mut description, artists.as_str());
    push_str(&mut description, "** | ");
    push_str(&mut description, a.large_text.as_ref().unwrap().as_str());
    proof {
        reveal_strlit("spotify:");
        reveal_strlit("");
    }
    let art = replace(a.large_image.as_ref().unwrap().as_str(), "spotify:", "");
    assert(""@ =~= Seq::<char>::empty());
    let mut thumbnail = owned("https://i.scdn.co/image/");
    push_str(&mut thumbnail, art.as_str());
    let head = EmbedAuthor::named(author).with_icon(owned("https://upload.wikimedia.org/wikipedia/commons/7/71/Spotify.png"));
    Embed::new().author(head).title(a.details.as_ref().unwrap().clone()).color(SPOTIFY_GREEN).url(url).description(
        description,
    ).thumbnail(thumbnail).footer(footer)
}

/// What the status command answers.
pub fn status_reply(name: &str, denied: bool, presence: &Option<Presence>) -> (r: Reply)
    requires
        denied || status_ok(*presence),
    ensures
        status_reply_ok(name@, denied, *presence, r@),
{
    if denied {
        return crate::embed::respond(owned("This user's status cannot be viewed; they are in the deny list."));
    }
    match presence {
        None => named_notice(name, "** is currently offline / doesn't have a presence."),
        Some(p) => {
            if p.activities.len() == 0 {
                return named_notice(name, "** does not have an active activity.");
            }
            let ghost acts = p.activities@;
            assert(forall|k: int| first_spotify(acts, k) ==> spotify_activity_ok(acts[k]));
            let mut i: usize = 0;
            while i < p.activities.len()
                invariant
                    acts == p.activities@,
                    !denied,
                    *presence == Some(*p),
                    acts.len() > 0,
                    forall|k: int| first_spotify(acts, k) ==> spotify_activity_ok(acts[k]),
                    i <= p.activities@.len(),
                    forall|j: int| 0 <= j < i ==> !is_spotify(#[trigger] p.activities@[j]),
                decreases p.activities@.len() - i,
            {
                if crate::text::same_text(p.activities[i].name.as_str(), "Spotify") {
                    assert(first_spotify(p.activities@, i as int));
                    let e = status_embed(name, &p.activities[i]);
                    return crate::embed::post(e);
                }
                i = i + 1;
            }
            named_notice(name, "** is not currently playing anything on Spotify.")
        },
    }
}

// ---------------------------------------------------------------------------
// New releases
// ---------------------------------------------------------------------------

/// What is said of the market argument before any lookup: `None` when it
/// is two bytes long.
pub open spec fn market_refusal(market: &str) -> Option<Seq<char>> {
    if market@.len() == 0 {
        Some("You did not provide a valid market name."@)
    } else if market.len() != 2 {
        Some("The market name you provided is more or less than 2 characters long."@)
    } else {
        None
    }
}

pub fn check_market(market: &str) -> (r: Option<Reply>)
    ensures
        r is None <==> market_refusal(market) is None,
        r matches Some(reply) ==> reply@ == ReplyView::Say(market_refusal(market).unwrap()),
{
    if market.is_empty() {
        Some(crate::embed::say(owned("You did not provide a valid market name.")))
    } else if market.len() != 2 {
        Some(crate::embed::say(owned("The market name you provided is more or less than 2 characters long.")))
    } else {
        None
    }
}

/// The ISO 3166 country a market stands for.
#[verifier::external_type_specification]
#[verifier::external_body]
pub struct ExCountryCode(aspotify::CountryCode);

/// Whether a two-letter text names an ISO 3166 country, in either case.
pub uninterp spec fn alpha2_known(market: Seq<char>) -> bool;

/// The English name that ISO 3166 gives the country with this two-letter
/// code.
pub uninterp spec fn country_name_text(code: Seq<char>) -> Seq<char>;

/// `aspotify::CountryCode::for_alpha2_caseless` (isocountry), with the
/// country's `alpha2` code and `name` of the result. The crate upper-cases
/// the text (`str::to_uppercase`) and looks it up among the alpha-2 codes,
/// so the code found is the upper-cased text; for an ASCII text that is the
/// text with its letters in upper case. Which codes are known, and each
/// country's name, are named, not stated.
#[verifier::external_body]
fn country_for(market: &str) -> (r: Option<(aspotify::CountryCode, String, String)>)
    ensures
        r is Some <==> alpha2_known(market@),
        r matches Some(found) ==> (is_ascii_text(market@) ==> found.1@ == upper_text(market@)),
        r matches Some(found) ==> found.2@ == country_name_text(found.1@),
{
    match aspotify::CountryCode::for_alpha2_caseless(market) {
        Ok(c) => Some((c, c.alpha2().to_string(), c.name().to_string())),
        Err(_) => None,
    }
}

/// The country a market names: the country itself (for the Spotify
/// request), its two-letter code and its name.
pub struct Market {
    pub country: aspotify::CountryCode,
    pub code: String,
    pub name: String,
}

/// What becomes of the market argument of the new-releases command.
pub enum MarketCheck {
    /// Refused before any lookup, with this answer.
    Refused(Reply),
    /// Two bytes long, but no country's code: the command cannot go on.
    Unknown,
    /// The country whose releases are listed.
    Country(Market),
}

/// The market argument checked: its length first, then the country code.
/// The country found has the market, upper-cased, as its code.
pub fn market_country(market: &str) -> (r: MarketCheck)
    ensures
        r matches MarketCheck::Refused(reply) <==> market_refusal(market) is Some,
        r matches MarketCheck::Refused(reply) ==> reply@ == ReplyView::Say(market_refusal(market).unwrap()),
        r is Unknown <==> market_refusal(market) is None && !alpha2_known(market@),
        r is Country <==> market_refusal(market) is None && alpha2_known(market@),
        r matches MarketCheck::Country(m) ==> (is_ascii_text(market@) ==> m.code@ == upper_text(market@)),
        r matches MarketCheck::Country(m) ==> m.name@ == country_name_text(m.code@),
{
    match check_market(market) {
        Some(reply) => MarketCheck::Refused(reply),
        None => match country_for(market) {
            Some((country, code, name)) => MarketCheck::Country(Market { country, code, name }),
            None => MarketCheck::Unknown,
        },
    }
}

/// One new release.
pub struct NewRelease {
    pub name: String,
    pub artists: Vec<String>,
    /// The release date, in days after 1970-01-01.
    pub release: i32,
}

pub open spec fn release_line(r: NewRelease) -> Seq<char> {
    "**"@ + r.name@ + "** \u{2014} "@ + joined(views(r.artists@), ", "@) + " \u{2014} "@ + utc_text(
        r.release * 86400,
        "%B %-d, %Y"@,
    )
}

pub open spec fn release_lines(rs: Seq<NewRelease>) -> Seq<Seq<char>> {
    rs.map_values(|r: NewRelease| release_line(r))
}

pub open spec fn new_releases_view(country: Seq<char>, rs: Seq<NewRelease>) -> EmbedView {
    EmbedView::blank().set_title("New Releases on Spotify for "@ + country).set_color(SPOTIFY_GREEN).set_description(
        joined(release_lines(rs), "\n"@),
    ).set_footer("Powered by the Spotify Web API."@)
}

fn release_string(r: &NewRelease) -> (s: String)
    requires
        utc_in_range(r.release * 86400),
    ensures
        s@ == release_line(*r),
{
    let mut s = owned("**");
    push_str(&mut s, r.name.as_str());
    push_str(&mut s, "** \u{2014} ");
    let artists = join(&r.artists, ", ");
    push_str(&mut s, artists.as_str());
    push_str(&mut s, " \u{2014} ");
    let secs = (r.release as i64) * 86400;
    let date = utc_string(secs, "%B %-d, %Y");
    push_str(&mut s, date.as_str());
    s
}

/// The list of new releases in the country of a market.
pub fn new_releases_embed(market: &Market, releases: &Vec<NewRelease>) -> (e: Embed)
    requires
        forall|i: int| 0 <= i < releases@.len() ==> utc_in_range((#[trigger] releases@[i]).release * 86400),
    ensures
        e@ == new_releases_view(market.name@, releases@),
{
    let mut lines: Vec<String> = Vec::new();
    let mut i: usize = 0;
    while i < releases.len()
        invariant
            i <= releases@.len(),
            forall|k: int| 0 <= k < releases@.len() ==> utc_in_range((#[trigger] releases@[k]).release * 86400),
            views(lines@) == release_lines(releases@.take(i as int)),
        decreases releases@.len() - i,
    {
        let ghost before = lines@;
        lines.push(release_string(&releases[i]));
        assert(views(lines@) =~= views(before).push(release_line(releases@[i as int])));
        assert(release_lines(releases@.take(i + 1)) =~= release_lines(releases@.take(i as int)).push(
            release_line(releases@[i as int]),
        ));
        i = i + 1;
    }
    assert(releases@.take(releases@.len() as int) =~= releases@);
    let mut title = owned("New Releases on Spotify for ");
    push_str(&mut title, market.name.as_str());
    Embed::new().title(title).color(SPOTIFY_GREEN).description(join(&lines, "\n")).footer(
        owned("Powered by the Spotify Web API."),
    )
}

// ---------------------------------------------------------------------------
// Credits and artists
// ---------------------------------------------------------------------------

/// The credits Spotify's web player shows for a track.
pub struct Credits {
    pub label: String,
    pub track_uri: String,
    pub track_title: String,
    pub role_credits: Vec<Role>,
    pub source: Source,
}

/// One role (writer, producer, ...) and who filled it.
pub struct Role {
    pub role_title: String,
    pub artists: Vec<Artist>,
}

pub struct Artist {
    pub uri: String,
    pub name: String,
    pub subroles: Vec<String>,
}

/// Where the credits come from.
pub struct Source {
    pub label: String,
    pub value: String,
}

pub open spec fn red() -> u32 {
    0x00FF_0000
}

/// A search term as the Spotify lookups send it: percent-encoded.
pub fn search_term(rest: &str) -> (s: String)
    ensures
        s@ == percent_bytes(rest.spec_bytes()),
{
    percent_encode(rest)
}

pub fn no_credits_track_embed() -> (e: Embed)
    ensures
        e@ == EmbedView::blank().set_title("Error: No track name provided."@).set_description(
            "You did not provide a track name. Please enter one and then try again."@,
        ),
{
    Embed::new().title(owned("Error: No track name provided.")).description(
        owned("You did not provide a track name. Please enter one and then try again."),
    )
}

/// The answer to a credits search that found nothing, quoting the encoded
/// term.
pub fn credits_not_found_embed(term: &str) -> (e: Embed)
    ensures
        e@ == EmbedView::blank().set_title("Error: No track found."@).set_color(red()).set_description(
            "I was unable to to find a track on Spotify matching the term `"@ + term@
                + "`. Please try looking for a different track, or try again later."@,
        ),
{
    let mut d = owned("I was unable to to find a track on Spotify matching the term `");
    push_str(&mut d, term);
    push_str(&mut d, "`. Please try looking for a different track, or try again later.");
    Embed::new().title(owned("Error: No track found.")).color(0x00FF_0000).description(d)
}

/// An artist's page, from the id in a `spotify:artist:` uri.
pub open spec fn artist_page(uri: Seq<char>) -> Seq<char> {
    "https://open.spotify.com/artist/"@ + replaced(uri, "spotify:artist:"@, Seq::empty())
}

pub open spec fn credit_lines(artists: Seq<Artist>) -> Seq<Seq<char>> {
    artists.map_values(|a: Artist| link_line(a.name@, artist_page(a.uri@)))
}

/// The fields of the credits: one per role that names anyone.
pub open spec fn credit_fields(roles: Seq<Role>) -> Seq<crate::embed::FieldView>
    decreases roles.len(),
{
    if roles.len() == 0 {
        Seq::empty()
    } else {
        let last = roles.last();
        credit_fields(roles.drop_last()) + if last.artists@.len() > 0 {
            seq![crate::embed::fv(last.role_title@, joined(credit_lines(last.artists@), "\n"@), true)]
        } else {
            Seq::empty()
        }
    }
}

pub open spec fn credits_view(
    track_name: Seq<char>,
    track_artist: Seq<char>,
    image: Seq<char>,
    url: Seq<char>,
    c: Credits,
) -> EmbedView {
    EmbedView::blank().set_title("Credits for "@ + track_name + " by "@ + track_artist).set_color(SPOTIFY_GREEN).set_thumbnail(
        image,
    ).set_url(url).add_fields(credit_fields(c.role_credits@)).set_footer(
        "Credits provided by "@ + c.source.value@ + " | Powered by the Spotify API."@,
    )
}

fn credit_artists(artists: &Vec<Artist>) -> (s: String)
    ensures
        s@ == joined(credit_lines(artists@), "\n"@),
{
    let mut parts: Vec<String> = Vec::new();
    let mut i: usize = 0;
    proof {
        reveal_strlit("spotify:artist:");
        reveal_strlit("");
    }
    assert(""@ =~= Seq::<char>::empty());
    while i < artists.len()
        invariant
            i <= artists@.len(),
            ""@ == Seq::<char>::empty(),
            "spotify:artist:"@.len() > 0,
            views(parts@) == credit_lines(artists@.take(i as int)),
        decreases artists@.len() - i,
    {
        let a = &artists[i];
        let id = replace(a.uri.as_str(), "spotify:artist:", "");
        let mut page = owned("https://open.spotify.com/artist/");
        push_str(&mut page, id.as_str());
        let ghost before = parts@;
        parts.push(link_string(a.name.as_str(), page.as_str()));
        assert(views(parts@) =~= views(before).push(link_line(a.name@, artist_page(a.uri@))));
        assert(credit_lines(artists@.take(i + 1)) =~= credit_lines(artists@.take(i as int)).push(
            link_line(artists@[i as int].name@, artist_page(artists@[i as int].uri@)),
        ));
        i = i + 1;
    }
    assert(artists@.take(artists@.len() as int) =~= artists@);
    join(&parts, "\n")
}

/// The credits message of a track.
pub fn credits_embed(track_name: &str, track_artist: &str, image: &str, url: &str, c: &Credits) -> (e: Embed)
    ensures
        e@ == credits_view(track_name@, track_artist@, image@, url@, *c),
{
    let mut fields: Vec<crate::embed::EmbedField> = Vec::new();
    let mut i: usize = 0;
    while i < c.role_credits.len()
        invariant
            i <= c.role_credits@.len(),
            crate::embed::field_views(fields@) == credit_fields(c.role_credits@.take(i as int)),
        decreases c.role_credits@.len() - i,
    {
        let role = &c.role_credits[i];
        assert(c.role_credits@.take(i + 1).drop_last() =~= c.role_credits@.take(i as int));
        if role.artists.len() > 0 {
            let value = credit_artists(&role.artists);
            crate::embed::push_field(&mut fields, role.role_title.clone(), value, true);
        } else {
            assert(credit_fields(c.role_credits@.take(i as int)) + Seq::<crate::embed::FieldView>::empty()
                =~= credit_fields(c.role_credits@.take(i as int)));
        }
        i = i + 1;
    }
    assert(c.role_credits@.take(c.role_credits@.len() as int) =~= c.role_credits@);
    let mut title = owned("Credits for ");
    push_str(&mut title, track_name);
    push_str(&mut title, " by ");
    push_str(&mut title, track_artist);
    let mut footer = owned("Credits provided by ");
    push_str(&mut footer, c.source.value.as_str());
    push_str(&mut footer, " | Powered by the Spotify API.");
    Embed::new().title(title).color(SPOTIFY_GREEN).thumbnail(owned(image)).url(owned(url)).fields(fields).footer(footer)
}

pub fn no_artist_name_embed() -> (e: Embed)
    ensures
        e@ == EmbedView::blank().set_title("Error: No artist name provided."@).set_color(red()).set_description(
            "You did not provide a artist name. Please enter one and then try again."@,
        ),
{
    Embed::new().title(owned("Error: No artist name provided.")).color(0x00FF_0000).description(
        owned("You did not provide a artist name. Please enter one and then try again."),
    )
}

pub fn artist_not_found_embed(term: &str) -> (e: Embed)
    ensures
        e@ == EmbedView::blank().set_title("Error: No artist found."@).set_color(red()).set_description(
            "I was unable to to find an artist on Spotify matching the term `"@ + term@
                + "`. Please try looking for a different album, or try again later."@,
        ),
{
    let mut d = owned("I was unable to to find an artist on Spotify matching the term `");
    push_str(&mut d, term);
    push_str(&mut d, "`. Please try looking for a different album, or try again later.");
    Embed::new().title(owned("Error: No artist found.")).color(0x00FF_0000).description(d)
}

/// What the artist card shows.
pub struct ArtistCard {
    pub id: String,
    pub name: String,
    pub url: String,
    pub image: String,
    pub genres: Vec<String>,
    pub followers: u64,
    pub listeners: u64,
    /// The place in the global chart; below one means unranked.
    pub chart_position: u64,
}

pub open spec fn genres_text(genres: Seq<String>) -> Seq<char> {
    if genres.len() > 0 { joined(views(genres), "\n "@) } else { "N/A"@ }
}

pub open spec fn chart_text(position: u64) -> Seq<char> {
    if position < 1 { "N/A"@ } else { "#"@ + grouped(position as nat) }
}

pub open spec fn artist_view(a: ArtistCard) -> EmbedView {
    EmbedView::blank().set_title(a.name@).set_url(a.url@).set_thumbnail(a.image@).set_color(SPOTIFY_GREEN).add_field(
        "Listeners"@,
        grouped(a.listeners as nat),
        true,
    ).add_field("Followers"@, grouped(a.followers as nat), true).add_field("Position"@, chart_text(a.chart_position), true).add_field(
        "Genres"@,
        genres_text(a.genres@),
        true,
    ).set_footer("Spotify ID: "@ + a.id@ + " | Powered by the Spotify API."@)
}

/// The artist card.
pub fn artist_embed(a: &ArtistCard) -> (e: Embed)
    ensures
        e@ == artist_view(*a),
{
    let genres = if a.genres.len() > 0 { join(&a.genres, "\n ") } else { owned("N/A") };
    let position = if a.chart_position < 1 {
        owned("N/A")
    } else {
        let mut s = owned("#");
        push_grouped(&mut s, a.chart_position);
        s
    };
    let mut footer = owned("Spotify ID: ");
    push_str(&mut footer, a.id.as_str());
    push_str(&mut footer, " | Powered by the Spotify API.");
    Embed::new().title(a.name.clone()).url(a.url.clone()).thumbnail(a.image.clone()).color(SPOTIFY_GREEN).field(
        owned("Listeners"),
        crate::text::format_int(a.listeners),
        true,
    ).field(owned("Followers"), crate::text::format_int(a.followers), true).field(owned("Position"), position, true).field(
        owned("Genres"),
        genres,
        true,
    ).footer(footer)
}

// ---------------------------------------------------------------------------
// The earlier album and track cards
// ---------------------------------------------------------------------------

/// A release date as the earlier cards write it: a `%Y-%m-%d` date as
/// "Month day, year" without surrounding white space; anything else as it
/// came.
pub open spec fn legacy_date_text(s: Seq<char>) -> Seq<char> {
    match ymd_days(s) {
        Some(d) => trimmed(utc_text(d * 86400, "%B %-e, %Y"@)),
        None => s,
    }
}

pub fn legacy_date(s: &str) -> (r: String)
    ensures
        r@ == legacy_date_text(s@),
{
    match parse_ymd(s) {
        Some(d) => {
            let secs = (d as i64) * 86400;
            let text = utc_string(secs, "%B %-e, %Y");
            trim(text.as_str())
        },
        None => owned(s),
    }
}

/// The album type as the earlier card names it.
pub open spec fn legacy_kind_text(kind: Seq<char>) -> Seq<char> {
    if kind == "album"@ {
        "Album"@
    } else if kind == "single"@ {
        "Single"@
    } else if kind == "appears_on"@ {
        "Appears On"@
    } else if kind == "compilation"@ {
        "Compilation"@
    } else {
        kind
    }
}

pub fn legacy_kind(kind: &str) -> (r: String)
    ensures
        r@ == legacy_kind_text(kind@),
{
    if same_text(kind, "album") {
        owned("Album")
    } else if same_text(kind, "single") {
        owned("Single")
    } else if same_text(kind, "appears_on") {
        owned("Appears On")
    } else if same_text(kind, "compilation") {
        owned("Compilation")
    } else {
        owned(kind)
    }
}

/// The market count; all 79 markets are called worldwide.
pub open spec fn legacy_markets_text(n: u64) -> Seq<char> {
    if n == 79 { decimal(n as nat) + " (Worldwide)"@ } else { decimal(n as nat) }
}

pub fn legacy_markets(n: u64) -> (r: String)
    ensures
        r@ == legacy_markets_text(n),
{
    let mut s = crate::text::decimal_string(n);
    if n == 79 {
        push_str(&mut s, " (Worldwide)");
    }
    s
}

/// What the earlier album card shows.
pub struct LegacyAlbum {
    pub name: String,
    pub url: String,
    pub image: String,
    /// The album type as Spotify spells it.
    pub kind: String,
    pub artists: Vec<SpotifyLink>,
    pub release_date: String,
    pub markets: u64,
    pub track_total: u64,
    pub tracks: Vec<AlbumTrack>,
    pub first_copyright: Option<String>,
    pub label: String,
}

pub open spec fn legacy_track_line(t: AlbumTrack) -> Seq<char> {
    "**"@ + decimal(t.position as nat) + ".** "@ + link_line(t.name@, t.url@) + " "@ + (if t.explicit {
        "\u{2014} Explicit"@
    } else {
        Seq::empty()
    }) + " \u{2014} "@ + length_text(t.duration_ms)
}

pub open spec fn legacy_track_lines(ts: Seq<AlbumTrack>) -> Seq<Seq<char>> {
    ts.map_values(|t: AlbumTrack| legacy_track_line(t))
}

pub open spec fn legacy_album_view(a: LegacyAlbum) -> EmbedView {
    EmbedView::blank().set_title(a.name@).set_url(a.url@).set_color(0x1DB954).set_thumbnail(a.image@).set_description(
        "**Album type**: "@ + legacy_kind_text(a.kind@) + "\n**Artist(s)**: "@ + artist_links_text(a.artists@)
            + "\n**Release date**: "@ + legacy_date_text(a.release_date@) + "\n**Markets**: "@ + legacy_markets_text(
            a.markets,
        ) + "\n**Track count**: "@ + decimal(a.track_total as nat) + "\n\n**Tracks**: \n"@ + joined(
            legacy_track_lines(a.tracks@),
            "\n"@,
        ) + "\n"@,
    ).set_footer(copyright_text(a.first_copyright.deep_view(), a.label@))
}

fn legacy_track_string(t: &AlbumTrack) -> (s: String)
    ensures
        s@ == legacy_track_line(*t),
{
    let mut s = owned("**");
    push_decimal(&mut s, t.position);
    push_str(&mut s, ".** ");
    let link = link_string(t.name.as_str(), t.url.as_str());
    push_str(&mut s, link.as_str());
    push_str(&mut s, " ");
    if t.explicit {
        push_str(&mut s, "\u{2014} Explicit");
    }
    push_str(&mut s, " \u{2014} ");
    let length = length_string(t.duration_ms);
    push_str(&mut s, length.as_str());
    assert(s@ =~= legacy_track_line(*t));
    s
}

/// The earlier album card.
pub fn legacy_album_embed(a: &LegacyAlbum) -> (e: Embed)
    ensures
        e@ == legacy_album_view(*a),
{
    let mut lines: Vec<String> = Vec::new();
    let mut i: usize = 0;
    while i < a.tracks.len()
        invariant
            i <= a.tracks@.len(),
            views(lines@) == legacy_track_lines(a.tracks@.take(i as int)),
        decreases a.tracks@.len() - i,
    {
        let ghost before = lines@;
        lines.push(legacy_track_string(&a.tracks[i]));
        assert(views(lines@) =~= views(before).push(legacy_track_line(a.tracks@[i as int])));
        assert(legacy_track_lines(a.tracks@.take(i + 1)) =~= legacy_track_lines(a.tracks@.take(i as int)).push(
            legacy_track_line(a.tracks@[i as int]),
        ));
        i = i + 1;
    }
    assert(a.tracks@.take(a.tracks@.len() as int) =~= a.tracks@);
    let mut d = owned("**Album type**: ");
    let kind = legacy_kind(a.kind.as_str());
    push_str(&mut d, kind.as_str());
    push_str(&mut d, "\n**Artist(s)**: ");
    let artists = artist_links(&a.artists);
    push_str(&mut d, artists.as_str());
    push_str(&mut d, "\n**Release date**: ");
    let date = legacy_date(a.release_date.as_str());
    push_str(&mut d, date.as_str());
    push_str(&mut d, "\n**Markets**: ");
    let markets = legacy_markets(a.markets);
    push_str(&mut d, markets.as_str());
    push_str(&mut d, "\n**Track count**: ");
    push_decimal(&mut d, a.track_total);
    push_str(&mut d, "\n\n**Tracks**: \n");
    let tracks = join(&lines, "\n");
    push_str(&mut d, tracks.as_str());
    push_str(&mut d, "\n");
    assert(d@ =~= legacy_album_view(*a).description.unwrap());
    Embed::new().title(a.name.clone()).url(a.url.clone()).color(0x1DB954).thumbnail(a.image.clone()).description(d).footer(
        copyright_string(&a.first_copyright, a.label.as_str()),
    )
}

/// What the earlier track card shows; the measured numbers come written
/// out.
pub struct LegacyTrack {
    pub name: String,
    pub url: String,
    pub image: String,
    pub artists: Vec<SpotifyLink>,
    pub album: SpotifyLink,
    pub position: u64,
    pub popularity: u32,
    pub explicit: bool,
    pub release_date: String,
    pub preview: String,
    pub markets: u64,
    pub duration_ms: u64,
    pub loudness: String,
    pub key: u32,
    pub key_confidence: String,
    /// The mode as Spotify numbers it (0 minor, 1 major), written out for
    /// other values.
    pub mode: Option<u32>,
    pub mode_written: String,
    pub mode_confidence: String,
    pub tempo: String,
    pub tempo_confidence: String,
    pub time_signature: String,
    pub time_signature_confidence: String,
}

pub open spec fn legacy_mode_text(mode: Option<u32>, written: Seq<char>) -> Seq<char> {
    match mode {
        Some(0) => "Minor"@,
        Some(1) => "Major"@,
        _ => written,
    }
}

pub open spec fn legacy_track_text(t: LegacyTrack) -> Seq<char> {
    "**Artist(s)**: "@ + artist_links_text(t.artists@) + "\n**Album**: "@ + link_line(t.album.name@, t.album.url@)
        + " (track #"@ + decimal(t.position as nat) + ")\n**Popularity**: "@ + decimal(t.popularity as nat)
        + "\n**Explicit?**: "@ + (if t.explicit { "Yes"@ } else { "No"@ }) + "\n**Release date**: "@ + legacy_date_text(
        t.release_date@,
    ) + "\n**Play preview**: [click here]("@ + t.preview@ + ")\n**Markets**: "@ + decimal(t.markets as nat)
        + "\n**Length**: "@ + length_text(t.duration_ms) + "\n**Loudness**: "@ + t.loudness@ + " dB\n**Key**: "@
        + key_text(t.key) + " (confidence: "@ + t.key_confidence@ + ")\n**Mode**: "@ + legacy_mode_text(
        t.mode,
        t.mode_written@,
    ) + " (confidence: "@ + t.mode_confidence@ + ")\n**Tempo**: "@ + t.tempo@ + " (confidence: "@ + t.tempo_confidence@
        + ")\n**Time Signature**: "@ + t.time_signature@ + " (confidence: "@ + t.time_signature_confidence@
        + ")\n\n[Play "@ + t.name@ + " on Spotify \u{2192}]("@ + t.url@ + ")\n                "@
}

pub open spec fn legacy_track_view(t: LegacyTrack) -> EmbedView {
    EmbedView::blank().set_title(t.name@).set_url(t.url@).set_color(0x1DB954).set_thumbnail(t.image@).set_description(
        legacy_track_text(t),
    ).set_footer("Powered by the Spotify Web API."@)
}

/// The earlier track card.
pub fn legacy_track_embed(t: &LegacyTrack) -> (e: Embed)
    ensures
        e@ == legacy_track_view(*t),
{
    let mut d = owned("**Artist(s)**: ");
    let artists = artist_links(&t.artists);
    push_str(&mut d, artists.as_str());
    push_str(&mut d, "\n**Album**: ");
    let album = link_string(t.album.name.as_str(), t.album.url.as_str());
    push_str(&mut d, album.as_str());
    push_str(&mut d, " (track #");
    push_decimal(&mut d, t.position);
    push_str(&mut d, ")\n**Popularity**: ");
    push_decimal(&mut d, t.popularity as u64);
    push_str(&mut d, "\n**Explicit?**: ");
    push_str(&mut d, if t.explicit { "Yes" } else { "No" });
    push_str(&mut d, "\n**Release date**: ");
    let date = legacy_date(t.release_date.as_str());
    push_str(&mut d, date.as_str());
    push_str(&mut d, "\n**Play preview**: [click here](");
    push_str(&mut d, t.preview.as_str());
    push_str(&mut d, ")\n**Markets**: ");
    push_decimal(&mut d, t.markets);
    push_str(&mut d, "\n**Length**: ");
    let length = length_string(t.duration_ms);
    push_str(&mut d, length.as_str());
    push_str(&mut d, "\n**Loudness**: ");
    push_str(&mut d, t.loudness.as_str());
    push_str(&mut d, " dB\n**Key**: ");
    let key = key_string(t.key);
    push_str(&mut d, key.as_str());
    push_str(&mut d, " (confidence: ");
    push_str(&mut d, t.key_confidence.as_str());
    push_str(&mut d, ")\n**Mode**: ");
    match t.mode {
        Some(0) => push_str(&mut d, "Minor"),
        Some(1) => push_str(&mut d, "Major"),
        _ => push_str(&mut d, t.mode_written.as_str()),
    }
    push_str(&mut d, " (confidence: ");
    push_str(&mut d, t.mode_confidence.as_str());
    push_str(&mut d, ")\n**Tempo**: ");
    push_str(&mut d, t.tempo.as_str());
    push_str(&mut d, " (confidence: ");
    push_str(&mut d, t.tempo_confidence.as_str());
    push_str(&mut d, ")\n**Time Signature**: ");
    push_str(&mut d, t.time_signature.as_str());
    push_str(&mut d, " (confidence: ");
    push_str(&mut d, t.time_signature_confidence.as_str());
    push_str(&mut d, ")\n\n[Play ");
    push_str(&mut d, t.name.as_str());
    push_str(&mut d, " on Spotify \u{2192}](");
    push_str(&mut d, t.url.as_str());
    push_str(&mut d, ")\n                ");
    assert(d@ =~= legacy_track_text(*t));
    Embed::new().title(t.name.clone()).url(t.url.clone()).color(0x1DB954).thumbnail(t.image.clone()).description(d).footer(
        owned("Powered by the Spotify Web API."),
    )
}

/// The earlier cards' answers to a missing name.
pub fn legacy_no_name_embed(what: &str) -> (e: Embed)
    ensures
        e@ == EmbedView::blank().set_title("Error: No "@ + what@ + " name provided."@).set_description(
            "You did not provide "@ + (if what@ == "album"@ { "an "@ } else { "a "@ }) + what@
                + " name. Please enter one and then try again."@,
        ),
{
    let mut title = owned("Error: No ");
    push_str(&mut title, what);
    push_str(&mut title, " name provided.");
    let mut d = owned("You did not provide ");
    push_str(&mut d, if same_text(what, "album") { "an " } else { "a " });
    push_str(&mut d, what);
    push_str(&mut d, " name. Please enter one and then try again.");
    Embed::new().title(title).description(d)
}


/// The Keys field names Spotify's pitch class in standard notation: each
/// key 0..=11 starts with its natural note (C, C, D, D, E, F, F, G, G, A,
/// A, B), the black keys and only they carry a sharp, no two keys share a
/// name, and any other number is written as it is.
pub proof fn key_names_pitch_class()
    ensures
        forall|k: u32| k < 12 ==> (#[trigger] key_text(k))[0] == seq!['C', 'C', 'D', 'D', 'E', 'F', 'F', 'G', 'G', 'A', 'A', 'B'][k as int],
        forall|k: u32| k < 12 ==> (#[trigger] key_text(k)).contains('\u{266f}') == (k == 1 || k == 3 || k == 6 || k == 8 || k == 10),
        forall|i: u32, j: u32| i < 12 && j < 12 && i != j ==> #[trigger] key_text(i) != #[trigger] key_text(j),
        forall|k: u32| k >= 12 ==> #[trigger] key_text(k) == decimal(k as nat),
{
    reveal_strlit("C");
    reveal_strlit("C\u{266f}, D\u{266d}");
    reveal_strlit("D");
    reveal_strlit("D\u{266f}");
    reveal_strlit("E");
    reveal_strlit("F");
    reveal_strlit("F\u{266f}, G\u{266d}");
    reveal_strlit("G");
    reveal_strlit("G\u{266f}, A\u{266d}");
    reveal_strlit("A");
    reveal_strlit("A\u{266f}, B\u{266d}");
    reveal_strlit("B");
    assert forall|k: u32| k < 12 implies (#[trigger] key_text(k))[0] == seq!['C', 'C', 'D', 'D', 'E', 'F', 'F', 'G', 'G', 'A', 'A', 'B'][k as int]
        && key_text(k).contains('\u{266f}') == (k == 1 || k == 3 || k == 6 || k == 8 || k == 10)
        && (key_text(k).len() == 1 <==> !(k == 1 || k == 3 || k == 6 || k == 8 || k == 10)) by {
        if (k == 1 || k == 3 || k == 6 || k == 8 || k == 10) {
            assert(key_text(k)[1] == '\u{266f}');
        } else {
            assert(key_text(k).len() == 1);
            assert(key_text(k)[0] != '\u{266f}');
        }
    }
    assert forall|i: u32, j: u32| i < 12 && j < 12 && i != j implies #[trigger] key_text(i) != #[trigger] key_text(j) by {
        if key_text(i) == key_text(j) {
            assert(key_text(i)[0] == key_text(j)[0]);
            assert(key_text(i).len() == key_text(j).len());
        }
    }
}

} // verus!
