use ellie::embed::Reply;
use ellie::spotify::{
    album_embed, artist_embed, artist_links, check_market, copyright_string, credits_embed, key_string, legacy_album_embed,
    legacy_kind, legacy_markets, legacy_track_embed, market_country, new_releases_embed, MarketCheck, signed_seconds, spotify_artists, status_reply,
    track_embed, AlbumCard, AlbumKind, AlbumTrack, Artist, ArtistCard, Credits, LegacyAlbum, LegacyTrack, NewRelease, Role,
    Source, SpotifyLink, TrackCard,
};
use ellie::user_info::{Activity, ActivityKind, OnlineStatus, Presence};

fn link(name: &str, url: &str) -> SpotifyLink {
    SpotifyLink { name: name.to_string(), url: url.to_string() }
}

#[test]
fn artist_lists_read_naturally() {
    assert_eq!(spotify_artists("Daft Punk"), "Daft Punk");
    assert_eq!(spotify_artists("A; B"), "A & B");
    assert_eq!(spotify_artists("A; B; C"), "A, B, & C");
    assert_eq!(artist_links(&vec![link("A", "u1"), link("B", "u2")]), "[A](u1), [B](u2)");
}

#[test]
fn keys_and_copyrights() {
    assert_eq!(key_string(0), "C");
    assert_eq!(key_string(1), "C\u{266f}, D\u{266d}");
    assert_eq!(key_string(11), "B");
    assert_eq!(key_string(12), "12");
    assert_eq!(copyright_string(&Some("(C) 2020 X".to_string()), "Label"), "(C) 2020 X (Label)");
    assert_eq!(copyright_string(&None, "Label"), "Label");
}

fn track() -> TrackCard {
    TrackCard {
        name: "Song".to_string(),
        url: "t-url".to_string(),
        image: "cover".to_string(),
        artists: vec![link("A", "a-url")],
        album: link("Album", "al-url"),
        disc: 1,
        position: 3,
        release: 0,
        popularity: 77,
        explicit: true,
        preview: None,
        markets: 79,
        duration_ms: 201_500,
        loudness: "-5.2".to_string(),
        tempo: "120.01".to_string(),
        key: 6,
        major: true,
        time_signature: 4,
        first_copyright: None,
        label: "Label".to_string(),
    }
}

#[test]
fn track_card_fields() {
    let e = track_embed(&track());
    assert_eq!(e.color, Some(0x1DB954));
    let f: Vec<(&str, &str)> = e.fields.iter().map(|f| (f.name.as_str(), f.value.as_str())).collect();
    assert_eq!(
        f,
        vec![
            ("Artists", "[A](a-url)"),
            ("Album", "[Album](al-url)"),
            ("Disc", "1"),
            ("Position", "3"),
            ("Release Date", "1970-01-01"),
            ("Popularity", "77%"),
            ("Explicit", "true"),
            ("Song Preview", "No preview available."),
            ("Markets", "79"),
            ("Duration", "3m 21s"),
            ("Loudness", "-5.2 dB"),
            ("Keys", "F\u{266f}, G\u{266d}"),
            ("Mode", "Minor"),
            ("Tempo", "120.01"),
            ("Time Signature", "4"),
        ]
    );
    assert_eq!(e.footer.as_deref(), Some("Label"));
}

fn album(kind: AlbumKind, count: u64) -> AlbumCard {
    AlbumCard {
        name: "Record".to_string(),
        url: "r-url".to_string(),
        image: "cover".to_string(),
        kind,
        artists: vec![link("A", "a-url")],
        release: 0,
        popularity: 50,
        markets: 10,
        track_count: count,
        tracks: vec![
            AlbumTrack { name: "One".to_string(), url: "1".to_string(), position: 1, duration_ms: 60_000, explicit: false },
            AlbumTrack { name: "Two".to_string(), url: "2".to_string(), position: 2, duration_ms: 90_500, explicit: true },
        ],
        first_copyright: Some("(C) A".to_string()),
        label: "L".to_string(),
    }
}

#[test]
fn album_card_and_ep_rule() {
    let e = album_embed(&album(AlbumKind::Single, 2));
    assert_eq!(e.fields[0].value, "Extended Play (EP)");
    assert_eq!(e.fields[1].value, "2m 30s");
    assert_eq!(e.fields[6].value, "2");
    assert_eq!(
        e.description.as_deref(),
        Some("**1.** [One](1) \u{2014} 1m \n**2.** [Two](2) \u{2014} 1m 30s (explicit)")
    );
    assert_eq!(e.footer.as_deref(), Some("(C) A (L)"));
    assert_eq!(album_embed(&album(AlbumKind::Single, 1)).fields[0].value, "Single");
    assert_eq!(album_embed(&album(AlbumKind::Single, 7)).fields[0].value, "Single");
    assert_eq!(album_embed(&album(AlbumKind::Album, 2)).fields[0].value, "Album");
    assert_eq!(album_embed(&album(AlbumKind::Compilation, 2)).fields[0].value, "Compilation");
}

#[test]
fn credits_list_roles_with_people() {
    let c = Credits {
        label: "L".to_string(),
        track_uri: "spotify:track:1".to_string(),
        track_title: "Song".to_string(),
        role_credits: vec![
            Role {
                role_title: "Writers".to_string(),
                artists: vec![
                    Artist { uri: "spotify:artist:abc".to_string(), name: "Ann".to_string(), subroles: vec![] },
                    Artist { uri: "spotify:artist:def".to_string(), name: "Bob".to_string(), subroles: vec![] },
                ],
            },
            Role { role_title: "Producers".to_string(), artists: vec![] },
        ],
        source: Source { label: "Source".to_string(), value: "Label X".to_string() },
    };
    let e = credits_embed("Song", "Ann", "img", "url", &c);
    assert_eq!(e.title.as_deref(), Some("Credits for Song by Ann"));
    assert_eq!(e.fields.len(), 1);
    assert_eq!(e.fields[0].name, "Writers");
    assert_eq!(e.fields[0].value, "[Ann](https://open.spotify.com/artist/abc)\n[Bob](https://open.spotify.com/artist/def)");
    assert_eq!(e.footer.as_deref(), Some("Credits provided by Label X | Powered by the Spotify API."));
}

#[test]
fn artist_card() {
    let a = ArtistCard {
        id: "xyz".to_string(),
        name: "Band".to_string(),
        url: "b-url".to_string(),
        image: "img".to_string(),
        genres: vec![],
        followers: 1_000_000,
        listeners: 2500,
        chart_position: 0,
    };
    let e = artist_embed(&a);
    let values: Vec<&str> = e.fields.iter().map(|f| f.value.as_str()).collect();
    assert_eq!(values, vec!["2,500", "1,000,000", "N/A", "N/A"]);
    let mut b = a;
    b.chart_position = 1500;
    b.genres = vec!["rock".to_string(), "pop".to_string()];
    let e = artist_embed(&b);
    assert_eq!(e.fields[2].value, "#1,500");
    assert_eq!(e.fields[3].value, "rock\n pop");
    assert_eq!(e.footer.as_deref(), Some("Spotify ID: xyz | Powered by the Spotify API."));
}

fn spotify_activity(start: u64, end: u64) -> Activity {
    Activity {
        kind: ActivityKind::Listening,
        name: "Spotify".to_string(),
        details: Some("Song".to_string()),
        state: Some("A; B; C".to_string()),
        sync_id: Some("trk".to_string()),
        large_text: Some("Album".to_string()),
        large_image: Some("spotify:ab67".to_string()),
        small_text: None,
        start_ms: Some(start),
        end_ms: Some(end),
    }
}

fn text(r: &Reply) -> &str {
    match r {
        Reply::Say(s) | Reply::Respond(s) => s,
        Reply::Post(..) => panic!("expected text"),
    }
}

#[test]
fn status_of_a_listening_member() {
    let p = Some(Presence { status: OnlineStatus::Online, client_status: None, activities: vec![spotify_activity(1_000_000, 1_185_000)] });
    match status_reply("ann", false, &p) {
        Reply::Post(e, _) => {
            assert_eq!(e.author.as_ref().unwrap().name, "Now playing on Spotify for ann:");
            assert_eq!(e.title.as_deref(), Some("Song"));
            assert_eq!(e.url.as_deref(), Some("https://open.spotify.com/track/trk"));
            assert_eq!(e.description.as_deref(), Some("**A, B, & C** | Album"));
            assert_eq!(e.thumbnail.as_deref(), Some("https://i.scdn.co/image/ab67"));
            assert_eq!(e.footer.as_deref(), Some("Length: 3 minutes, 5 seconds"));
        },
        _ => panic!("expected the card"),
    }
    assert_eq!(text(&status_reply("ann", true, &p)), "This user's status cannot be viewed; they are in the deny list.");
    assert_eq!(text(&status_reply("ann", false, &None)), "**ann** is currently offline / doesn't have a presence.");
    let idle = Some(Presence { status: OnlineStatus::Idle, client_status: None, activities: vec![] });
    assert_eq!(text(&status_reply("ann", false, &idle)), "**ann** does not have an active activity.");
    let mut other = spotify_activity(0, 0);
    other.name = "Game".to_string();
    let gaming = Some(Presence { status: OnlineStatus::Online, client_status: None, activities: vec![other] });
    assert_eq!(text(&status_reply("ann", false, &gaming)), "**ann** is not currently playing anything on Spotify.");
}

#[test]
fn status_lengths() {
    let short = Some(Presence { status: OnlineStatus::Online, client_status: None, activities: vec![spotify_activity(0, 45_999)] });
    match status_reply("ann", false, &short) {
        Reply::Post(e, _) => assert_eq!(e.footer.as_deref(), Some("Length: 45 seconds")),
        _ => panic!(),
    }
    let long = Some(Presence { status: OnlineStatus::Online, client_status: None, activities: vec![spotify_activity(0, 3_725_000)] });
    match status_reply("ann", false, &long) {
        Reply::Post(e, _) => assert_eq!(e.footer.as_deref(), Some("Length: 1 hour(s), 2 minutes, 5 seconds")),
        _ => panic!(),
    }
    assert_eq!(signed_seconds(1999), 1);
    assert_eq!(signed_seconds(u64::MAX - 1998), -1);
}

#[test]
fn market_checks_and_releases() {
    assert_eq!(text(&check_market("").unwrap()), "You did not provide a valid market name.");
    assert_eq!(text(&check_market("USA").unwrap()), "The market name you provided is more or less than 2 characters long.");
    // Two bytes, one character: the length is counted in bytes.
    assert!(check_market("é").is_none());
    assert!(check_market("US").is_none());
    match market_country("gB") {
        MarketCheck::Country(m) => {
            assert_eq!(m.code, "GB");
            assert_eq!(m.name, "United Kingdom of Great Britain and Northern Ireland");
        },
        _ => panic!("gB is a country code"),
    }
    assert!(matches!(market_country("QQ"), MarketCheck::Unknown));
    match market_country("USA") {
        MarketCheck::Refused(reply) => assert_eq!(text(&reply), "The market name you provided is more or less than 2 characters long."),
        _ => panic!("three letters are refused"),
    }
    let r = vec![NewRelease { name: "New".to_string(), artists: vec!["A".to_string(), "B".to_string()], release: 0 }];
    let norway = match market_country("no") {
        MarketCheck::Country(m) => m,
        _ => panic!("no is Norway's code"),
    };
    assert_eq!(norway.code, "NO");
    assert_eq!(norway.name, "Norway");
    let e = new_releases_embed(&norway, &r);
    assert_eq!(e.title.as_deref(), Some("New Releases on Spotify for Norway"));
    assert_eq!(e.description.as_deref(), Some("**New** \u{2014} A, B \u{2014} January 1, 1970"));
}

#[test]
fn legacy_cards() {
    assert_eq!(legacy_kind("appears_on"), "Appears On");
    assert_eq!(legacy_kind("ep"), "ep");
    assert_eq!(legacy_markets(79), "79 (Worldwide)");
    assert_eq!(legacy_markets(78), "78");
    let a = LegacyAlbum {
        name: "Old".to_string(),
        url: "o".to_string(),
        image: "i".to_string(),
        kind: "album".to_string(),
        artists: vec![link("A", "a")],
        release_date: "2001-09-11".to_string(),
        markets: 79,
        track_total: 1,
        tracks: vec![AlbumTrack { name: "T".to_string(), url: "t".to_string(), position: 1, duration_ms: 5_000, explicit: true }],
        first_copyright: None,
        label: "L".to_string(),
    };
    let e = legacy_album_embed(&a);
    assert_eq!(
        e.description.as_deref(),
        Some("**Album type**: Album\n**Artist(s)**: [A](a)\n**Release date**: September 11, 2001\n**Markets**: 79 (Worldwide)\n**Track count**: 1\n\n**Tracks**: \n**1.** [T](t) \u{2014} Explicit \u{2014} 5s\n")
    );
    let t = LegacyTrack {
        name: "T".to_string(),
        url: "t".to_string(),
        image: "i".to_string(),
        artists: vec![link("A", "a")],
        album: link("Al", "al"),
        position: 2,
        popularity: 10,
        explicit: false,
        release_date: "2001".to_string(),
        preview: "p".to_string(),
        markets: 3,
        duration_ms: 1000,
        loudness: "-1".to_string(),
        key: 0,
        key_confidence: "0.5".to_string(),
        mode: Some(1),
        mode_written: "1".to_string(),
        mode_confidence: "0.4".to_string(),
        tempo: "99".to_string(),
        tempo_confidence: "0.3".to_string(),
        time_signature: "4".to_string(),
        time_signature_confidence: "0.2".to_string(),
    };
    let d = legacy_track_embed(&t).description.unwrap();
    assert!(d.starts_with("**Artist(s)**: [A](a)\n**Album**: [Al](al) (track #2)\n**Popularity**: 10\n**Explicit?**: No\n**Release date**: 2001\n"));
    assert!(d.contains("**Mode**: Major (confidence: 0.4)\n"));
    assert!(d.ends_with("[Play T on Spotify \u{2192}](t)\n                "));
}
