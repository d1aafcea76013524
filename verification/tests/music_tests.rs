use ellie::lastfm::{
    choose_account, choose_account_with_mention, failure_embed, failure_message, heading, now_playing_embed, profile_embed,
    LastfmArtist, LastfmFailure, LastfmStats, LastfmTrack, LastfmUser,
};

fn user() -> LastfmUser {
    LastfmUser {
        username: "rj".to_string(),
        display_name: String::new(),
        country: "Norway".to_string(),
        url: "https://last.fm/user/rj".to_string(),
        avatar: "a.png".to_string(),
        registered: 0,
        scrobbles: "123456".to_string(),
    }
}

fn track(name: &str, playing: bool) -> LastfmTrack {
    LastfmTrack {
        name: name.to_string(),
        url: format!("https://last.fm/{name}"),
        artist: "Band".to_string(),
        album: "Record".to_string(),
        now_playing: playing,
    }
}

#[test]
fn which_account_is_shown() {
    assert_eq!(choose_account(Some("a".to_string()), Some("b".to_string())).as_deref(), Some("a"));
    assert_eq!(choose_account(None, Some("b".to_string())).as_deref(), Some("b"));
    assert_eq!(choose_account(None, None), None);
    assert_eq!(
        choose_account_with_mention(Some("@x".to_string()), Some("xfm".to_string()), true, Some("me".to_string())).as_deref(),
        Some("xfm")
    );
    assert_eq!(choose_account_with_mention(Some("y".to_string()), None, false, None).as_deref(), Some("y"));
    assert_eq!(choose_account_with_mention(None, None, false, None), None);
}

#[test]
fn failures_are_explained() {
    let down = LastfmFailure::OperationFailed(
        "Operation failed - Most likely the backend service failed. Please try again.".to_string(),
    );
    assert_eq!(failure_embed(&down).title.as_deref(), Some("Error: Last.fm is currently offline."));
    assert_eq!(failure_message(&down), "Last.fm's servers are currently offline. Please try again later.");
    let missing = LastfmFailure::InvalidParameter("User not found".to_string());
    assert_eq!(failure_embed(&missing).title.as_deref(), Some("Error: Invalid Last.fm username provided."));
    assert_eq!(failure_message(&missing), "Invalid username provided. Please provide a valid one and try again.");
    assert_eq!(failure_message(&LastfmFailure::Other), "An unrecognized Last.fm error was detected. Please try again later.");
    assert_eq!(failure_embed(&LastfmFailure::Other).color, Some(0xFF0000));
}

#[test]
fn heading_uses_saved_name_for_own_account() {
    assert_eq!(heading(Some("Rob".to_string()), Some("rj".to_string()), "rj", "rj"), "Rob");
    assert_eq!(heading(Some("Rob".to_string()), Some("rj".to_string()), "other", "other"), "other");
    assert_eq!(heading(None, None, "rj", "rj"), "rj");
}

#[test]
fn lastfm_profile_layout() {
    let stats = LastfmStats {
        recent: vec![track("Now", true), track("Before **x**", false)],
        top_artists: vec![LastfmArtist { name: "Band".to_string(), plays: "1500".to_string() }],
        total_artists: "2000".to_string(),
        loved_tracks: "12".to_string(),
        artwork: "art.png".to_string(),
    };
    let e = profile_embed("Rob".to_string(), user(), stats, false);
    assert_eq!(e.description.as_deref(), Some("Rob is currently listening to **Now** by **Band** on **Record**."));
    let values: Vec<&str> = e.fields.iter().map(|f| f.value.as_str()).collect();
    assert_eq!(values[0], "None");
    assert_eq!(values[2], "January  1, 1970");
    assert_eq!(values[4], "2,000");
    assert_eq!(values[5], "123,456");
    assert_eq!(values[6], "**Band** \u{2014} 1,500 plays");
    assert_eq!(
        values[7],
        "\\\u{25b6}\u{fe0f} **[Now](https://last.fm/Now)** \u{2014} Band\n **[Before \\**x\\**](https://last.fm/Before **x**)** \u{2014} Band"
    );
    assert_eq!(e.footer.as_deref(), Some("Powered by Last.fm."));
}

#[test]
fn now_playing_layout() {
    let e = now_playing_embed("Rob".to_string(), &user(), &track("Now", true), "art.png".to_string());
    assert_eq!(e.author.as_ref().unwrap().name, "Rob is currently playing:");
    assert_eq!(e.title.as_deref(), Some("Now"));
    assert_eq!(e.description.as_deref(), Some("**Band** | Record"));
    assert_eq!(e.color, Some(0xd51007));
}
