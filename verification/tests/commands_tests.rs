use ellie::embed::Reply;
use ellie::moderation::{plan_removal, slowmode_query_reply, slowmode_rate, slowmode_set_reply, Removal, RemovalPlan, Target};
use ellie::utilities::{
    current_prefix, invite_reply, nickname_plan, no_shard, no_shard_manager, pinging_text, shutting_down, ping_embed, prefix_cleared, prefix_set, prefix_shown, prefix_to_store, shutdown_plan,
    source_reply, version_embed, Instant, Shutdown, VersionInfo,
};
use ellie::voice::{join_request, join_result, play_step, PlayEvent, PlayState, VoiceAction};

fn said(r: &Reply) -> &str {
    match r {
        Reply::Say(s) | Reply::Respond(s) => s.as_str(),
        Reply::Post(..) => panic!("expected text"),
    }
}

#[test]
fn ping_measures_round_trip() {
    let e = ping_embed(&Instant { secs: 100, millis: 900 }, &Instant { secs: 101, millis: 50 }, Some((0, 42_500_000)));
    assert_eq!(e.title.as_deref(), Some("Discord Latency Information"));
    assert_eq!(e.color, Some(0x8b0000));
    assert_eq!(
        e.description.as_deref(),
        Some("Pong! Succesfully retrieved the message and shard latencies. :ping_pong:\n\n**API Response Time**: `150ms`\n**Shard Response Time**: `42ms`")
    );
    let e = ping_embed(&Instant { secs: 5, millis: 0 }, &Instant { secs: 5, millis: 7 }, None);
    assert!(e.description.unwrap().ends_with("`7ms`\n**Shard Response Time**: No data available at the moment."));
    let e = ping_embed(&Instant { secs: 5, millis: 0 }, &Instant { secs: 5, millis: 7 }, Some((u64::MAX, 0)));
    assert!(e.description.unwrap().ends_with("No latency information available"));
    let e = ping_embed(&Instant { secs: 0, millis: 0 }, &Instant { secs: 2, millis: 0 }, Some((3, 999_999_999)));
    assert!(e.description.unwrap().ends_with("`3999ms`"));
}

#[test]
fn version_and_invite() {
    let v = VersionInfo {
        bot_name: "Ellie".to_string(),
        version: "0.1.0".to_string(),
        git_version: None,
        branch: "main".to_string(),
        revision: "abc".to_string(),
        codename: "Tulip".to_string(),
        build_date: "today".to_string(),
        build_host: "x86_64".to_string(),
        build_target: "x86_64".to_string(),
        rust_runtime: "rustc 1.70".to_string(),
    };
    let e = version_embed(&v);
    assert_eq!(e.title.as_deref(), Some("Ellie version information"));
    assert!(e.description.as_deref().unwrap().starts_with("**Version**: v0.1.0 Unknown git version\n**Branch**: main"));
    let mut v2 = v;
    v2.git_version = Some("v0.1-3".to_string());
    assert!(version_embed(&v2).description.unwrap().starts_with("**Version**: v0.1.0  (git v0.1-3)\n"));
    match invite_reply("Ellie", "b.png", Some("https://invite".to_string())) {
        Reply::Post(e, _) => {
            assert_eq!(e.title.as_deref(), Some("Ellie Invite URL"));
            assert_eq!(e.description.as_deref(), Some("Click [here](https://invite) to add Ellie to your Discord server."));
        },
        _ => panic!("expected the invite card"),
    }
    assert_eq!(said(&invite_reply("Ellie", "b.png", None)), "Couldn't generate invite.");
    assert_eq!(said(&source_reply()), "GitHub repository: <https://github.com/evelynmarie/Ellie>");
}

#[test]
fn nickname_prefix_and_shutdown() {
    let (nick, r) = nickname_plan(Some("Bot".to_string()));
    assert_eq!(nick.as_deref(), Some("Bot"));
    assert_eq!(said(&r), "Set my nickname to \"Bot\".");
    let (nick, r) = nickname_plan(None);
    assert_eq!(nick, None);
    assert_eq!(said(&r), "Cleared my nickname / left it the same.");
    assert_eq!(prefix_to_store(None), ";");
    assert_eq!(prefix_to_store(Some("!".to_string())), "!");
    assert_eq!(said(&prefix_shown(Some("Home"), "!")), "The current prefix for **Home** is `!`.");
    assert_eq!(said(&prefix_set(None, "!")), "Unable to set command prefix, as the guild cannot be located.");
    assert_eq!(said(&prefix_cleared(Some("Home"))), "The prefix for **Home** has been cleared.");
    assert!(matches!(shutdown_plan(true, true), Shutdown::Graceful));
    assert!(matches!(shutdown_plan(true, false), Shutdown::Kill));
    assert!(matches!(shutdown_plan(false, true), Shutdown::Kill));
}

#[test]
fn bans_and_kicks() {
    let t = Target { name: "troll".to_string(), discriminator: 1234, id: 99 };
    match plan_removal(Removal::Ban, false, &t, Some("spam".to_string())) {
        RemovalPlan::Remove { reason, reply } => {
            assert_eq!(reason.as_deref(), Some("spam"));
            assert_eq!(said(&reply), "Banned member `troll#1234` with id `99` for reason `spam`!");
            assert!(matches!(reply, Reply::Respond(_)));
        },
        _ => panic!("expected a ban"),
    }
    match plan_removal(Removal::Kick, false, &t, None) {
        RemovalPlan::Remove { reason, reply } => {
            assert_eq!(reason, None);
            assert_eq!(said(&reply), "Kicked member `troll#1234` with id `99`.");
        },
        _ => panic!("expected a kick"),
    }
    match plan_removal(Removal::Kick, true, &t, None) {
        RemovalPlan::Refuse(r) => assert_eq!(said(&r), "You can't kick anyone in private messages!"),
        _ => panic!("private messages are refused"),
    }
}

#[test]
fn slowmode_answers() {
    assert_eq!(slowmode_rate(Some("30")), Some(30));
    assert_eq!(slowmode_rate(Some("thirty")), None);
    assert_eq!(slowmode_rate(None), None);
    assert_eq!(said(&slowmode_set_reply(30, true)), "Successfully set the slowmode rate to `30` seconds.");
    assert_eq!(said(&slowmode_set_reply(0, true)), "Successfully cleared the channel's slowmode rate.");
    assert_eq!(said(&slowmode_set_reply(30, false)), "Failed to set slowmode to `30` seconds.");
    assert_eq!(said(&slowmode_query_reply(Some(Some(0)))), "Slowmode is not currently set in this channel.");
    assert_eq!(said(&slowmode_query_reply(Some(Some(10)))), "Current slowmode rate is set to `10` seconds.");
    assert_eq!(said(&slowmode_query_reply(Some(None))), "Slowmode is not available for this channel type.");
    assert_eq!(said(&slowmode_query_reply(None)), "Failed to find channel in cache.");
}

fn says(a: &VoiceAction) -> &str {
    match a {
        VoiceAction::Say(s) => s.as_str(),
        _ => panic!("expected a message"),
    }
}

fn request(connected: bool, channel: Option<&str>) -> PlayEvent {
    PlayEvent::Request {
        url_given: true,
        channel_known: true,
        connected,
        author: "ann".to_string(),
        author_channel: channel.map(|c| c.to_string()),
    }
}

#[test]
fn playback_when_already_connected() {
    let (s, acts) = play_step(PlayState::Begin, request(true, None));
    assert!(matches!(s, PlayState::AwaitingSource { joined: false }));
    assert!(matches!(acts.as_slice(), [VoiceAction::LoadSource]));
    let (s, acts) = play_step(s, PlayEvent::SourceOpened(true));
    assert!(matches!(s, PlayState::Done));
    assert_eq!(says(&acts[0]), "Beginning song playback.");
    assert!(matches!(acts[1], VoiceAction::Play));
    let (s, acts) = play_step(s, PlayEvent::SourceOpened(true));
    assert!(matches!(s, PlayState::Done));
    assert!(acts.is_empty());
}

#[test]
fn playback_after_joining() {
    let (s, acts) = play_step(PlayState::Begin, request(false, Some("Music")));
    assert!(matches!(acts.as_slice(), [VoiceAction::Join]));
    let (s, acts) = play_step(s, PlayEvent::Joined(true));
    assert_eq!(says(&acts[0]), "Joined the voice channel **Music**, beginning playback.");
    assert!(matches!(acts[1], VoiceAction::LoadSource));
    let (_, acts) = play_step(s, PlayEvent::SourceOpened(false));
    assert_eq!(says(&acts[0]), "Error starting playback. Please try again later.");
}

#[test]
fn playback_refusals() {
    let (_, acts) = play_step(
        PlayState::Begin,
        PlayEvent::Request { url_given: false, channel_known: true, connected: true, author: "a".to_string(), author_channel: None },
    );
    assert_eq!(says(&acts[0]), "Must provide a URL to a video or audio");
    let (_, acts) = play_step(
        PlayState::Begin,
        PlayEvent::Request { url_given: true, channel_known: false, connected: true, author: "a".to_string(), author_channel: None },
    );
    assert_eq!(says(&acts[0]), "Error finding channel info");
    let (_, acts) = play_step(PlayState::Begin, request(false, None));
    assert_eq!(says(&acts[0]), "You are not in a voice channel, **ann**.");
    let (_, acts) = play_step(PlayState::Joining("Music".to_string()), PlayEvent::Joined(false));
    assert_eq!(says(&acts[0]), "Error joining **Music**. Please try again later.");
    let (_, acts) = play_step(PlayState::AwaitingSource { joined: false }, PlayEvent::SourceOpened(false));
    assert_eq!(says(&acts[0]), "Error starting playback...Please try again later.");
}

#[test]
fn joining_alone() {
    let (c, acts) = join_request("ann", None);
    assert_eq!(c, None);
    assert_eq!(says(&acts[0]), "You are not in a voice channel, **ann**.");
    let (c, acts) = join_request("ann", Some("Music".to_string()));
    assert_eq!(c.as_deref(), Some("Music"));
    assert!(matches!(acts.as_slice(), [VoiceAction::Join]));
    assert_eq!(says(&join_result("Music", true)), "Joined the voice channel **Music**.");
    assert_eq!(says(&join_result("Music", false)), "Error joining **Music**. Please try again later.");
}

#[test]
fn set_then_clear_prefix_reads_back() {
    let stored = prefix_to_store(Some("!".to_string()));
    let shown = current_prefix(Some(stored));
    assert_eq!(said(&prefix_shown(Some("Home"), &shown)), "The current prefix for **Home** is `!`.");
    assert_eq!(current_prefix(None), ";");
    assert_eq!(said(&prefix_shown(Some("Home"), &current_prefix(None))), "The current prefix for **Home** is `;`.");
}

#[test]
fn latency_and_shutdown_notices() {
    assert_eq!(pinging_text(), ":ping_pong: Pinging!");
    assert!(matches!(no_shard_manager(), Reply::Respond(s) if s == "I encountered a problem while getting the shard manager."));
    assert!(matches!(no_shard(), Reply::Respond(s) if s == "Could not find a shard"));
    assert_eq!(said(&shutting_down()), "Shutting down...");
}
