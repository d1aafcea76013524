use ellie::embed::{button_rows_of, LinkButton, Reply};
use ellie::text::prefix_bytes;
use ellie::info::{
    about_embed, changelog_embed, channel_embed, first_message_embed, message_link, no_such_channel, role_embed, role_reply,
    snowflake_seconds, AboutInfo, ChannelInfo, Commit, FirstMessage, RoleInfo,
};

fn channel(kind: &str) -> ChannelInfo {
    ChannelInfo {
        id: 42,
        name: "general".to_string(),
        guild_icon: "icon.png".to_string(),
        category: None,
        position: 3,
        bitrate: None,
        nsfw: false,
        topic: Some("Talk here".to_string()),
        kind: kind.to_string(),
    }
}

#[test]
fn channel_card_fields() {
    let e = channel_embed(&channel("text"));
    assert_eq!(e.author.as_ref().unwrap().name, "general");
    assert_eq!(e.author.as_ref().unwrap().icon_url.as_deref(), Some("icon.png"));
    assert_eq!(e.color, Some(0x7289DA));
    assert_eq!(e.description.as_deref(), Some("Talk here\n\n"));
    let f: Vec<(&str, &str, bool)> = e.fields.iter().map(|f| (f.name.as_str(), f.value.as_str(), f.inline)).collect();
    assert_eq!(
        f,
        vec![
            ("Category", "No category available", false),
            ("Position", "3", true),
            ("Bitrate", "N/A", true),
            ("Kind", "Text Channel", true),
            ("NSFW", "false", true),
        ]
    );
    assert_eq!(e.footer.as_deref(), Some("Channel ID: 42"));
}

#[test]
fn channel_kinds_and_bitrate() {
    let mut c = channel("voice");
    c.bitrate = Some(64000);
    c.category = Some("Lounge".to_string());
    c.topic = Some(String::new());
    let e = channel_embed(&c);
    assert_eq!(e.fields[0].value, "Lounge");
    assert_eq!(e.fields[2].value, "64000 kbps");
    assert_eq!(e.fields[3].value, "Voice Channel");
    assert_eq!(e.description.as_deref(), Some(""));
    assert_eq!(channel_embed(&channel("forum")).fields[3].value, "Unrecognized channel type");
    assert_eq!(channel_embed(&channel("stage")).fields[3].value, "Stage Channel");
}

fn role(name: &str, id: u64) -> RoleInfo {
    RoleInfo {
        id,
        name: name.to_string(),
        color: 0xff0000,
        managed: false,
        hoisted: true,
        mentionable: false,
        position: 5,
        permissions: 7,
    }
}

#[test]
fn snowflakes_count_from_2015() {
    assert_eq!(snowflake_seconds(0), 1_420_070_400);
    assert_eq!(snowflake_seconds(175928847299117063), 1_462_015_105);
}

#[test]
fn role_card_fields() {
    let e = role_embed(&role("Mods", 0), "g.png");
    assert_eq!(e.author.as_ref().unwrap().name, "Mods");
    assert_eq!(e.color, Some(0xff0000));
    let values: Vec<&str> = e.fields.iter().map(|f| f.value.as_str()).collect();
    assert_eq!(
        values,
        vec![
            "false",
            "true",
            "false",
            "5",
            "Thursday, January  1, 2015 @ 12:00 am",
            "Create Invites, Kick Members and Ban Members",
        ]
    );
    assert_eq!(e.footer.as_deref(), Some("Role ID: 0"));
}

#[test]
fn role_lookup_answers() {
    let roles = vec![role("Mods", 1), role("Admins", 2)];
    match role_reply(&roles, "g.png", None) {
        Reply::Say(s) => assert_eq!(s, "You didn't provide a role to lookup!"),
        _ => panic!("expected a plain answer"),
    }
    match role_reply(&roles, "g.png", Some("Owners".to_string())) {
        Reply::Say(s) => assert_eq!(s, "That is an invalid role!"),
        _ => panic!("expected a plain answer"),
    }
    match role_reply(&roles, "g.png", Some("Admins".to_string())) {
        Reply::Post(e, rows) => {
            assert_eq!(e.footer.as_deref(), Some("Role ID: 2"));
            assert!(rows.is_empty());
        },
        _ => panic!("expected the role card"),
    }
}

#[test]
fn message_links_and_the_jump_field() {
    assert_eq!(message_link(None, 5, 6), "https://discord.com/channels/@me/5/6");
    assert_eq!(message_link(Some(4), 5, 6), "https://discord.com/channels/4/5/6");
    let m = FirstMessage {
        id: 6,
        channel_id: 5,
        guild_id: None,
        author_tag: "ann#0001".to_string(),
        author_avatar: "a.png".to_string(),
        author_color: 0x123456,
        content: "first!".to_string(),
        timestamp: 1_500_000_000_000,
    };
    let e = first_message_embed(&m, 99);
    assert_eq!(e.fields[0].name, "\u{276f} Jump To Message");
    assert_eq!(e.fields[0].value, "[Click Here](https://discord.com/channels/99/5/6)");
    assert_eq!(e.timestamp, Some(1_500_000_000_000));
    assert_eq!(e.thumbnail.as_deref(), Some("a.png"));
    assert_eq!(e.footer.as_deref(), Some("Message ID: 6"));
}

#[test]
fn about_card() {
    let a = AboutInfo {
        version: "0.1.0".to_string(),
        codename: "Ellie".to_string(),
        branch: "main".to_string(),
        revision: "abc1234".to_string(),
        owner_tag: "owner#1".to_string(),
        bot_name: "Ellie".to_string(),
        bot_avatar: "b.png".to_string(),
        shards: 1,
        guilds: 12,
        channels: 345,
        users: 6789,
    };
    let e = about_embed(&a);
    assert_eq!(e.title.as_deref(), Some("**Ellie**"));
    assert_eq!(e.url.as_deref(), Some("https://github.com/evelynmarie/Ellie"));
    assert_eq!(e.color, Some(0x00BFFF));
    assert_eq!(e.fields.len(), 9);
    assert_eq!(e.fields[3].value, "`abc1234`");
    assert_eq!(e.fields[8].value, "6789");
    assert_eq!(e.footer.as_deref(), Some("Written with Rust & serenity."));
}

#[test]
fn changelog_lines_cut_hash_and_link() {
    let c = Commit {
        headline: "Fix the thing".to_string(),
        url: "https://github.com/KamranMackey/Ellie/commit/0123456789abcdef0123".to_string(),
        oid: "0123456789abcdef".to_string(),
    };
    assert_eq!(prefix_bytes(&c.oid, 7), "0123456");
    let e = changelog_embed("Ellie", "https://github.com/KamranMackey/Ellie", "master", &vec![c]);
    assert_eq!(e.title.as_deref(), Some("Recent commits to Ellie on `master`"));
    assert_eq!(e.url.as_deref(), Some("https://github.com/KamranMackey/Ellie/commits/master"));
    assert_eq!(
        e.description.as_deref(),
        Some("[`0123456`](https://github.com/KamranMackey/Ellie/commit/0123456) Fix the thing")
    );
}

#[test]
fn buttons_come_five_to_a_row() {
    let bs: Vec<LinkButton> =
        (0..7).map(|i| LinkButton { label: format!("b{i}"), url: format!("u{i}") }).collect();
    let rows = button_rows_of(&bs);
    assert_eq!(rows.len(), 2);
    assert_eq!(rows[0].len(), 5);
    assert_eq!(rows[1].len(), 2);
    let flat: Vec<String> = rows.iter().flatten().map(|b| b.label.clone()).collect();
    assert_eq!(flat, vec!["b0", "b1", "b2", "b3", "b4", "b5", "b6"]);
    assert!(button_rows_of(&vec![]).is_empty());
}

#[test]
fn missing_channel_is_said() {
    match no_such_channel() {
        Reply::Say(s) => assert_eq!(s, "This channel does not exist."),
        _ => panic!("expected a plain message"),
    }
}
