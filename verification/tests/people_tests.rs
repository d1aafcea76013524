use ellie::guild_info::{
    guild_embed, highest_role, ChannelKind, ContentFilter, GuildInfo, GuildRole, MfaLevel, PremiumTier, VerificationLevel,
};
use ellie::user_info::{
    color_string, member_embed, presence_summary, Activity, ActivityKind, ClientStatus, MemberInfo, OnlineStatus, Presence,
};

fn role(id: u64, name: &str, position: i64) -> GuildRole {
    GuildRole { id, name: name.to_string(), position, color: (id as u32) * 16 }
}

#[test]
fn highest_role_breaks_ties_by_id() {
    assert_eq!(highest_role(&vec![role(5, "a", 1), role(3, "b", 2), role(2, "c", 2)]), 2);
    assert_eq!(highest_role(&vec![role(7, "only", 0)]), 0);
}

#[test]
fn guild_card() {
    let g = GuildInfo {
        id: 1,
        name: "Home".to_string(),
        icon: "i.png".to_string(),
        owner_tag: "boss#1".to_string(),
        system_channel: 10,
        created: 0,
        members: 3,
        online: 2,
        channels: vec![ChannelKind::Text, ChannelKind::Voice, ChannelKind::Other, ChannelKind::Text],
        emojis: vec![true, false, false],
        features: vec![],
        verification: VerificationLevel::Low,
        mfa: MfaLevel::NotRequired,
        content_filter: ContentFilter::Disabled,
        boosts: 0,
        tier: PremiumTier::Tier0,
        roles: vec![role(1, "@everyone", 0), role(5, "Mods", 2), role(6, "Members", 1)],
    };
    let (e, top) = guild_embed(&g);
    assert_eq!(top, 1);
    assert_eq!(e.color, Some(80));
    let d = e.description.unwrap();
    assert!(d.contains("**Channels**: 4 (2 text, 1 voice)\n"));
    assert!(d.contains("**Emojis**: 3 (2 static, 1 animated)\n"));
    assert!(d.contains("**Features**: None\n"));
    assert!(d.ends_with("**Highest Role**: Mods\n**Roles (2)**: Mods / Members\n"));
    assert_eq!(e.footer.as_deref(), Some("Home server ID: 1"));
}

fn member() -> MemberInfo {
    MemberInfo {
        name: "ann".to_string(),
        tag: "ann#0001".to_string(),
        id: 7,
        bot: false,
        avatar: "a.png".to_string(),
        created: 0,
        joined: None,
        nick: None,
        color: Some(0x00ff00),
        roles: Some(vec![]),
        highest_role: None,
    }
}

fn code_activity() -> Activity {
    Activity {
        kind: ActivityKind::Playing,
        name: "Visual Studio Code".to_string(),
        details: Some("Editing main.rs".to_string()),
        state: Some("Workspace: ellie".to_string()),
        sync_id: None,
        large_text: None,
        large_image: None,
        small_text: Some("Visual Studio Code".to_string()),
        start_ms: None,
        end_ms: None,
    }
}

#[test]
fn presence_sentence() {
    let p = Presence {
        status: OnlineStatus::DoNotDisturb,
        client_status: Some(ClientStatus { desktop: true, mobile: true, web: false }),
        activities: vec![code_activity()],
    };
    let (s, art) = presence_summary("ann", &p);
    assert_eq!(
        s,
        "ann is currently in **Do Not Disturb** mode on **Desktop and Mobile**, working on the file **main.rs** in the project **ellie** with **Visual Studio Code**.\n\n"
    );
    assert_eq!(art, "");
}

#[test]
fn colours_are_six_hex_digits() {
    assert_eq!(color_string(0x00ff00), "#00ff00");
    assert_eq!(color_string(0), "#000000");
    assert_eq!(color_string(0x1234567), "#1234567");
}

#[test]
fn member_card() {
    let e = member_embed(&member(), &None);
    assert_eq!(e.color, Some(0x00ff00));
    let d = e.description.unwrap();
    assert!(d.starts_with("**__User Information__**:\n**Type**: User\n**Profile**: <@7>\n**Tag**: ann#0001\n**ID**: 7\n"));
    assert!(d.contains("**Join Date**: Unavailable\n**Nickname**: No nickname has been set.\n**Display Color**: #00ff00\n"));
    assert!(d.ends_with("**Main Role**: No main role available.\n**Roles (0)**: No roles available."));
}
