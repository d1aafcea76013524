use ellie::profile::{lastfm_lookup_reply, plan_set, profile_embed, profile_key, profile_target, ProfileCard, SetPlan};

fn card(color: Option<u32>) -> ProfileCard {
    ProfileCard {
        user_tag: "ann#0001".to_string(),
        face: "f.png".to_string(),
        color,
        name: "Ann".to_string(),
        location: "Oslo".to_string(),
        gender: "Female".to_string(),
        pronouns: "she/her".to_string(),
        lastfm: "annfm".to_string(),
    }
}

#[test]
fn profile_card_layout() {
    let e = profile_embed(&card(None));
    assert_eq!(e.author.as_ref().unwrap().name, "Profile for user ann#0001");
    assert_eq!(e.color, Some(0x00FF_FFFF));
    assert_eq!(e.fields[4].name, "Last.fm");
    assert_eq!(e.fields[4].value, "[annfm](https://www.lastfm/user/annfm)");
    assert!(!e.fields[4].inline);
    assert_eq!(profile_embed(&card(Some(0x112233))).color, Some(0x112233));
}

#[test]
fn profile_target_prefers_mentions() {
    assert_eq!(profile_target(Some(1), true, Some(2), 3), Some(1));
    assert_eq!(profile_target(None, true, Some(2), 3), Some(2));
    assert_eq!(profile_target(None, true, None, 3), None);
    assert_eq!(profile_target(None, false, Some(2), 3), Some(3));
}

#[test]
fn set_stores_each_property() {
    match plan_set("location", "Oslo") {
        SetPlan::Store { query, confirmation, check_lastfm } => {
            assert_eq!(query, "UPDATE profile_data SET user_location = $1 WHERE user_id = $2;");
            assert_eq!(confirmation, "Your location has been set to `Oslo`.");
            assert!(!check_lastfm);
        },
        _ => panic!("location should be stored"),
    }
    match plan_set("lastfm", "annfm") {
        SetPlan::Store { query, confirmation, check_lastfm } => {
            assert_eq!(query, "UPDATE profile_data SET user_lastfm_id = $1 WHERE user_id = $2");
            assert_eq!(confirmation, "Your Last.fm username has been set to `annfm`.");
            assert!(check_lastfm);
        },
        _ => panic!("lastfm should be stored"),
    }
    match plan_set("pronouns", "they/them") {
        SetPlan::Store { confirmation, .. } => assert_eq!(confirmation, "Your pronouns have been set to they/them."),
        _ => panic!("pronouns should be stored"),
    }
}

#[test]
fn set_refuses_empty_and_unknown() {
    match plan_set("gender", "") {
        SetPlan::Refuse(s) => assert_eq!(s, "You did not provide your gender. Please provide it."),
        _ => panic!("an empty value is refused"),
    }
    match plan_set("age", "30") {
        SetPlan::Refuse(s) => assert_eq!(s, "That is not a valid profile property."),
        _ => panic!("an unknown property is refused"),
    }
    match plan_set("name", "") {
        SetPlan::Refuse(s) => assert_eq!(s, "You did not provide a name. Please provide one!"),
        _ => panic!("an empty name is refused"),
    }
}

#[test]
fn lastfm_lookup_and_keys() {
    assert_eq!(
        lastfm_lookup_reply(Some("User not found".to_string())).as_deref(),
        Some("You cannot use this as your username.")
    );
    assert_eq!(lastfm_lookup_reply(Some("Invalid method".to_string())), None);
    assert_eq!(lastfm_lookup_reply(None), None);
    assert_eq!(profile_key(u64::MAX), -1);
    assert_eq!(profile_key(5), 5);
}

#[test]
fn location_set_shows_on_the_next_card() {
    let query = match plan_set("location", "Berlin") {
        SetPlan::Store { query, .. } => query,
        SetPlan::Refuse(_) => panic!("a location is stored"),
    };
    assert!(query.contains("user_location"));
    let mut after = card(None);
    after.location = "Berlin".to_string();
    let e = profile_embed(&after);
    assert_eq!(e.author.as_ref().unwrap().name, "Profile for user ann#0001");
    assert_eq!((e.fields[1].name.as_str(), e.fields[1].value.as_str(), e.fields[1].inline), ("Location", "Berlin", true));
    assert_eq!(e.fields[0].value, "Ann");
}
