use ellie::reddit::{
    forbidden_embed, no_name_embed, rgb, subreddit_about_url, subreddit_embed, subreddit_missing_embed, subreddit_status,
    user_embed, user_status, user_trophies_url, RedditUser, StatusKind, Subreddit,
};

#[test]
fn statuses_are_told_apart() {
    assert!(matches!(subreddit_status(403), StatusKind::Forbidden));
    assert!(matches!(subreddit_status(404), StatusKind::Missing));
    assert!(matches!(subreddit_status(302), StatusKind::Missing));
    assert!(matches!(subreddit_status(200), StatusKind::Proceed));
    assert!(matches!(user_status(403), StatusKind::Proceed));
    assert!(matches!(user_status(404), StatusKind::Missing));
}

#[test]
fn forbidden_answers() {
    let e = forbidden_embed("quarantined", Some("It is quarantined for shocking content.".to_string()));
    assert_eq!(e.title.as_deref(), Some("This subreddit has been quarantined."));
    assert_eq!(e.description.as_deref(), Some("This subreddit has been quarantined for shocking content."));
    assert_eq!(e.color, Some(0xFF0000));
    let e = forbidden_embed("private", None);
    assert_eq!(e.title.as_deref(), Some("Could Not Access Resource"));
    assert_eq!(no_name_embed().title.as_deref(), Some("Error: Invalid subreddit name provided."));
    assert_eq!(subreddit_missing_embed().title.as_deref(), Some("Subreddit Not Found Or Redirect Request Made"));
}

fn subreddit(color: &str) -> Subreddit {
    Subreddit {
        name: "r/rust".to_string(),
        title: "Rust".to_string(),
        icon: "i.png".to_string(),
        community_icon: "c.png".to_string(),
        object_id: "t5_2s7lj".to_string(),
        description: "A place for Rust".to_string(),
        active_users: 1234,
        subscribers: 250000,
        quarantine: false,
        over18: false,
        restrict_posting: true,
        created: 0,
        primary_color: color.to_string(),
    }
}

#[test]
fn subreddit_card() {
    let e = subreddit_embed(&subreddit("#ff4500"));
    assert_eq!(e.color, Some(0xff4500));
    assert_eq!(e.author.as_ref().unwrap().url.as_deref(), Some("https://reddit.com/r/rust"));
    assert_eq!(
        e.description.as_deref(),
        Some("A place for Rust\n\n**Title:** Rust\n**Active Users:** 1,234\n**Subscribers:** 250,000\n**Quarantined:** No\n**Over Eighteen?** No\n**Posting Restricted?** Yes\n**Created:** Thursday, January  1, 1970 @ 12:00 am\n")
    );
    assert_eq!(e.footer.as_deref(), Some("Subreddit ID: t5_2s7lj"));
    assert_eq!(subreddit_embed(&subreddit("")).color, Some(0x7289DA));
    assert_eq!(subreddit_embed(&subreddit("#zz")).color, Some(0x7289DA));
    assert_eq!(rgb(1, 2, 3), 0x010203);
}

#[test]
fn reddit_user_card() {
    let u = RedditUser {
        name: "spez".to_string(),
        object_id: "1w72".to_string(),
        verified: true,
        is_employee: true,
        link_karma: 1500,
        comment_karma: 2500,
        created: 0,
        trophies: vec!["Admin".to_string(), "Verified Email".to_string()],
    };
    let e = user_embed(&u);
    assert_eq!(e.color, Some(0x1ABC9C));
    assert_eq!(
        e.description.as_deref(),
        Some("**Joined Reddit:** Thursday, January  1, 1970 @ 12:00 am\n**Verified:** true\n**Reddit employee:** true\n**Link Karma:** 1,500\n**Comment Karma:** 2,500\n**Total Karma:** 4,000\n**Trophies:** Admin / Verified Email\n")
    );
    assert_eq!(e.author.as_ref().unwrap().url.as_deref(), Some("https://reddit.com/user/spez"));
    assert_eq!(subreddit_about_url("rust"), "https://api.reddit.com/r/rust/about");
    assert_eq!(user_trophies_url("spez"), "https://api.reddit.com/user/spez/trophies");
}
