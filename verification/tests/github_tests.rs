use ellie::github::{github_user_embed, no_username_embed, repository_embed, GithubUser, NamedLink, PrimaryLanguage, RepositoryInfo};

fn repo() -> RepositoryInfo {
    RepositoryInfo {
        name_with_owner: "rust-lang/rust".to_string(),
        url: "https://github.com/rust-lang/rust".to_string(),
        stars: 90000,
        forks: 12000,
        created: 0,
        updated: 86400,
        homepage: "https://www.rust-lang.org".to_string(),
        disk_usage: Some(1024),
        description: Some("Empowering everyone".to_string()),
        language: Some(PrimaryLanguage { name: "Rust".to_string(), color: "#dea584".to_string() }),
        code_of_conduct: Some(NamedLink { name: "Contributor Covenant".to_string(), url: None }),
        license: Some(NamedLink { name: "Other".to_string(), url: None }),
        owner: "rust-lang".to_string(),
        owner_url: "https://github.com/rust-lang".to_string(),
        owner_avatar: "o.png".to_string(),
    }
}

#[test]
fn repository_card() {
    let e = repository_embed(&repo());
    assert_eq!(e.color, Some(0xdea584));
    assert_eq!(
        e.description.as_deref(),
        Some("Empowering everyone\n\n**Owner**: [rust-lang](https://github.com/rust-lang)\n**License**: Other\n**Language**: Rust\n**Website**: [Click here](https://www.rust-lang.org)\n**Code of Conduct**: Contributor Covenant\n**Created on**: Thursday, January  1, 1970 @ 12:00 am\n**Last updated**: Friday, January  2, 1970 @ 12:00 am\n**Disk usage**: 1.02 MB\n**Star Count**: 90000\n**Fork Count**: 12000\n")
    );
    assert_eq!(e.footer.as_deref(), Some("Powered by the GitHub GraphQL API."));
}

#[test]
fn repository_card_without_extras() {
    let mut r = repo();
    r.language = None;
    r.disk_usage = None;
    r.description = None;
    r.homepage = String::new();
    r.license = Some(NamedLink { name: "MIT License".to_string(), url: Some("https://mit".to_string()) });
    r.code_of_conduct = None;
    let e = repository_embed(&r);
    assert_eq!(e.color, Some(0x333333));
    let d = e.description.unwrap();
    assert!(d.starts_with("**Owner**"));
    assert!(d.contains("**License**: [MIT License](https://mit)\n"));
    assert!(d.contains("**Website**: No website is available.\n"));
    assert!(d.contains("**Code of Conduct**: No code of conduct is available.\n"));
    assert!(d.contains("**Disk usage**: No disk usage data is available.\n"));
    assert!(d.contains("**Language**: No language is available.\n"));
}

#[test]
fn github_user_card() {
    let u = GithubUser {
        login: "octocat".to_string(),
        name: String::new(),
        url: "https://github.com/octocat".to_string(),
        avatar: "a.png".to_string(),
        created: 0,
        following: 9,
        followers: 4000,
        repositories: 8,
        location: None,
        bio: Some(String::new()),
        status: None,
    };
    let e = github_user_embed(&u);
    assert_eq!(e.author.as_ref().unwrap().name, "octocat");
    assert_eq!(
        e.description.as_deref(),
        Some("**__Basic details__**:\n**Status**: No status available.\n**Joined GitHub**: Thursday, January  1, 1970 @ 12:00 am\n**Repositories**: 8\n**Location**: No location available.\n**Following**: 9\n**Followers**: 4000\n")
    );
    assert_eq!(no_username_embed().title.as_deref(), Some("Error: No username provided."));
}
