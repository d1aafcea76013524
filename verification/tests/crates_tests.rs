use ellie::crates_io::{crate_api_url, crates_embed, krate_embed, krate_api_url, CrateInfo};

fn info() -> CrateInfo {
    CrateInfo {
        name: "serde".to_string(),
        description: Some("A serialization framework".to_string()),
        homepage: Some("https://serde.rs".to_string()),
        repository: None,
        keywords: vec!["serde".to_string(), "serialization".to_string()],
        categories: vec![],
        created: 0,
        updated: 86400,
        newest_version: "1.0.200".to_string(),
        downloads: 123456789,
        recent_downloads: 5000,
    }
}

#[test]
fn crate_card() {
    let e = krate_embed(&info());
    assert_eq!(e.author.as_ref().unwrap().url.as_deref(), Some("https://crates.io/crates/serde"));
    assert_eq!(e.color, Some(0xe43a25));
    let values: Vec<&str> = e.fields.iter().map(|f| f.value.as_str()).collect();
    assert_eq!(
        values,
        vec![
            "[Website](https://serde.rs)",
            "None",
            "None",
            "serde\nserialization",
            "1.0.200",
            "January  1, 1970",
            "January  2, 1970",
            "5,000",
            "123,456,789",
        ]
    );
}

#[test]
fn crates_summary() {
    let e = crates_embed(&info());
    assert_eq!(e.title.as_deref(), Some("Crate details for serde"));
    assert_eq!(
        e.description.as_deref(),
        Some("**Name**: serde\n**Homepage**: https://serde.rs\n**Repository**: No repository is available for this crate.\n**Keywords**: serde, serialization\n**Creation date**: January  1, 1970 - 12:00 AM\n**Last updated**: January  2, 1970 - 12:00 AM\n**Recent downloads**: 5000\n**Total downloads**: 123456789\n")
    );
    assert_eq!(crate_api_url("  serde\t"), "https://crates.io/api/v1/crates/serde");
    assert_eq!(krate_api_url("serde"), "https://crates.io/api/v1/crates/serde");
}
