use ellie::embed::Reply;
use ellie::extra::{sloc_no_arguments, sloc_report, sloc_url, sloc_waiting, steam_status_reply, Language};
use ellie::fun::{
    ascii_check, ascii_reply, ascii_request, comic_reply, comic_request, definition_embed, urban_reply, Comic, Definition,
};
use ellie::twitter::{twitter_embed, twitter_user_url, TwitterUser};
use ellie::weather::{weather_embed, ForecastDay, WeatherReport};

fn text(r: &Reply) -> &str {
    match r {
        Reply::Say(s) | Reply::Respond(s) => s,
        Reply::Post(..) => panic!("expected text"),
    }
}

#[test]
fn ascii_refusals_and_requests() {
    assert_eq!(text(&ascii_check("").unwrap()), "No ASCII string provided. Please provide one.");
    assert_eq!(text(&ascii_check("a\u{200B}b").unwrap()), "Zero width space detected. Don't send these.");
    assert!(ascii_check("hello").is_none());
    let r = ascii_request("speed THIS. IS. ASCII.", "block doom speed");
    assert_eq!(r.font.as_deref(), Some("speed"));
    assert_eq!(r.text, " THIS. IS. ASCII.");
    let r = ascii_request("hello world", "block doom speed");
    assert_eq!(r.font, None);
    assert_eq!(r.text, "hello world");
    let r = ascii_request("speed", "block doom speed");
    assert_eq!(r.font, None);
    assert_eq!(text(&ascii_reply("##")), "```Markup\n##```");
}

fn definition() -> Definition {
    Definition {
        description: "a word".to_string(),
        example: "use it".to_string(),
        word: "yeet".to_string(),
        thumbs_up: 10,
        thumbs_down: 2,
        permalink: "p".to_string(),
    }
}

#[test]
fn urban_definitions() {
    let e = definition_embed(&definition());
    assert_eq!(e.author.as_ref().unwrap().name, "yeet");
    assert_eq!(e.author.as_ref().unwrap().url.as_deref(), Some("p"));
    assert_eq!(e.color, Some(0xEFFF00));
    assert_eq!(e.description.as_deref(), Some("*a word*\n\nuse it\n\n**Ratings**: 10 \u{1f44d} | 2 \u{1f44e}"));
    assert_eq!(text(&urban_reply("", &vec![])), "You did not provide a word to look up. Please provide one.");
    assert_eq!(text(&urban_reply("zzz", &vec![])), "No definitions found for `zzz`. Try a different word.");
    assert!(matches!(urban_reply("yeet", &vec![definition()]), Reply::Post(..)));
}

#[test]
fn xkcd_requests_and_cards() {
    assert_eq!(comic_request(None), (0, "https://xkcd.com/info.0.json".to_string()));
    assert_eq!(comic_request(Some("353")), (353, "https://xkcd.com/353/info.0.json".to_string()));
    assert_eq!(comic_request(Some("abc")).0, 0);
    assert_eq!(comic_request(Some("4294967296")).0, 0);
    let c = Comic { num: 353, alt: "alt".to_string(), img: "img".to_string(), title: "Python".to_string() };
    match comic_reply(false, &c) {
        Reply::Post(e, rows) => {
            assert_eq!(e.footer.as_deref(), Some("xkcd comic no. 353"));
            assert_eq!(e.image.as_deref(), Some("img"));
            assert_eq!(rows.len(), 1);
            assert_eq!(rows[0][0].url, "https://xkcd.com/353");
            assert_eq!(rows[0][1].label, "View explanation");
            assert_eq!(rows[0][1].url, "https://explainxkcd.com/wiki/index.php/353");
        },
        _ => panic!("expected the comic"),
    }
    assert_eq!(text(&comic_reply(true, &c)), "You did not provide a valid comic id.");
}

fn lang(name: &str, n: u64) -> Language {
    Language { name: name.to_string(), files: n, lines: n * 10, code: n * 8, comments: n, blanks: n }
}

#[test]
fn sloc_report_layout() {
    let s = sloc_report("rust-lang", "rust", &vec![lang("Rust", 2), lang("TOML", 1)], &lang("Total", 3));
    assert_eq!(
        s,
        "**Code statistics for repository `rust-lang/rust`**:\n\n**Rust**: 2 files, 20 total lines, 16 code lines, 2 comments, 2 blank lines\n**TOML**: 1 files, 10 total lines, 8 code lines, 1 comments, 1 blank lines\n\n**Total**: 3 files, 30 lines, 24 code lines, 3 comments, 3 blank lines"
    );
    assert_eq!(text(&sloc_waiting("a", "b")), "Getting statistics for `a/b`, please wait...");
    assert_eq!(sloc_url("a", "b"), "https://tokei.vercel.app/a/b");
    assert_eq!(text(&sloc_no_arguments()), "No repository details provided. Please provide them & try again.");
    assert_eq!(text(&steam_status_reply(500).unwrap()), "steamstat.us is currently offline; cannot retrieve Steam status.");
    assert!(steam_status_reply(200).is_none());
}

#[test]
fn twitter_card() {
    let u = TwitterUser {
        id: "12".to_string(),
        name: "Jack".to_string(),
        username: "jack".to_string(),
        created: 0,
        protected: false,
        location: None,
        description: "just setting up".to_string(),
        verified: true,
        profile_image_url: "https://pbs/img_normal.jpg".to_string(),
        followers: 1000,
        following: 5,
        tweets: 30000,
        latest_tweet: None,
    };
    let e = twitter_embed(&u);
    assert_eq!(e.title.as_deref(), Some("Jack \\\u{2714}\u{fe0f}"));
    assert_eq!(e.url.as_deref(), Some("https://twitter.com/jack"));
    assert_eq!(e.thumbnail.as_deref(), Some("https://pbs/img_400x400.jpg"));
    let values: Vec<&str> = e.fields.iter().map(|f| f.value.as_str()).collect();
    assert_eq!(values, vec!["jack", "January 1, 1970", "No", "None", "5", "1,000", "30,000", "Tweet not available."]);
    assert_eq!(e.footer.as_deref(), Some("User ID: 12 | Powered by Twitter."));
    assert_eq!(twitter_user_url("jack"), "https://api.twitter.com/2/users/by/username/jack");
}

fn day(t: i64) -> ForecastDay {
    ForecastDay {
        time: t,
        summary: "Rain".to_string(),
        high_c: "10".to_string(),
        high_f: "50".to_string(),
        low_c: "5".to_string(),
        low_f: "41".to_string(),
    }
}

#[test]
fn weather_layout() {
    let w = WeatherReport {
        address: "Oslo, Norway".to_string(),
        icon: "rain".to_string(),
        summary: "Wet week".to_string(),
        condition: "Rain".to_string(),
        current_c: "7".to_string(),
        current_f: "45".to_string(),
        high_c: "10".to_string(),
        high_f: "50".to_string(),
        low_c: "5".to_string(),
        low_f: "41".to_string(),
        visibility: "10".to_string(),
        humidity: "80".to_string(),
        wind_ms: "3.5".to_string(),
        wind_kmh: "14.4".to_string(),
        uv_index: 2,
        days: (0..6).map(|i| day(i * 86400)).collect(),
    };
    let e = weather_embed(&w);
    assert_eq!(e.author.as_ref().unwrap().icon_url.as_deref(), Some("https://darksky.net/images/weather-icons/rain.png"));
    let d = e.description.unwrap();
    assert!(d.starts_with("Wet week\n\n**Current Condition**: Rain\n**Current Temperature**: 7 \u{b0}C | 45 \u{b0}F\n"));
    assert!(d.ends_with("**5 day forecast**:\n**Thursday**: Rain (10 \u{b0}C | 50 \u{b0}F, 5 \u{b0}C | 41 \u{b0}F)\n**Friday**: Rain (10 \u{b0}C | 50 \u{b0}F, 5 \u{b0}C | 41 \u{b0}F)\n**Saturday**: Rain (10 \u{b0}C | 50 \u{b0}F, 5 \u{b0}C | 41 \u{b0}F)\n**Sunday**: Rain (10 \u{b0}C | 50 \u{b0}F, 5 \u{b0}C | 41 \u{b0}F)\n**Monday**: Rain (10 \u{b0}C | 50 \u{b0}F, 5 \u{b0}C | 41 \u{b0}F)"));
    assert_eq!(e.footer.as_deref(), Some("Powered by Dark Sky."));
}
