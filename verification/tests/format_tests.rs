use ellie::formats::{date_string, utc_string};
use ellie::spotify::{legacy_date, length_string, search_term};

#[test]
fn utc_text_follows_the_pattern() {
    assert_eq!(utc_string(0, "%B %e, %Y"), "January  1, 1970");
    assert_eq!(utc_string(0, "%B %-e, %Y"), "January 1, 1970");
    assert_eq!(utc_string(1420070400, "%A, %B %e, %Y @ %l:%M %P"), "Thursday, January  1, 2015 @ 12:00 am");
    assert_eq!(utc_string(45, "%-S seconds"), "45 seconds");
    assert_eq!(utc_string(125, "%-M minutes, %-S seconds"), "2 minutes, 5 seconds");
    assert_eq!(utc_string(3725, "%-H hour(s), %-M minutes, %-S seconds"), "1 hour(s), 2 minutes, 5 seconds");
}

#[test]
fn dates_are_written_year_first() {
    assert_eq!(date_string(0), "1970-01-01");
    assert_eq!(date_string(18_000), "2019-04-14");
}

#[test]
fn legacy_dates_are_reworded() {
    assert_eq!(legacy_date("2020-05-03"), "May 3, 2020");
    assert_eq!(legacy_date("2020"), "2020");
    assert_eq!(legacy_date("garbage"), "garbage");
}

#[test]
fn lengths_are_whole_seconds_in_words() {
    assert_eq!(length_string(61_999), "1m 1s");
    assert_eq!(length_string(0), "0s");
    assert_eq!(length_string(3_725_000), "1h 2m 5s");
}

#[test]
fn search_terms_are_percent_encoded() {
    assert_eq!(search_term("a b"), "a%20b");
    assert_eq!(search_term("AC/DC"), "AC%2FDC");
    assert_eq!(search_term("é"), "%C3%A9");
}
