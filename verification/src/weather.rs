//! The weather report's layout. The numbers are measured and rounded as
//! floating point by the front end, which hands them over written out.
use vstd::prelude::*;
use crate::embed::{AuthorView, Embed, EmbedAuthor, EmbedView};
use crate::formats::{utc_in_range, utc_string, utc_text};
use crate::text::{join, joined, owned, push_decimal, push_str, decimal, views};

verus! {

/// One day of the forecast, its temperatures written out.
pub struct ForecastDay {
    /// The day, seconds after the Unix epoch.
    pub time: i64,
    pub summary: String,
    pub high_c: String,
    pub high_f: String,
    pub low_c: String,
    pub low_f: String,
}

/// A report, its measurements written out.
pub struct WeatherReport {
    pub address: String,
    /// The name of the icon for the current weather.
    pub icon: String,
    pub summary: String,
    pub condition: String,
    pub current_c: String,
    pub current_f: String,
    pub high_c: String,
    pub high_f: String,
    pub low_c: String,
    pub low_f: String,
    pub visibility: String,
    pub humidity: String,
    pub wind_ms: String,
    pub wind_kmh: String,
    pub uv_index: u8,
    pub days: Vec<ForecastDay>,
}

pub open spec fn day_line(d: ForecastDay) -> Seq<char> {
    "**"@ + utc_text(d.time as int, "%A"@) + "**: "@ + d.summary@ + " ("@ + d.high_c@ + " \u{b0}C | "@ + d.high_f@
        + " \u{b0}F, "@ + d.low_c@ + " \u{b0}C | "@ + d.low_f@ + " \u{b0}F)"@
}

pub open spec fn day_lines(ds: Seq<ForecastDay>) -> Seq<Seq<char>> {
    ds.map_values(|d: ForecastDay| day_line(d))
}

/// The first five days are forecast, and their times can be written.
pub open spec fn report_ok(w: WeatherReport) -> bool {
    &&& w.days@.len() >= 5
    &&& forall|i: int| 0 <= i < 5 ==> utc_in_range((#[trigger] w.days@[i]).time as int)
}

pub open spec fn weather_text(w: WeatherReport) -> Seq<char> {
    w.summary@ + "\n\n**Current Condition**: "@ + w.condition@ + "\n**Current Temperature**: "@ + w.current_c@
        + " \u{b0}C | "@ + w.current_f@ + " \u{b0}F\n**Today's High**: "@ + w.high_c@ + " \u{b0}C | "@ + w.high_f@
        + " \u{b0}F\n**Today's Low**: "@ + w.low_c@ + " \u{b0}C | "@ + w.low_f@ + " \u{b0}F\n**Visibility**: "@
        + w.visibility@ + " km/h\n**Humidity**: "@ + w.humidity@ + "%\n**Wind Speed**: "@ + w.wind_ms@ + " m/s | "@
        + w.wind_kmh@ + " km/h\n**UV Index**: "@ + decimal(w.uv_index as nat) + "\n\n**5 day forecast**:\n"@ + joined(
        day_lines(w.days@.take(5)),
        "\n"@,
    )
}

pub open spec fn weather_view(w: WeatherReport) -> EmbedView {
    EmbedView::blank().set_author(
        AuthorView {
            name: w.address@,
            url: None,
            icon_url: Some("https://darksky.net/images/weather-icons/"@ + w.icon@ + ".png"@),
        },
    ).set_color(0x8cbed6).set_description(weather_text(w)).set_footer("Powered by Dark Sky."@)
}

fn day_string(d: &ForecastDay) -> (s: String)
    requires
        utc_in_range(d.time as int),
    ensures
        s@ == day_line(*d),
{
    let mut s = owned("**");
    let day = utc_string(d.time, "%A");
    push_str(&mut s, day.as_str());
    push_str(&mut s, "**: ");
    push_str(&mut s, d.summary.as_str());
    push_str(&mut s, " (");
    push_str(&mut s, d.high_c.as_str());
    push_str(&mut s, " \u{b0}C | ");
    push_str(&mut s, d.high_f.as_str());
    push_str(&mut s, " \u{b0}F, ");
    push_str(&mut s, d.low_c.as_str());
    push_str(&mut s, " \u{b0}C | ");
    push_str(&mut s, d.low_f.as_str());
    push_str(&mut s, " \u{b0}F)");
    s
}

/// The weather report.
pub fn weather_embed(w: &WeatherReport) -> (e: Embed)
    requires
        report_ok(*w),
    ensures
        e@ == weather_view(*w),
{
    let mut lines: Vec<String> = Vec::new();
    let mut i: usize = 0;
    while i < 5
        invariant
            report_ok(*w),
            i <= 5,
            views(lines@) == day_lines(w.days@.take(i as int)),
        decreases 5 - i,
    {
        let ghost before = lines@;
        lines.push(day_string(&w.days[i]));
        assert(views(lines@) =~= views(before).push(day_line(w.days@[i as int])));
        assert(day_lines(w.days@.take(i + 1)) =~= day_lines(w.days@.take(i as int)).push(day_line(w.days@[i as int])));
        i = i + 1;
    }
    let mut d = w.summary.clone();
    push_str(&mut d, "\n\n**Current Condition**: ");
    push_str(&mut d, w.condition.as_str());
    push_str(&mut d, "\n**Current Temperature**: ");
    push_str(&mut d, w.current_c.as_str());
    push_str(&mut d, " \u{b0}C | ");
    push_str(&mut d, w.current_f.as_str());
    push_str(&mut d, " \u{b0}F\n**Today's High**: ");
    push_str(&mut d, w.high_c.as_str());
    push_str(&mut d, " \u{b0}C | ");
    push_str(&mut d, w.high_f.as_str());
    push_str(&mut d, " \u{b0}F\n**Today's Low**: ");
    push_str(&mut d, w.low_c.as_str());
    push_str(&mut d, " \u{b0}C | ");
    push_str(&mut d, w.low_f.as_str());
    push_str(&mut d, " \u{b0}F\n**Visibility**: ");
    push_str(&mut d, w.visibility.as_str());
    push_str(&mut d, " km/h\n**Humidity**: ");
    push_str(&mut d, w.humidity.as_str());
    push_str(&mut d, "%\n**Wind Speed**: ");
    push_str(&mut d, w.wind_ms.as_str());
    push_str(&mut d, " m/s | ");
    push_str(&mut d, w.wind_kmh.as_str());
    push_str(&mut d, " km/h\n**UV Index**: ");
    push_decimal(&mut d, w.uv_index as u64);
    push_str(&mut d, "\n\n**5 day forecast**:\n");
    let forecast = join(&lines, "\n");
    push_str(&mut d, forecast.as_str());
    assert(d@ =~= weather_text(*w));
    let mut icon = owned("https://darksky.net/images/weather-icons/");
    push_str(&mut icon, w.icon.as_str());
    push_str(&mut icon, ".png");
    let author = EmbedAuthor::named(w.address.clone()).with_icon(icon);
    Embed::new().author(author).color(0x8cbed6).description(d).footer(owned("Powered by Dark Sky."))
}

/// The answer to a forecast without a place.
pub fn no_location_embed() -> (e: Embed)
    ensures
        e@ == EmbedView::blank().set_title("Error: Invalid location name provided."@).set_description(
            "You have provided an invalid location. Please try again."@,
        ).set_color(0x00FF_0000),
{
    Embed::new().title(owned("Error: Invalid location name provided.")).description(
        owned("You have provided an invalid location. Please try again."),
    ).color(0x00FF_0000)
}

} // verus!
