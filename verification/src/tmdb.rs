//! The Movie Database: searches with a year, cast and crew layouts, and the
//! movie, series and collection messages.
use vstd::prelude::*;

pub mod collection;
pub mod show;
use crate::embed::{button_rows_of, button_row_views, button_views, chunks5, field_views, fv, push_field, ButtonView, Embed, EmbedField, EmbedView, FieldView, LinkButton};
use crate::formats::{duration_text, format_duration_secs, utc_in_range, utc_string, utc_text};
use crate::order::{is_stable_order, lemma_stable_sorted, stable_order, stable_sorted};
use crate::parse::{decimal_reads_back, parsed_u64};
use crate::text::{grouped_has_decimal_digits, without_commas};
use crate::text::{
    chars_of, contains, decimal, format_int, grouped, has_sub, join, joined, owned, push_chars, push_decimal, push_str, replace,
    replaced, signed_decimal, signed_string, views,
};

verus! {

pub struct SeriesSearchResponse {
    pub results: Vec<SeriesResult>,
}

pub struct SeriesResult {
    pub id: i64,
}

pub struct MovieSearchResponse {
    pub results: Vec<MovieResult>,
}

pub struct MovieResult {
    pub title: String,
    pub poster_path: String,
    pub id: i64,
}

pub struct Credits {
    pub cast: Vec<CastMember>,
    pub crew: Vec<CrewMember>,
    pub id: i64,
}

pub struct CastMember {
    pub character: String,
    pub credit_id: String,
    pub id: i64,
    pub name: String,
    pub gender: i64,
    pub profile_path: Option<String>,
    pub order: i64,
}

pub struct CrewMember {
    pub credit_id: String,
    pub department: String,
    pub id: i64,
    pub name: String,
    pub gender: Option<i64>,
    pub job: String,
    pub profile_path: Option<String>,
}

/// A search term, and the year that a `y:` or `year:` marker asked for.
pub struct YearSearch {
    pub query: String,
    pub year: Option<String>,
}

// ---------------------------------------------------------------------------
// Searching by year
// ---------------------------------------------------------------------------

/// The last four characters of `s` (all of them when it is shorter).
pub open spec fn last_four(s: Seq<char>) -> Seq<char> {
    if s.len() <= 4 { s } else { s.skip(s.len() - 4) }
}

/// The term with its ` y:` and ` year:` markers removed.
pub open spec fn without_markers(s: Seq<char>) -> Seq<char> {
    replaced(replaced(s, " y:"@, ""@), " year:"@, ""@)
}

/// A search term with a year marker: the year is the last four characters
/// once the markers are gone, and the query is what remains when every
/// occurrence of the year is removed.
pub open spec fn year_search(s: Seq<char>) -> (Seq<char>, Option<Seq<char>>) {
    if has_sub(s, "y:"@) || has_sub(s, "year:"@) {
        let t = without_markers(s);
        let y = last_four(t);
        (if y.len() == 0 { t } else { replaced(t, y, ""@) }, Some(y))
    } else {
        (s, None)
    }
}

/// Splits a search term into query and year.
pub fn split_year(input: &str) -> (r: YearSearch)
    ensures
        r.query@ == year_search(input@).0,
        r.year.deep_view() == year_search(input@).1,
{
    proof {
        reveal_strlit(" y:");
        reveal_strlit(" year:");
    }
    if contains(input, "y:") || contains(input, "year:") {
        let a = replace(input, " y:", "");
        let t = replace(a.as_str(), " year:", "");
        let cs = chars_of(t.as_str());
        let from = if cs.len() <= 4 { 0 } else { cs.len() - 4 };
        let mut y = String::new();
        push_chars(&mut y, &cs, from, cs.len());
        assert(y@ =~= last_four(t@));
        let query = if y.as_str().is_empty() { t } else { replace(t.as_str(), y.as_str(), "") };
        YearSearch { query, year: Some(y) }
    } else {
        YearSearch { query: owned(input), year: None }
    }
}

/// The answer when a search finds nothing; `tail` differs by command.
pub open spec fn nothing_found_text(term: Seq<char>, tail: Seq<char>) -> Seq<char> {
    "Nothing found for `"@ + term + "`. "@ + tail
}

pub fn nothing_found(term: &str, tail: &str) -> (s: String)
    ensures
        s@ == nothing_found_text(term@, tail@),
{
    let mut s = owned("Nothing found for `");
    push_str(&mut s, term);
    push_str(&mut s, "`. ");
    push_str(&mut s, tail);
    s
}

/// The full-size poster address for a TMDb image path.
pub open spec fn poster_url(path: Seq<char>) -> Seq<char> {
    "https://image.tmdb.org/t/p/original/"@ + replaced(path, "/"@, ""@)
}

pub fn poster(path: &str) -> (s: String)
    ensures
        s@ == poster_url(path@),
{
    proof {
        reveal_strlit("/");
    }
    let mut s = owned("https://image.tmdb.org/t/p/original/");
    let p = replace(path, "/", "");
    push_str(&mut s, p.as_str());
    s
}

// ---------------------------------------------------------------------------
// Cast and crew
// ---------------------------------------------------------------------------

/// Which kind of title the cast command looks up.
pub enum MediaKind {
    Series,
    Movie,
    Unknown,
}

pub open spec fn media_kind_of(t: Seq<char>) -> MediaKind {
    if has_sub(t, "show"@) || has_sub(t, "series"@) {
        MediaKind::Series
    } else if has_sub(t, "movie"@) || has_sub(t, "film"@) {
        MediaKind::Movie
    } else {
        MediaKind::Unknown
    }
}

pub fn media_kind(media_type: &str) -> (k: MediaKind)
    ensures
        k == media_kind_of(media_type@),
{
    if contains(media_type, "show") || contains(media_type, "series") {
        MediaKind::Series
    } else if contains(media_type, "movie") || contains(media_type, "film") {
        MediaKind::Movie
    } else {
        MediaKind::Unknown
    }
}

pub open spec fn cast_field(m: CastMember, inline: bool) -> FieldView {
    fv(m.name@, m.character@, inline)
}

pub open spec fn crew_field(m: CrewMember, inline: bool) -> FieldView {
    fv(m.name@, m.job@, inline)
}

pub open spec fn cast_fields(ms: Seq<CastMember>, inline: bool) -> Seq<FieldView> {
    ms.map_values(|m: CastMember| cast_field(m, inline))
}

pub open spec fn crew_fields(ms: Seq<CrewMember>, inline: bool) -> Seq<FieldView> {
    ms.map_values(|m: CrewMember| crew_field(m, inline))
}

/// Field counts whose last row Discord's desktop client lays out badly.
pub open spec fn awkward_count(n: usize) -> bool {
    n == 5 || n == 8 || n == 11 || n == 14 || n == 17 || n == 20 || n == 23
}

/// The layout test of the series command: the bitwise or of the two counts.
pub open spec fn layout_key(cast: usize, crew: usize) -> usize {
    cast | crew
}

/// The counts for which the series layout stays within its lists.
pub open spec fn series_layout_ok(cast: usize, crew: usize) -> bool {
    awkward_count(layout_key(cast, crew)) ==> {
        &&& cast >= 1
        &&& crew > 2 ==> cast - 1 <= crew
        &&& (0 < crew && crew <= 2) ==> cast <= crew
    }
}

/// Whether the series layout stays within the cast and crew lists (where
/// it does not, the layout would read past their ends).
pub fn series_layout_fits(cast: usize, crew: usize) -> (b: bool)
    ensures
        b == series_layout_ok(cast, crew),
{
    let key = cast | crew;
    let awkward = key == 5 || key == 8 || key == 11 || key == 14 || key == 17 || key == 20 || key == 23;
    if !awkward {
        return true;
    }
    cast >= 1 && (!(crew > 2) || cast - 1 <= crew) && (!(0 < crew && crew <= 2) || cast <= crew)
}

/// The cast fields of the series layout.
pub open spec fn series_cast_fields(cast: Seq<CastMember>, crew: Seq<CrewMember>) -> Seq<FieldView> {
    if awkward_count(layout_key(cast.len() as usize, crew.len() as usize)) {
        cast_fields(cast.take(cast.len() - 1), true).push(cast_field(cast.last(), false))
    } else {
        cast_fields(cast, true)
    }
}

/// The crew fields of the series layout.
pub open spec fn series_crew_fields(cast: Seq<CastMember>, crew: Seq<CrewMember>) -> Seq<FieldView> {
    if awkward_count(layout_key(cast.len() as usize, crew.len() as usize)) {
        if crew.len() > 2 {
            crew_fields(crew.take(cast.len() - 1), true).push(crew_field(crew.last(), false))
        } else if crew.len() > 0 {
            crew_fields(crew.take(cast.len() as int), true)
        } else {
            Seq::empty()
        }
    } else if crew.len() == 11 {
        crew_fields(crew.take(9), true) + crew_fields(crew.subrange(9, 11), false)
    } else {
        crew_fields(crew, true)
    }
}

/// The series message shows the crew fields when there are any, else the
/// cast fields.
pub open spec fn series_fields(cast: Seq<CastMember>, crew: Seq<CrewMember>) -> Seq<FieldView> {
    let c = series_crew_fields(cast, crew);
    if c.len() > 0 { c } else { series_cast_fields(cast, crew) }
}

fn push_cast(v: &mut Vec<EmbedField>, ms: &Vec<CastMember>, from: usize, to: usize, inline: bool)
    requires
        from <= to <= ms@.len(),
    ensures
        field_views(final(v)@) == field_views(old(v)@) + cast_fields(ms@.subrange(from as int, to as int), inline),
{
    let mut i = from;
    while i < to
        invariant
            from <= i <= to <= ms@.len(),
            field_views(v@) == field_views(old(v)@) + cast_fields(ms@.subrange(from as int, i as int), inline),
        decreases to - i,
    {
        let ghost before = v@;
        push_field(v, ms[i].name.clone(), ms[i].character.clone(), inline);
        assert(cast_fields(ms@.subrange(from as int, i + 1), inline) =~= cast_fields(
            ms@.subrange(from as int, i as int),
            inline,
        ).push(cast_field(ms@[i as int], inline)));
        assert(field_views(v@) =~= field_views(old(v)@) + cast_fields(ms@.subrange(from as int, i + 1), inline));
        i = i + 1;
    }
}

fn push_crew(v: &mut Vec<EmbedField>, ms: &Vec<CrewMember>, from: usize, to: usize, inline: bool)
    requires
        from <= to <= ms@.len(),
    ensures
        field_views(final(v)@) == field_views(old(v)@) + crew_fields(ms@.subrange(from as int, to as int), inline),
{
    let mut i = from;
    while i < to
        invariant
            from <= i <= to <= ms@.len(),
            field_views(v@) == field_views(old(v)@) + crew_fields(ms@.subrange(from as int, i as int), inline),
        decreases to - i,
    {
        push_field(v, ms[i].name.clone(), ms[i].job.clone(), inline);
        assert(crew_fields(ms@.subrange(from as int, i + 1), inline) =~= crew_fields(
            ms@.subrange(from as int, i as int),
            inline,
        ).push(crew_field(ms@[i as int], inline)));
        assert(field_views(v@) =~= field_views(old(v)@) + crew_fields(ms@.subrange(from as int, i + 1), inline));
        i = i + 1;
    }
}

/// The fields of the series cast message.
pub fn series_field_list(cast: &Vec<CastMember>, crew: &Vec<CrewMember>) -> (v: Vec<EmbedField>)
    requires
        series_layout_ok(cast@.len() as usize, crew@.len() as usize),
    ensures
        field_views(v@) == series_fields(cast@, crew@),
{
    let c = cast.len();
    let w = crew.len();
    let key = c | w;
    let mut cast_v: Vec<EmbedField> = Vec::new();
    let mut crew_v: Vec<EmbedField> = Vec::new();
    assert(field_views(cast_v@) =~= Seq::<FieldView>::empty());
    assert(field_views(crew_v@) =~= Seq::<FieldView>::empty());
    if key == 5 || key == 8 || key == 11 || key == 14 || key == 17 || key == 20 || key == 23 {
        push_cast(&mut cast_v, cast, 0, c - 1, true);
        push_cast(&mut cast_v, cast, c - 1, c, false);
        assert(cast_fields(cast@.subrange(c - 1, c as int), false) =~= seq![cast_field(cast@.last(), false)]);
        assert(cast@.subrange(0, c - 1) =~= cast@.take(c - 1));
        if w > 2 {
            push_crew(&mut crew_v, crew, 0, c - 1, true);
            push_crew(&mut crew_v, crew, w - 1, w, false);
            assert(crew_fields(crew@.subrange(w - 1, w as int), false) =~= seq![crew_field(crew@.last(), false)]);
            assert(crew@.subrange(0, c - 1) =~= crew@.take(c - 1));
        } else if w > 0 {
            push_crew(&mut crew_v, crew, 0, c, true);
            assert(crew@.subrange(0, c as int) =~= crew@.take(c as int));
        }
    } else {
        push_cast(&mut cast_v, cast, 0, c, true);
        assert(cast@.subrange(0, c as int) =~= cast@);
        if w == 11 {
            push_crew(&mut crew_v, crew, 0, 9, true);
            push_crew(&mut crew_v, crew, 9, 11, false);
            assert(crew@.subrange(0, 9) =~= crew@.take(9));
        } else {
            push_crew(&mut crew_v, crew, 0, w, true);
            assert(crew@.subrange(0, w as int) =~= crew@);
        }
    }
    assert(field_views(cast_v@) =~= series_cast_fields(cast@, crew@));
    assert(field_views(crew_v@) =~= series_crew_fields(cast@, crew@));
    if crew_v.len() > 0 { crew_v } else { cast_v }
}

/// The series cast message.
pub open spec fn series_cast_view(name: Seq<char>, poster_path: Seq<char>, credits: Credits) -> EmbedView {
    EmbedView::blank().set_title(name + " \u{2014} Cast & Crew"@).set_color(0x0001_d277).set_thumbnail(
        poster_url(poster_path),
    ).add_fields(series_fields(credits.cast@, credits.crew@)).set_footer("Powered by The Movie Database."@)
}

pub fn series_cast_embed(name: &str, poster_path: &str, credits: &Credits) -> (e: Embed)
    requires
        series_layout_ok(credits.cast@.len() as usize, credits.crew@.len() as usize),
    ensures
        e@ == series_cast_view(name@, poster_path@, *credits),
{
    let mut title = owned(name);
    push_str(&mut title, " \u{2014} Cast & Crew");
    let fields = series_field_list(&credits.cast, &credits.crew);
    Embed::new().title(title).color(0x0001_d277).thumbnail(poster(poster_path)).fields(fields).footer(
        owned("Powered by The Movie Database."),
    )
}

/// The movie cast message: the first five crew members, and a link to the
/// full list.
pub open spec fn movie_cast_view(movie: MovieResult, credits: Credits) -> EmbedView {
    EmbedView::blank().set_title(movie.title@ + " \u{2014} Cast & Crew"@).set_color(0x0001_d277).set_thumbnail(
        poster_url(movie.poster_path@),
    ).set_description(
        "Not all cast and crew members could be displayed for *"@ + movie.title@
            + "*. For a full list of the cast / crew members in this movie, please visit the The Movie Database website by [clicking here](https://www.themoviedb.org/movie/"@
            + signed_decimal(movie.id as int) + "/cast)."@,
    ).add_fields(crew_fields(credits.crew@.take(5), true)).set_footer("Powered by The Movie Database."@)
}

pub fn movie_cast_embed(movie: &MovieResult, credits: &Credits) -> (e: Embed)
    requires
        credits.cast@.len() >= 20,
        credits.crew@.len() >= 5,
    ensures
        e@ == movie_cast_view(*movie, *credits),
{
    let mut title = movie.title.clone();
    push_str(&mut title, " \u{2014} Cast & Crew");
    let mut d = owned("Not all cast and crew members could be displayed for *");
    push_str(&mut d, movie.title.as_str());
    push_str(
        &mut d,
        "*. For a full list of the cast / crew members in this movie, please visit the The Movie Database website by [clicking here](https://www.themoviedb.org/movie/",
    );
    let id = signed_string(movie.id);
    push_str(&mut d, id.as_str());
    push_str(&mut d, "/cast).");
    let mut fields: Vec<EmbedField> = Vec::new();
    assert(field_views(fields@) =~= Seq::<FieldView>::empty());
    push_crew(&mut fields, &credits.crew, 0, 5, true);
    assert(credits.crew@.subrange(0, 5) =~= credits.crew@.take(5));
    Embed::new().title(title).color(0x0001_d277).thumbnail(poster(movie.poster_path.as_str())).description(d).fields(
        fields,
    ).footer(owned("Powered by The Movie Database."))
}

// ---------------------------------------------------------------------------
// Movies
// ---------------------------------------------------------------------------

pub struct SearchMovie {
    pub id: u64,
}

pub struct SearchResponse {
    pub results: Vec<SearchMovie>,
}

/// The movie a search settles on: the first result, if any.
pub fn first_movie(r: &SearchResponse) -> (id: Option<u64>)
    ensures
        id == (if r.results@.len() > 0 { Some(r.results@[0].id) } else { None }),
{
    if r.results.len() > 0 { Some(r.results[0].id) } else { None }
}

/// The details of a movie that the movie message shows.
pub struct MovieDetails {
    pub id: u64,
    pub title: String,
    pub status: String,
    pub tagline: Option<String>,
    pub overview: Option<String>,
    pub production_companies: Vec<String>,
    pub collection: Option<String>,
    pub homepage: Option<String>,
    /// The name of the original language.
    pub language: String,
    /// Release day, in seconds after the Unix epoch.
    pub release_date: Option<i64>,
    pub budget: u64,
    pub revenue: u64,
    pub imdb_id: Option<String>,
    pub genres: Vec<String>,
    /// The popularity figure, as TMDb prints it.
    pub popularity: String,
    /// The average vote times ten, as printed.
    pub user_score: String,
    pub vote_count: u64,
    pub poster_path: Option<String>,
    /// Running time in minutes.
    pub runtime: Option<u64>,
}

pub open spec fn movie_ok(m: MovieDetails) -> bool {
    &&& m.release_date matches Some(d) && utc_in_range(d as int)
    &&& m.imdb_id is Some
    &&& m.poster_path is Some
    &&& m.runtime matches Some(r) && r * 60 <= u64::MAX
}

pub open spec fn tagline_text(m: MovieDetails) -> Seq<char> {
    match m.tagline {
        Some(t) => if t@.len() == 0 { Seq::empty() } else { seq!['*'] + t@ + seq!['*'] },
        None => Seq::empty(),
    }
}

pub open spec fn overview_text(m: MovieDetails) -> Seq<char> {
    match m.overview {
        Some(o) => if tagline_text(m).len() > 0 { "\n\n"@ + o@ } else { o@ },
        None => Seq::empty(),
    }
}

pub open spec fn lines_or(v: Seq<String>, none: Seq<char>) -> Seq<char> {
    if v.len() == 0 { none } else { joined(views(v), "\n"@) }
}

pub open spec fn homepage_text(h: Option<String>) -> Seq<char> {
    match h {
        Some(h) => if h@.len() == 0 { "No Website"@ } else { "[Website]("@ + h@ + ")"@ },
        None => "No Website"@,
    }
}

/// The movie message.
pub open spec fn movie_view(m: MovieDetails) -> EmbedView {
    EmbedView::blank().set_title(m.title@).set_url("https://www.themoviedb.org/movie/"@ + decimal(m.id as nat)).set_color(
        0x01b4e4,
    ).set_thumbnail(poster_url(m.poster_path.unwrap()@)).set_description(tagline_text(m) + overview_text(m))
    .add_field("Status"@, m.status@, true)
    .add_field("Film ID"@, decimal(m.id as nat), true)
    .add_field("Language"@, m.language@, true)
    .add_field("Runtime"@, duration_text((m.runtime.unwrap() * 60) as nat), true)
    .add_field("Release Date"@, utc_text(m.release_date.unwrap() as int, "%B %e, %Y"@), true)
    .add_field("Collection"@, match m.collection { Some(c) => c@, None => "N/A"@ }, true)
    .add_field("Popularity"@, m.popularity@ + "%"@, true)
    .add_field("User Score"@, m.user_score@ + "/100 ("@ + decimal(m.vote_count as nat) + " votes)"@, true)
    .add_field("Budget"@, "$"@ + grouped(m.budget as nat), true)
    .add_field("Box Office"@, "$"@ + grouped(m.revenue as nat), true)
    .add_field("Genres"@, joined(views(m.genres@), "\n"@), true)
    .add_field("Studios"@, lines_or(m.production_companies@, "No Known Studios"@), true)
    .add_field(
        "External Links"@,
        homepage_text(m.homepage) + " | [IMDb](https://www.imdb.com/title/"@ + m.imdb_id.unwrap()@ + ")"@,
        false,
    ).set_footer("Powered by the The Movie Database API."@)
}

fn lines_or_string(v: &Vec<String>, none: &str) -> (s: String)
    ensures
        s@ == lines_or(v@, none@),
{
    if v.len() == 0 { owned(none) } else { join(v, "\n") }
}

#[verifier::rlimit(60)]
pub fn movie_embed(m: &MovieDetails) -> (e: Embed)
    requires
        movie_ok(*m),
    ensures
        e@ == movie_view(*m),
{
    proof {
        reveal_strlit("*");
    }
    let tagline = match &m.tagline {
        Some(t) => if t.as_str().is_empty() {
            String::new()
        } else {
            let mut s = owned("*");
            push_str(&mut s, t.as_str());
            push_str(&mut s, "*");
            s
        },
        None => String::new(),
    };
    assert(tagline@ =~= tagline_text(*m));
    let overview = match &m.overview {
        Some(o) => if !tagline.as_str().is_empty() {
            let mut s = owned("\n\n");
            push_str(&mut s, o.as_str());
            s
        } else {
            o.clone()
        },
        None => String::new(),
    };
    let mut desc = tagline;
    push_str(&mut desc, overview.as_str());
    let homepage = match &m.homepage {
        Some(h) => if h.as_str().is_empty() {
            owned("No Website")
        } else {
            let mut s = owned("[Website](");
            push_str(&mut s, h.as_str());
            push_str(&mut s, ")");
            s
        },
        None => owned("No Website"),
    };
    let mut links = homepage;
    push_str(&mut links, " | [IMDb](https://www.imdb.com/title/");
    push_str(&mut links, m.imdb_id.as_ref().unwrap().as_str());
    push_str(&mut links, ")");
    let mut url = owned("https://www.themoviedb.org/movie/");
    push_decimal(&mut url, m.id);
    let runtime = format_duration_secs(m.runtime.unwrap() * 60);
    let released = utc_string(m.release_date.unwrap(), "%B %e, %Y");
    let collection = match &m.collection {
        Some(c) => c.clone(),
        None => owned("N/A"),
    };
    let mut popularity = m.popularity.clone();
    push_str(&mut popularity, "%");
    let mut score = m.user_score.clone();
    push_str(&mut score, "/100 (");
    push_decimal(&mut score, m.vote_count);
    push_str(&mut score, " votes)");
    let mut budget = owned("$");
    let b = format_int(m.budget);
    push_str(&mut budget, b.as_str());
    let mut revenue = owned("$");
    let r = format_int(m.revenue);
    push_str(&mut revenue, r.as_str());
    Embed::new().title(m.title.clone()).url(url).color(0x01b4e4).thumbnail(poster(m.poster_path.as_ref().unwrap().as_str()))
        .description(desc).field(owned("Status"), m.status.clone(), true).field(
        owned("Film ID"),
        crate::text::decimal_string(m.id),
        true,
    ).field(owned("Language"), m.language.clone(), true).field(owned("Runtime"), runtime, true).field(
        owned("Release Date"),
        released,
        true,
    ).field(owned("Collection"), collection, true).field(owned("Popularity"), popularity, true).field(
        owned("User Score"),
        score,
        true,
    ).field(owned("Budget"), budget, true).field(owned("Box Office"), revenue, true).field(
        owned("Genres"),
        join(&m.genres, "\n"),
        true,
    ).field(owned("Studios"), lines_or_string(&m.production_companies, "No Known Studios"), true).field(
        owned("External Links"),
        links,
        false,
    ).footer(owned("Powered by the The Movie Database API."))
}

// ---------------------------------------------------------------------------
// Series
// ---------------------------------------------------------------------------

/// The details of a series that the series message shows.
pub struct ShowDetails {
    pub id: i64,
    pub name: String,
    pub status: String,
    pub format: String,
    pub overview: String,
    pub tagline: String,
    pub poster_path: Option<String>,
    /// Episode running times, in minutes.
    pub episode_run_time: Vec<u32>,
    pub popularity: String,
    pub in_production: bool,
    pub networks: Vec<String>,
    pub number_of_seasons: u64,
    pub number_of_episodes: u64,
    pub imdb_id: Option<String>,
    pub genres: Vec<String>,
    /// The name of the original language.
    pub language: String,
    /// The names of the spoken languages.
    pub languages: Vec<String>,
    /// The names of the countries of origin.
    pub origin_countries: Vec<String>,
    pub created_by: Vec<String>,
    /// The average vote times ten, as printed.
    pub user_score: String,
    pub vote_count: u64,
    pub first_air_date: i64,
    pub last_air_date: i64,
    pub studios: Vec<String>,
}

/// The search term of the series command, with its cast flags removed.
pub open spec fn series_query(s: Seq<char>) -> Seq<char> {
    replaced(replaced(s, " --cast"@, ""@), " -c"@, ""@)
}

pub fn series_search_term(s: &str) -> (r: String)
    ensures
        r@ == series_query(s@),
{
    proof {
        reveal_strlit(" --cast");
        reveal_strlit(" -c");
    }
    let a = replace(s, " --cast", "");
    replace(a.as_str(), " -c", "")
}

pub open spec fn sum_u32(v: Seq<u32>) -> nat
    decreases v.len(),
{
    if v.len() == 0 { 0 } else { sum_u32(v.drop_last()) + (v.last() as nat) }
}

/// The average episode length in whole minutes; zero without episodes.
pub open spec fn average_minutes(v: Seq<u32>) -> nat {
    if v.len() == 0 { 0 } else { sum_u32(v) / v.len() }
}

proof fn lemma_sum_bound(v: Seq<u32>)
    ensures
        sum_u32(v) <= v.len() * 0xFFFF_FFFF,
    decreases v.len(),
{
    if v.len() > 0 {
        lemma_sum_bound(v.drop_last());
    }
}

/// The average running time of the episodes, rounded down.
pub fn average_runtime(v: &Vec<u32>) -> (r: u64)
    ensures
        r == average_minutes(v@),
        r <= 0xFFFF_FFFF,
{
    let mut sum: u128 = 0;
    let mut i: usize = 0;
    while i < v.len()
        invariant
            i <= v@.len(),
            sum == sum_u32(v@.take(i as int)),
            sum <= i * 0xFFFF_FFFF,
        decreases v@.len() - i,
    {
        assert(v@.take(i + 1).drop_last() =~= v@.take(i as int));
        sum = sum + v[i] as u128;
        i = i + 1;
    }
    assert(v@.take(v@.len() as int) =~= v@);
    if v.len() == 0 {
        0
    } else {
        let n = v.len() as u128;
        let avg = sum / n;
        proof {
            let s = sum as int;
            let d = n as int;
            vstd::arithmetic::div_mod::lemma_div_is_ordered(s, 0xFFFF_FFFF * d, d);
            vstd::arithmetic::div_mod::lemma_div_by_multiple(0xFFFF_FFFF, d);
            assert(0xFFFF_FFFF * d == d * 0xFFFF_FFFF);
        }
        avg as u64
    }
}

pub open spec fn show_ok(s: ShowDetails) -> bool {
    &&& s.poster_path is Some
    &&& s.imdb_id is Some
    &&& utc_in_range(s.first_air_date as int)
    &&& utc_in_range(s.last_air_date as int)
}

/// The first half of the series fields.
#[verifier::opaque]
pub open spec fn show_fields_a(s: ShowDetails) -> Seq<FieldView> {
    seq![
        fv("Overview"@, s.overview@, false),
        fv("Status"@, s.status@, true),
        fv("Format"@, s.format@, true),
        fv("Created By"@, lines_or(s.created_by@, "Unknown"@), true),
        fv("Runtime"@, duration_text(average_minutes(s.episode_run_time@) * 60), true),
        fv("First Air Date"@, utc_text(s.first_air_date as int, "%B %-e, %Y"@), true),
        fv("Last Air Date"@, utc_text(s.last_air_date as int, "%B %-e, %Y"@), true),
        fv("Main Language"@, s.language@, true),
        fv("Origin Countries"@, joined(views(s.origin_countries@), "\n"@), true),
    ]
}

/// The second half of the series fields.
#[verifier::opaque]
pub open spec fn show_fields_b(s: ShowDetails) -> Seq<FieldView> {
    seq![
        fv("Languages"@, joined(views(s.languages@), "\n"@), true),
        fv("Popularity"@, s.popularity@ + "%"@, true),
        fv("User Score"@, s.user_score@ + "/100 ("@ + decimal(s.vote_count as nat) + " votes)"@, true),
        fv("Seasons"@, decimal(s.number_of_seasons as nat), true),
        fv("Episodes"@, decimal(s.number_of_episodes as nat), true),
        fv("Networks / Services"@, joined(views(s.networks@), "\n"@), true),
        fv("Genres"@, joined(views(s.genres@), "\n"@), true),
        fv("Studios"@, lines_or(s.studios@, "Unknown"@), false),
        fv("Production Status"@, if s.in_production { "In Production"@ } else { "Finished Production"@ }, true),
    ]
}

/// The series message.
pub open spec fn show_view(s: ShowDetails) -> EmbedView {
    EmbedView::blank().set_title(s.name@).set_url("https://themoviedb.org/tv/"@ + signed_decimal(s.id as int))
    .set_thumbnail(poster_url(s.poster_path.unwrap()@)).set_color(0x01b4e4).set_description(
        if s.tagline@.len() > 0 { seq!['*'] + s.tagline@ + seq!['*'] } else { Seq::empty() },
    ).add_fields(show_fields_a(s) + show_fields_b(s)).set_footer("Powered by TMDb."@)
}

/// The IMDb button of the series message.
pub open spec fn imdb_button(s: ShowDetails) -> ButtonView {
    ButtonView { label: "View IMDb Page"@, url: "https://www.imdb.com/title/"@ + s.imdb_id.unwrap()@ }
}

fn show_fields_first(s: &ShowDetails, v: &mut Vec<EmbedField>)
    requires
        show_ok(*s),
    ensures
        field_views(final(v)@) == field_views(old(v)@) + show_fields_a(*s),
{
    let runtime = format_duration_secs(average_runtime(&s.episode_run_time) * 60);
    let first = utc_string(s.first_air_date, "%B %-e, %Y");
    let last = utc_string(s.last_air_date, "%B %-e, %Y");
    push_field(v, owned("Overview"), s.overview.clone(), false);
    push_field(v, owned("Status"), s.status.clone(), true);
    push_field(v, owned("Format"), s.format.clone(), true);
    push_field(v, owned("Created By"), lines_or_string(&s.created_by, "Unknown"), true);
    push_field(v, owned("Runtime"), runtime, true);
    push_field(v, owned("First Air Date"), first, true);
    push_field(v, owned("Last Air Date"), last, true);
    push_field(v, owned("Main Language"), s.language.clone(), true);
    push_field(v, owned("Origin Countries"), join(&s.origin_countries, "\n"), true);
    reveal(show_fields_a);
    assert(field_views(v@) =~= field_views(old(v)@) + show_fields_a(*s));
}

fn show_fields_second(s: &ShowDetails, v: &mut Vec<EmbedField>)
    ensures
        field_views(final(v)@) == field_views(old(v)@) + show_fields_b(*s),
{
    let mut popularity = s.popularity.clone();
    push_str(&mut popularity, "%");
    let mut score = s.user_score.clone();
    push_str(&mut score, "/100 (");
    push_decimal(&mut score, s.vote_count);
    push_str(&mut score, " votes)");
    push_field(v, owned("Languages"), join(&s.languages, "\n"), true);
    push_field(v, owned("Popularity"), popularity, true);
    push_field(v, owned("User Score"), score, true);
    push_field(v, owned("Seasons"), crate::text::decimal_string(s.number_of_seasons), true);
    push_field(v, owned("Episodes"), crate::text::decimal_string(s.number_of_episodes), true);
    push_field(v, owned("Networks / Services"), join(&s.networks, "\n"), true);
    push_field(v, owned("Genres"), join(&s.genres, "\n"), true);
    push_field(v, owned("Studios"), lines_or_string(&s.studios, "Unknown"), false);
    push_field(
        v,
        owned("Production Status"),
        owned(if s.in_production { "In Production" } else { "Finished Production" }),
        true,
    );
    reveal(show_fields_b);
    assert(field_views(v@) =~= field_views(old(v)@) + show_fields_b(*s));
}

/// The series message and its IMDb button.
pub fn show_embed(s: &ShowDetails) -> (r: (Embed, LinkButton))
    requires
        show_ok(*s),
    ensures
        r.0@ == show_view(*s),
        r.1@ == imdb_button(*s),
{
    proof {
        reveal_strlit("*");
    }
    let mut url = owned("https://themoviedb.org/tv/");
    let id = signed_string(s.id);
    push_str(&mut url, id.as_str());
    let tagline = if !s.tagline.as_str().is_empty() {
        let mut t = owned("*");
        push_str(&mut t, s.tagline.as_str());
        push_str(&mut t, "*");
        t
    } else {
        String::new()
    };
    assert(tagline@ =~= (if s.tagline@.len() > 0 { seq!['*'] + s.tagline@ + seq!['*'] } else { Seq::<char>::empty() }));
    let mut fields: Vec<EmbedField> = Vec::new();
    assert(field_views(fields@) =~= Seq::<FieldView>::empty());
    show_fields_first(s, &mut fields);
    show_fields_second(s, &mut fields);
    assert(field_views(fields@) =~= show_fields_a(*s) + show_fields_b(*s));
    let mut imdb = owned("https://www.imdb.com/title/");
    push_str(&mut imdb, s.imdb_id.as_ref().unwrap().as_str());
    let e = Embed::new().title(s.name.clone()).url(url).thumbnail(poster(s.poster_path.as_ref().unwrap().as_str())).color(
        0x01b4e4,
    ).description(tagline).fields(fields).footer(owned("Powered by TMDb."));
    (e, LinkButton { label: owned("View IMDb Page"), url: imdb })
}

// ---------------------------------------------------------------------------
// Collections
// ---------------------------------------------------------------------------


/// A movie's production status.
pub struct Movie {
    pub status: String,
}

/// A movie that belongs to a collection.
pub struct SimplifiedMovie {
    pub adult: bool,
    pub id: u64,
    pub overview: String,
    /// Release day, in seconds after the Unix epoch.
    pub release_date: i64,
    pub title: String,
}

pub struct Collection {
    pub id: u64,
    pub name: String,
    pub overview: String,
    pub poster_path: String,
    pub backdrop_path: String,
    pub parts: Vec<SimplifiedMovie>,
}

pub open spec fn part_keys(parts: Seq<SimplifiedMovie>) -> Seq<i64> {
    parts.map_values(|p: SimplifiedMovie| p.release_date)
}

/// The parts in order of release; parts released on the same day keep
/// their order.
pub open spec fn sorted_parts(parts: Seq<SimplifiedMovie>, order: Seq<usize>) -> Seq<SimplifiedMovie> {
    order.map_values(|i: usize| parts[i as int])
}

pub open spec fn part_field(p: SimplifiedMovie) -> FieldView {
    fv(p.title@ + " ("@ + utc_text(p.release_date as int, "%B %-e, %Y"@) + ")"@, p.overview@, false)
}

pub open spec fn part_button(p: SimplifiedMovie) -> ButtonView {
    ButtonView { label: p.title@, url: "https://themoviedb.org/movie/"@ + decimal(p.id as nat) }
}

pub open spec fn collection_ok(c: Collection) -> bool {
    forall|i: int| 0 <= i < c.parts@.len() ==> utc_in_range((#[trigger] c.parts@[i]).release_date as int)
}

/// The collection message, given the release order of its parts.
pub open spec fn collection_view(c: Collection, order: Seq<usize>) -> EmbedView {
    EmbedView::blank().set_title(c.name@).set_url("https://www.themoviedb.org/collection/"@ + decimal(c.id as nat))
    .set_thumbnail("https://image.tmdb.org/t/p/original"@ + c.poster_path@).set_color(0x0001_d277).set_description(
        c.overview@,
    ).add_fields(sorted_parts(c.parts@, order).map_values(|p: SimplifiedMovie| part_field(p))).set_footer(
        "Powered by TMDb."@,
    )
}

/// The collection message and its movie buttons, five to a row. The parts
/// appear in the stable order of their release dates.
pub fn collection_embed(c: &Collection) -> (r: (Embed, Vec<Vec<LinkButton>>))
    requires
        collection_ok(*c),
    ensures
        r.0@ == collection_view(*c, stable_sorted(part_keys(c.parts@))),
        button_row_views(r.1@) == chunks5(
            sorted_parts(c.parts@, stable_sorted(part_keys(c.parts@))).map_values(|p: SimplifiedMovie| part_button(p)),
        ),
{
    let mut keys: Vec<i64> = Vec::new();
    let mut i: usize = 0;
    while i < c.parts.len()
        invariant
            i <= c.parts@.len(),
            keys@ == part_keys(c.parts@).take(i as int),
        decreases c.parts@.len() - i,
    {
        keys.push(c.parts[i].release_date);
        assert(keys@ =~= part_keys(c.parts@).take(i + 1));
        i = i + 1;
    }
    assert(keys@ =~= part_keys(c.parts@));
    let order = stable_order(&keys);
    let ghost sorted = sorted_parts(c.parts@, order@);
    let mut fields: Vec<EmbedField> = Vec::new();
    let mut buttons: Vec<LinkButton> = Vec::new();
    let mut k: usize = 0;
    assert(field_views(fields@) =~= Seq::<FieldView>::empty());
    assert(button_views(buttons@) =~= Seq::<ButtonView>::empty());
    while k < order.len()
        invariant
            is_stable_order(part_keys(c.parts@), order@),
            collection_ok(*c),
            sorted == sorted_parts(c.parts@, order@),
            k <= order@.len(),
            field_views(fields@) == sorted.take(k as int).map_values(|p: SimplifiedMovie| part_field(p)),
            button_views(buttons@) == sorted.take(k as int).map_values(|p: SimplifiedMovie| part_button(p)),
        decreases order@.len() - k,
    {
        let idx = order[k];
        assert(order@[k as int] < c.parts@.len());
        let p = &c.parts[idx];
        assert(sorted[k as int] == c.parts@[idx as int]);
        assert(utc_in_range(c.parts@[idx as int].release_date as int));
        let mut name = p.title.clone();
        push_str(&mut name, " (");
        let date = utc_string(p.release_date, "%B %-e, %Y");
        push_str(&mut name, date.as_str());
        push_str(&mut name, ")");
        push_field(&mut fields, name, p.overview.clone(), false);
        assert(sorted.take(k + 1).map_values(|p: SimplifiedMovie| part_field(p)) =~= sorted.take(k as int).map_values(
            |p: SimplifiedMovie| part_field(p),
        ).push(part_field(sorted[k as int])));
        let mut url = owned("https://themoviedb.org/movie/");
        push_decimal(&mut url, p.id);
        let b = LinkButton { label: p.title.clone(), url };
        let ghost before = buttons@;
        buttons.push(b);
        assert(button_views(buttons@) =~= button_views(before).push(b@));
        assert(sorted.take(k + 1).map_values(|p: SimplifiedMovie| part_button(p)) =~= sorted.take(k as int).map_values(
            |p: SimplifiedMovie| part_button(p),
        ).push(part_button(sorted[k as int])));
        k = k + 1;
    }
    assert(sorted.take(order@.len() as int) =~= sorted);
    let rows = button_rows_of(&buttons);
    let mut url = owned("https://www.themoviedb.org/collection/");
    push_decimal(&mut url, c.id);
    let mut thumb = owned("https://image.tmdb.org/t/p/original");
    push_str(&mut thumb, c.poster_path.as_str());
    let e = Embed::new().title(c.name.clone()).url(url).thumbnail(thumb).color(0x0001_d277).description(c.overview.clone())
        .fields(fields).footer(owned("Powered by TMDb."));
    (e, rows)
}

/// The answer to the bare `tmdb` command.
pub fn no_subcommand() -> (r: crate::embed::Reply)
    ensures
        r@ == crate::embed::ReplyView::Say("No valid subcommand entered. Do `help tmdb` to see the commands."@),
{
    crate::embed::say(crate::text::owned("No valid subcommand entered. Do `help tmdb` to see the commands."))
}


// ---------------------------------------------------------------------------
// Refusals
// ---------------------------------------------------------------------------

/// The TMDb commands that search.
pub enum TmdbSearch {
    Cast,
    Collection,
    Movie,
    Show,
}

/// What a search command says when it is given nothing to search for.
pub open spec fn no_term_text(c: TmdbSearch) -> Seq<char> {
    match c {
        TmdbSearch::Cast => "No show or movie name provided. Provide one & try again."@,
        TmdbSearch::Collection => "No collection name provided. Please provide one."@,
        TmdbSearch::Movie => "Invalid movie name provided. Please try again."@,
        TmdbSearch::Show => "Invalid show name provided. Please try again."@,
    }
}

/// How each search command asks for another term when it finds nothing.
pub open spec fn retry_text(c: TmdbSearch) -> Seq<char> {
    match c {
        TmdbSearch::Cast => "Please try a different term."@,
        TmdbSearch::Collection => "Please try another name."@,
        TmdbSearch::Movie => "Please try again."@,
        TmdbSearch::Show => "Please try a different name."@,
    }
}

/// The answer of a search command given nothing to search for.
pub fn no_term(c: TmdbSearch) -> (r: crate::embed::Reply)
    ensures
        r@ == crate::embed::ReplyView::Say(no_term_text(c)),
{
    crate::embed::say(owned(match c {
        TmdbSearch::Cast => "No show or movie name provided. Provide one & try again.",
        TmdbSearch::Collection => "No collection name provided. Please provide one.",
        TmdbSearch::Movie => "Invalid movie name provided. Please try again.",
        TmdbSearch::Show => "Invalid show name provided. Please try again.",
    }))
}

/// The answer of a search command whose search found nothing.
pub fn not_found(c: TmdbSearch, term: &str) -> (r: crate::embed::Reply)
    ensures
        r@ == crate::embed::ReplyView::Say(nothing_found_text(term@, retry_text(c))),
{
    let tail = match c {
        TmdbSearch::Cast => "Please try a different term.",
        TmdbSearch::Collection => "Please try another name.",
        TmdbSearch::Movie => "Please try again.",
        TmdbSearch::Show => "Please try a different name.",
    };
    crate::embed::say(nothing_found(term, tail))
}

/// Which search the cast command makes for the media type it was given,
/// or what it says when the type is neither a series nor a movie (it then
/// makes no request).
pub fn cast_media(media_type: &str) -> (r: Result<MediaKind, crate::embed::Reply>)
    ensures
        media_kind_of(media_type@) is Unknown <==> r is Err,
        r matches Ok(k) ==> k == media_kind_of(media_type@),
        r matches Err(reply) ==> reply@ == crate::embed::ReplyView::Say("This is not a recognized media type!"@),
{
    match media_kind(media_type) {
        MediaKind::Unknown => Err(crate::embed::say(owned("This is not a recognized media type!"))),
        k => Ok(k),
    }
}


/// The collection card lists its parts in order of release: every part
/// exactly once, earlier releases first, parts released on the same day in
/// the order TMDb gave them. (`collection_embed` lays the parts' buttons
/// out in this same order, five to a row.)
pub proof fn collection_parts_in_release_order(c: Collection)
    ensures
        ({
            let order = stable_sorted(part_keys(c.parts@));
            let shown = sorted_parts(c.parts@, order);
            &&& shown.len() == c.parts@.len()
            &&& forall|i: int| 0 <= i < shown.len() ==> order[i] < c.parts@.len() && #[trigger] shown[i] == c.parts@[order[i] as int]
            &&& forall|i: int, j: int| 0 <= i < shown.len() && 0 <= j < shown.len() && i != j ==> order[i] != order[j]
            &&& forall|k: usize| k < c.parts@.len() ==> #[trigger] order.contains(k)
            &&& forall|i: int, j: int| 0 <= i < j < shown.len() ==> (#[trigger] shown[i]).release_date < (#[trigger] shown[j]).release_date
                || (shown[i].release_date == shown[j].release_date && order[i] < order[j])
            &&& collection_view(c, order).fields == shown.map_values(|p: SimplifiedMovie| part_field(p))
        }),
{
    let keys = part_keys(c.parts@);
    assert(keys.len() == c.parts.len());
    lemma_stable_sorted(keys);
    let order = stable_sorted(keys);
    crate::order::lemma_stable_order_distinct(keys, order);
    let shown = sorted_parts(c.parts@, order);
    assert forall|i: int, j: int| 0 <= i < j < shown.len() implies (#[trigger] shown[i]).release_date < (#[trigger] shown[j]).release_date
        || (shown[i].release_date == shown[j].release_date && order[i] < order[j]) by {
        assert(crate::order::key_before(keys, order[i] as int, order[j] as int));
    }
    assert(collection_view(c, order).fields =~= shown.map_values(|p: SimplifiedMovie| part_field(p)));
}


/// The Budget and Box Office fields give the movie's budget and revenue in
/// dollars: each is "$" followed by its own figure with thousands
/// separators, and leaving the commas out reads back as that figure.
pub proof fn movie_money_fields(m: MovieDetails)
    ensures
        ({
            let f = movie_view(m).fields;
            &&& f.len() == 13
            &&& f[8].name == "Budget"@ && f[9].name == "Box Office"@
            &&& f[8].value.len() > 0 && f[8].value[0] == '$'
            &&& f[9].value.len() > 0 && f[9].value[0] == '$'
            &&& parsed_u64(without_commas(f[8].value.skip(1))) == Some(m.budget as nat)
            &&& parsed_u64(without_commas(f[9].value.skip(1))) == Some(m.revenue as nat)
        }),
{
    reveal_strlit("$");
    let f = movie_view(m).fields;
    grouped_has_decimal_digits(m.budget as nat);
    grouped_has_decimal_digits(m.revenue as nat);
    decimal_reads_back(m.budget);
    decimal_reads_back(m.revenue);
    assert(f[8].value == "$"@ + grouped(m.budget as nat));
    assert(f[9].value == "$"@ + grouped(m.revenue as nat));
    assert(f[8].value.skip(1) =~= grouped(m.budget as nat));
    assert(f[9].value.skip(1) =~= grouped(m.revenue as nat));
}

} // verus!
