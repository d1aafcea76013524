use ellie::tmdb::collection::{first_collection, SearchCollection, SearchResponse as CollectionResults};
use ellie::tmdb::show::{first_show, Result as ShowResult, SearchResponse as ShowResults};
use ellie::embed::Reply;
use ellie::tmdb::{
    average_runtime, cast_media, collection_embed, no_term, not_found, TmdbSearch, first_movie, media_kind, nothing_found, poster, series_search_term, split_year,
    Collection, MediaKind, SearchMovie, SearchResponse, SimplifiedMovie,
};

#[test]
fn year_markers_split_the_search() {
    let r = split_year("Alien y:1979");
    assert_eq!(r.query, "Alien");
    assert_eq!(r.year.as_deref(), Some("1979"));
    let r = split_year("Blade Runner year:1982");
    assert_eq!(r.query, "Blade Runner");
    assert_eq!(r.year.as_deref(), Some("1982"));
    let r = split_year("Heat");
    assert_eq!(r.query, "Heat");
    assert_eq!(r.year, None);
}

#[test]
fn small_tmdb_helpers() {
    assert_eq!(poster("/abc/def.jpg"), "https://image.tmdb.org/t/p/original/abcdef.jpg");
    assert!(matches!(media_kind("tv show"), MediaKind::Series));
    assert!(matches!(media_kind("film"), MediaKind::Movie));
    assert!(matches!(media_kind("book"), MediaKind::Unknown));
    assert_eq!(series_search_term("Lost --cast"), "Lost");
    assert_eq!(series_search_term("Lost -c"), "Lost");
    assert_eq!(average_runtime(&vec![40, 45, 50]), 45);
    assert_eq!(average_runtime(&vec![]), 0);
    assert_eq!(nothing_found("zz", "Please try a different name."), "Nothing found for `zz`. Please try a different name.");
}

#[test]
fn searches_settle_on_the_first_result() {
    assert_eq!(first_movie(&SearchResponse { results: vec![SearchMovie { id: 8 }, SearchMovie { id: 9 }] }), Some(8));
    assert_eq!(first_movie(&SearchResponse { results: vec![] }), None);
    assert_eq!(first_show(&ShowResults { results: vec![ShowResult { id: -1 }] }), Some(-1));
    assert_eq!(first_collection(&CollectionResults { results: vec![SearchCollection { id: 3 }] }), Some(3));
    assert_eq!(first_collection(&CollectionResults { results: vec![] }), None);
}

fn part(id: u64, title: &str, day: i64) -> SimplifiedMovie {
    SimplifiedMovie { adult: false, id, overview: format!("{title} story"), release_date: day * 86400, title: title.to_string() }
}

#[test]
fn collection_parts_in_release_order() {
    let c = Collection {
        id: 10,
        name: "Trilogy".to_string(),
        overview: "Three films".to_string(),
        poster_path: "/p.jpg".to_string(),
        backdrop_path: "/b.jpg".to_string(),
        parts: vec![part(3, "Third", 20), part(1, "First", 0), part(4, "Also first", 0), part(2, "Second", 10)],
    };
    let (e, rows) = collection_embed(&c);
    let names: Vec<&str> = e.fields.iter().map(|f| f.name.as_str()).collect();
    assert_eq!(
        names,
        vec!["First (January 1, 1970)", "Also first (January 1, 1970)", "Second (January 11, 1970)", "Third (January 21, 1970)"]
    );
    assert_eq!(e.url.as_deref(), Some("https://www.themoviedb.org/collection/10"));
    assert_eq!(e.thumbnail.as_deref(), Some("https://image.tmdb.org/t/p/original/p.jpg"));
    assert_eq!(rows.len(), 1);
    assert_eq!(rows[0][0].url, "https://themoviedb.org/movie/1");
    assert_eq!(rows[0][3].label, "Third");
}

fn said(r: &Reply) -> &str {
    match r {
        Reply::Say(s) => s.as_str(),
        _ => panic!("expected a plain message"),
    }
}

#[test]
fn search_refusals_are_worded_per_command() {
    assert_eq!(said(&no_term(TmdbSearch::Cast)), "No show or movie name provided. Provide one & try again.");
    assert_eq!(said(&no_term(TmdbSearch::Movie)), "Invalid movie name provided. Please try again.");
    assert_eq!(said(&no_term(TmdbSearch::Show)), "Invalid show name provided. Please try again.");
    assert_eq!(said(&no_term(TmdbSearch::Collection)), "No collection name provided. Please provide one.");
    assert_eq!(said(&not_found(TmdbSearch::Cast, "Alien")), "Nothing found for `Alien`. Please try a different term.");
    assert_eq!(said(&not_found(TmdbSearch::Movie, "Alien")), "Nothing found for `Alien`. Please try again.");
    assert_eq!(said(&not_found(TmdbSearch::Show, "Lost")), "Nothing found for `Lost`. Please try a different name.");
    assert_eq!(said(&not_found(TmdbSearch::Collection, "Bond")), "Nothing found for `Bond`. Please try another name.");
    assert!(matches!(cast_media("tvshow"), Ok(MediaKind::Series)));
    assert!(matches!(cast_media("film"), Ok(MediaKind::Movie)));
    match cast_media("book") {
        Err(r) => assert_eq!(said(&r), "This is not a recognized media type!"),
        Ok(_) => panic!("a book is no media type"),
    }
}
