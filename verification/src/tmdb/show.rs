//! The search behind the series command.
use vstd::prelude::*;

verus! {

/// The result list of a series search.
pub struct SearchResponse {
    pub results: Vec<Result>,
}

/// One series a search found.
pub struct Result {
    pub id: i64,
}

/// The series a search settles on: the first result, if any.
pub fn first_show(r: &SearchResponse) -> (id: Option<i64>)
    ensures
        id == (if r.results@.len() > 0 { Some(r.results@[0].id) } else { None }),
{
    if r.results.len() > 0 { Some(r.results[0].id) } else { None }
}

} // verus!
