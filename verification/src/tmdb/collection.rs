//! The search behind the collection command.
use vstd::prelude::*;

verus! {

pub struct SearchCollection {
    pub id: u64,
}

/// The result list of a collection search.
pub struct SearchResponse {
    pub results: Vec<SearchCollection>,
}

/// The collection a search settles on: the first result, if any.
pub fn first_collection(r: &SearchResponse) -> (id: Option<u64>)
    ensures
        id == (if r.results@.len() > 0 { Some(r.results@[0].id) } else { None }),
{
    if r.results.len() > 0 { Some(r.results[0].id) } else { None }
}

} // verus!
