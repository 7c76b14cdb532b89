//! Search view state.

use vstd::prelude::*;

verus! {

/// Search view state.
#[derive(Debug, Clone)]
pub struct SearchState {
    pub query: String,
    pub results: Vec<SearchResult>,
    pub selected: usize,
    pub searching: bool,
    pub searched: bool,
}

/// A single search result; `similarity` is the bit pattern of the `f64`
/// score the API sent.
#[derive(Debug, Clone)]
pub struct SearchResult {
    pub project_slug: String,
    pub file_slug: String,
    pub chunk_text: String,
    pub similarity: u64,
}

impl Default for SearchState {
    /// No query, no results.
    fn default() -> (r: Self)
        ensures
            r.query@.len() == 0 && r.results@.len() == 0 && r.selected == 0 && !r.searching
                && !r.searched,
    {
        SearchState { query: String::new(), results: Vec::new(), selected: 0, searching: false, searched: false }
    }
}

} // verus!
