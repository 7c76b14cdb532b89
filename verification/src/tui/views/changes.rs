//! Changes view: pending write-backs awaiting approval.

use vstd::prelude::*;

verus! {

/// Changes view state.
#[derive(Debug, Clone)]
pub struct ChangesState {
    pub changes: Vec<PendingChange>,
    pub selected: usize,
    pub loaded: bool,
}

/// A pending change for display.
#[derive(Debug, Clone)]
pub struct PendingChange {
    pub id: String,
    pub file_title: String,
    pub project: String,
    pub reason: String,
    pub diff: String,
}

impl Default for ChangesState {
    /// Nothing loaded.
    fn default() -> (r: Self)
        ensures
            r.changes@.len() == 0 && r.selected == 0 && !r.loaded,
    {
        ChangesState { changes: Vec::new(), selected: 0, loaded: false }
    }
}

} // verus!
