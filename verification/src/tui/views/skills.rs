//! Skills view state.

use vstd::prelude::*;

verus! {

/// Skills view state.
#[derive(Debug, Clone)]
pub struct SkillsState {
    pub skills: Vec<SkillSummary>,
    pub selected: usize,
    pub loaded: bool,
    pub run_output: Option<String>,
}

/// A skill that can be run.
#[derive(Debug, Clone)]
pub struct SkillSummary {
    pub slug: String,
    pub name: String,
    pub description: String,
    pub scope: String,
}

impl Default for SkillsState {
    /// Nothing loaded.
    fn default() -> (r: Self)
        ensures
            r.skills@.len() == 0 && r.selected == 0 && !r.loaded && r.run_output is None,
    {
        SkillsState { skills: Vec::new(), selected: 0, loaded: false, run_output: None }
    }
}

} // verus!
