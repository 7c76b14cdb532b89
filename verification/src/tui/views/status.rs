//! Status view: the daily briefing's tasks and decisions.

use vstd::prelude::*;

verus! {

/// Which section is focused in the status view.
#[derive(Debug, Clone, Copy, PartialEq, Eq, Structural)]
pub enum StatusSection {
    Tasks,
    Decisions,
}

/// Status view data loaded from the API.
#[derive(Debug, Clone)]
pub struct StatusData {
    pub summary: String,
    pub tasks: Vec<StatusTask>,
    pub overdue: Vec<StatusTask>,
    pub decisions: Vec<StatusDecision>,
    pub pending_changes: usize,
    pub selected_section: StatusSection,
    pub selected_index: usize,
}

#[derive(Debug, Clone)]
pub struct StatusTask {
    pub id: String,
    pub title: String,
    pub status: String,
    pub due: Option<String>,
    pub project_slug: String,
}

#[derive(Debug, Clone)]
pub struct StatusDecision {
    pub id: String,
    pub title: String,
    pub project: String,
}

impl StatusData {
    /// Nothing loaded.
    pub open spec fn is_empty(&self) -> bool {
        &&& self.summary@.len() == 0
        &&& self.tasks@.len() == 0
        &&& self.overdue@.len() == 0
        &&& self.decisions@.len() == 0
        &&& self.pending_changes == 0
        &&& self.selected_section == StatusSection::Tasks
        &&& self.selected_index == 0
    }

    /// The tasks as listed: overdue ones first, then the others.
    pub open spec fn all_tasks(&self) -> Seq<StatusTask> {
        self.overdue@ + self.tasks@
    }

    /// The last index that can be selected in the focused section
    /// (0 when it is empty).
    pub open spec fn max_index(&self) -> int {
        match self.selected_section {
            StatusSection::Tasks => if self.overdue@.len() + self.tasks@.len() == 0 {
                0
            } else {
                self.overdue@.len() + self.tasks@.len() - 1
            },
            StatusSection::Decisions => if self.decisions@.len() == 0 {
                0
            } else {
                self.decisions@.len() - 1
            },
        }
    }
}

impl Default for StatusData {
    /// Nothing loaded, the tasks section focused.
    fn default() -> (r: Self)
        ensures
            r.is_empty(),
    {
        StatusData {
            summary: String::new(),
            tasks: Vec::new(),
            overdue: Vec::new(),
            decisions: Vec::new(),
            pending_changes: 0,
            selected_section: StatusSection::Tasks,
            selected_index: 0,
        }
    }
}

} // verus!
