//! Project view data.

use vstd::prelude::*;
use crate::text::str_eq;

verus! {

/// Team member assigned to a project.
#[derive(Debug, Clone)]
pub struct TeamMember {
    pub user_id: String,
    pub name: String,
    pub email: String,
    /// `member` or `manager`.
    pub role: String,
}

/// Project view data loaded from the API; `engagement_value` is the bit
/// pattern of the `f64` amount the API sent.
#[derive(Debug, Clone)]
pub struct ProjectData {
    pub name: String,
    pub description: Option<String>,
    pub phase: String,
    pub client_name: Option<String>,
    pub engagement_value: Option<u64>,
    pub files: Vec<FileEntry>,
    pub tasks: Vec<TaskEntry>,
    pub decisions: Vec<DecisionEntry>,
    pub repos: Vec<RepoEntry>,
    pub team: Vec<TeamMember>,
}

/// Linked GitHub repository.
#[derive(Debug, Clone)]
pub struct RepoEntry {
    pub id: String,
    pub github_repo: String,
    pub label: Option<String>,
}

#[derive(Debug, Clone)]
pub struct FileEntry {
    pub slug: String,
    pub category: String,
}

#[derive(Debug, Clone)]
pub struct TaskEntry {
    pub title: String,
    pub status: String,
    pub assigned_to: Option<String>,
}

/// Decision entry for display.
#[derive(Debug, Clone)]
pub struct DecisionEntry {
    pub id: String,
    pub title: String,
    pub status: String,
    pub resolution: Option<String>,
}

impl ProjectData {
    /// Nothing loaded.
    pub open spec fn is_empty(&self) -> bool {
        &&& self.name@.len() == 0
        &&& self.description is None
        &&& self.phase@.len() == 0
        &&& self.client_name is None
        &&& self.engagement_value is None
        &&& self.files@.len() == 0
        &&& self.tasks@.len() == 0
        &&& self.decisions@.len() == 0
        &&& self.repos@.len() == 0
        &&& self.team@.len() == 0
    }
}

impl Default for ProjectData {
    /// Nothing loaded.
    fn default() -> (r: Self)
        ensures
            r.is_empty(),
    {
        ProjectData {
            name: String::new(),
            description: None,
            phase: String::new(),
            client_name: None,
            engagement_value: None,
            files: Vec::new(),
            tasks: Vec::new(),
            decisions: Vec::new(),
            repos: Vec::new(),
            team: Vec::new(),
        }
    }
}

/// The decisions whose status is `open`, in their order.
pub open spec fn open_decision_list(ds: Seq<DecisionEntry>) -> Seq<DecisionEntry>
    decreases ds.len(),
{
    if ds.len() == 0 {
        Seq::<DecisionEntry>::empty()
    } else {
        let rest = open_decision_list(ds.drop_last());
        if ds.last().status@ == "open"@ {
            rest.push(ds.last())
        } else {
            rest
        }
    }
}

/// The decisions the project view lists: those still open, in their order.
pub fn open_decisions(decisions: &Vec<DecisionEntry>) -> (r: Vec<&DecisionEntry>)
    ensures
        r@.map_values(|d: &DecisionEntry| *d) == open_decision_list(decisions@),
{
    let mut r: Vec<&DecisionEntry> = Vec::new();
    let mut i: usize = 0;
    assert(r@.map_values(|d: &DecisionEntry| *d) =~= open_decision_list(decisions@.take(0)));
    while i < decisions.len()
        invariant
            i <= decisions.len(),
            r@.map_values(|d: &DecisionEntry| *d) == open_decision_list(decisions@.take(i as int)),
        decreases decisions.len() - i,
    {
        let d = &decisions[i];
        assert(decisions@.take(i + 1).drop_last() =~= decisions@.take(i as int));
        assert(decisions@.take(i + 1).last() == *d);
        let ghost before = r@.map_values(|d: &DecisionEntry| *d);
        if str_eq(d.status.as_str(), "open") {
            r.push(d);
            assert(r@.map_values(|d: &DecisionEntry| *d) =~= before.push(*d));
        }
        i += 1;
    }
    assert(decisions@.take(decisions@.len() as int) =~= decisions@);
    r
}

/// Whether a team member is the project's manager (marked in the team list).
pub fn is_manager(member: &TeamMember) -> (r: bool)
    ensures
        r == (member.role@ == "manager"@),
{
    str_eq(member.role.as_str(), "manager")
}

} // verus!
