//! Clients view state: the client list and one client's detail. Money
//! amounts are the bit patterns of the `f64` values the API sent.

use vstd::prelude::*;

verus! {

/// Client summary for list display.
#[derive(Debug, Clone)]
pub struct ClientSummary {
    pub id: String,
    pub name: String,
    pub slug: String,
    pub primary_contact: Option<String>,
    pub contact_email: Option<String>,
    pub engagement_count: i64,
    pub project_count: i64,
    pub total_value: Option<u64>,
}

/// Engagement summary within a client.
#[derive(Debug, Clone)]
pub struct EngagementSummary {
    pub id: String,
    pub name: String,
    pub outcome: Option<String>,
    pub value: Option<u64>,
}

/// Project summary within a client detail.
#[derive(Debug, Clone)]
pub struct ClientProject {
    pub id: String,
    pub name: String,
    pub slug: String,
    pub description: Option<String>,
    pub phase: String,
}

/// Client detail data.
#[derive(Debug, Clone)]
pub struct ClientDetailData {
    pub id: String,
    pub name: String,
    pub slug: String,
    pub primary_contact: Option<String>,
    pub contact_email: Option<String>,
    pub notes: Option<String>,
    pub engagements: Vec<EngagementSummary>,
    pub projects: Vec<ClientProject>,
    pub selected: usize,
}

/// State for the clients list view.
#[derive(Debug, Clone)]
pub struct ClientsState {
    pub clients: Vec<ClientSummary>,
    pub selected: usize,
    pub loaded: bool,
    pub detail: Option<ClientDetailData>,
}

impl ClientDetailData {
    /// Nothing loaded.
    pub open spec fn is_empty(&self) -> bool {
        &&& self.id@.len() == 0
        &&& self.name@.len() == 0
        &&& self.slug@.len() == 0
        &&& self.primary_contact is None
        &&& self.contact_email is None
        &&& self.notes is None
        &&& self.engagements@.len() == 0
        &&& self.projects@.len() == 0
        &&& self.selected == 0
    }
}

impl Default for ClientDetailData {
    /// Nothing loaded.
    fn default() -> (r: Self)
        ensures
            r.is_empty(),
    {
        ClientDetailData {
            id: String::new(),
            name: String::new(),
            slug: String::new(),
            primary_contact: None,
            contact_email: None,
            notes: None,
            engagements: Vec::new(),
            projects: Vec::new(),
            selected: 0,
        }
    }
}

impl Default for ClientsState {
    /// Nothing loaded, no client open.
    fn default() -> (r: Self)
        ensures
            r.clients@.len() == 0 && r.selected == 0 && !r.loaded && r.detail is None,
    {
        ClientsState { clients: Vec::new(), selected: 0, loaded: false, detail: None }
    }
}

} // verus!
