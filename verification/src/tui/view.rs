//! The views of the terminal application.

use vstd::prelude::*;

verus! {

/// Which view is currently active.
#[derive(Debug, Clone, PartialEq)]
pub enum View {
    Dashboard,
    Status,
    Project { slug: String },
    Search,
    Changes,
    Pipeline,
    LeadDetail { id: String },
    Identity,
    Skills,
    Chat,
    Clients,
    ClientDetail { slug: String },
}

} // verus!
