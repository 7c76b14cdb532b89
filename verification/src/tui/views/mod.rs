//! The state of each view of the terminal application.

pub mod changes;
pub mod chat;
pub mod clients;
pub mod identity;
pub mod lead;
pub mod pipeline;
pub mod project;
pub mod search;
pub mod skills;
pub mod status;
