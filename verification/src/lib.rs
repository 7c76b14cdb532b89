//! Command-line and terminal client for the Agema Labs OS service: the
//! request/response logic, text helpers and the terminal application's
//! state machine, with their contracts.

pub mod text;
pub mod auth;
pub mod commands;
pub mod upgrade;
pub mod config;
pub mod api;
pub mod tui;
