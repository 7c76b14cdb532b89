//! The terminal application: its views' data, its key bindings and the
//! state machine that decides what each key press and each finished
//! request does.

pub mod keys;
pub mod format;
pub mod data;
pub mod views;
pub mod view;
pub mod app;
pub mod machine;
