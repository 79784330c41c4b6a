//! Monitoring helpers for a local replica: the text of a replica's HTML
//! dashboard is turned into a structured snapshot, and the small pieces of
//! state behind the terminal front end are kept as plain, verified values.

pub mod commands;
pub mod dashboard;
pub mod exports;
pub mod panes;
pub mod project;
pub mod state;
pub mod text;
