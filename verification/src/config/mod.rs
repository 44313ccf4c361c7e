//! Configuration: the typed model and its validation, environment
//! substitution, change detection and the bookkeeping of hot reloads.

pub mod diff_laws;
pub mod loader;
pub mod manager;
pub mod types;
pub mod validation;
pub mod watcher;
