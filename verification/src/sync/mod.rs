//! The synchronization engine: reconciling the local collections with the
//! remote peer's.

pub mod commands;
pub mod entity;
pub mod errors;
pub mod laws;
pub mod orchestrator;
pub mod outcome;
pub mod reconcile;
pub mod run;
pub mod settings;
pub mod snapshot;
