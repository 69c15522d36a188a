//! The commands that are no aliases of the orchestrator.

pub mod timelog;
