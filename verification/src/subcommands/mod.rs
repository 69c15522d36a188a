//! The commands that are aliases of the orchestrator.

pub mod stop;
