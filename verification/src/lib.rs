//! Command-to-task planning for a container-based development environment.
//!
//! A request, such as "push these files into the container", is turned
//! into a plan: an ordered list of tasks, each of which runs a command,
//! prints a notice, checks a path or makes or removes a directory. Planning
//! touches nothing; a plan is data that can be looked at before anything is
//! run. The executor then decides, task by task, whether to go on.
//!
//! - `context`, `cmd`, `task`: the configuration, the requests and the
//!   tasks.
//! - `recipes`: the planners. `recipes::m2::sync` plans pushes and pulls in
//!   phase batches; `recipes::m2::sync_order` states the order of the
//!   phases.
//! - `executor`: the state machine that carries a plan out.
//! - `paths`, `text`: paths and texts as sequences of characters.
//! - `snapshot`: what was seen of the local filesystem before planning.
//! - `commands::timelog`, `clock`: logged work and its moments in time.
//! - `services`, `dc_service`, `docker_compose`, `subcommands`: service
//!   definitions and the orchestrator's command line.

pub mod clock;
pub mod cmd;
pub mod commands;
pub mod context;
pub mod dc_service;
pub mod docker_compose;
pub mod executor;
pub mod paths;
pub mod recipes;
pub mod services;
pub mod snapshot;
pub mod subcommands;
pub mod task;
pub mod text;
