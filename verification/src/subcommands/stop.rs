//! Stop all containers, but don't remove them.
//!
//! This differs from `down`, which removes the containers and the
//! networks that were made for them. Use `stop` to bring the containers,
//! with their networks and data, back up quickly at a later point.

use crate::context::{Context, ContextView};
use crate::docker_compose::{compose_command, compose_file, DockerCompose};
use crate::recipes::m2::m2_env::M2Env;
use crate::task::{plan_or_failure, put, Task, TaskView};
use vstd::prelude::*;
use vstd::string::*;

verus! {

/// The command that stops the containers.
#[derive(Debug, Clone, Copy, PartialEq, Eq, Structural)]
pub struct DcStop;

/// The plan that stops the containers of the project.
pub open spec fn stop_plan(ctx: ContextView) -> Seq<TaskView> {
    seq![
        TaskView::SimpleCommand {
            command: compose_command(compose_file(ctx), seq![DcStop::NAME@]),
        },
    ]
}

/// What planning the stop comes to: the plan where the environment was
/// resolved, the reason where it was not.
pub open spec fn stop_outcome(ctx: ContextView, env: Result<M2Env, String>) -> Result<
    Seq<TaskView>,
    Seq<char>,
> {
    match env {
        Ok(_) => Ok(stop_plan(ctx)),
        Err(message) => Err(message@),
    }
}

impl DcStop {
    /// The name of the command.
    pub const NAME: &'static str = "stop";

    /// What the command is for.
    pub const ABOUT: &'static str = "Take down containers & retain data";

    /// The name of the command.
    pub fn name(&self) -> (name: String)
        ensures
            name@ == DcStop::NAME@,
    {
        String::from_str(DcStop::NAME)
    }

    /// Plans the stop. Where the environment could not be resolved there
    /// is no plan, and the reason is handed on.
    pub fn cmd(&self, ctx: &Context, env: Result<M2Env, String>) -> (out: Result<
        Vec<Task>,
        String,
    >)
        ensures
            match out {
                Ok(plan) => stop_outcome(ctx@, env) == Ok::<Seq<TaskView>, Seq<char>>(
                    plan.deep_view(),
                ),
                Err(message) => stop_outcome(ctx@, env) == Err::<Seq<TaskView>, Seq<char>>(
                    message@,
                ),
            },
    {
        match env {
            Err(message) => Err(message),
            Ok(_) => {
                let mut trailing: Vec<String> = Vec::new();
                trailing.push(String::from_str(DcStop::NAME));
                let task = DockerCompose::from_ctx(ctx).cmd_task(trailing);
                let mut plan: Vec<Task> = Vec::new();
                put(&mut plan, task);
                proof {
                    assert(plan.deep_view() =~= stop_plan(ctx@));
                }
                Ok(plan)
            },
        }
    }

    /// The plan to carry out for the command: the stop, or the notice of
    /// why it could not be planned.
    pub fn exec(&self, ctx: &Context, env: Result<M2Env, String>) -> (plan: Vec<Task>)
        ensures
            plan.deep_view() == plan_or_failure(stop_outcome(ctx@, env)),
    {
        Task::plan_or_notice(self.cmd(ctx, env))
    }
}

} // verus!
