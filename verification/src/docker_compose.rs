//! The command line of the container orchestrator.

use crate::context::{Context, ContextView};
use crate::paths;
use crate::task::{Task, TaskView};
use crate::text;
use vstd::prelude::*;
use vstd::string::*;

verus! {

/// The directory, below the working directory, that holds the
/// orchestrator's files of the project.
pub open spec fn file_prefix(ctx: ContextView) -> Seq<char> {
    ".wf2_m2_"@ + ctx.name
}

/// The orchestrator's file for the project.
pub open spec fn compose_file(ctx: ContextView) -> Seq<char> {
    paths::joined(paths::joined(ctx.cwd, file_prefix(ctx)), "docker-compose.yml"@)
}

/// The orchestrator's command line for the file `file` and the arguments
/// `trailing`, which are joined by single spaces.
pub open spec fn compose_command(file: Seq<char>, trailing: Seq<Seq<char>>) -> Seq<char> {
    "docker-compose -f "@ + file + " "@ + text::joined(trailing, " "@)
}

/// The orchestrator as set up for one project.
#[derive(Debug, Clone, PartialEq, Eq)]
pub struct DockerCompose {
    /// The path of the orchestrator's file.
    pub file: String,
}

impl DockerCompose {
    /// The orchestrator for the project of `ctx`.
    pub fn from_ctx(ctx: &Context) -> (dc: DockerCompose)
        ensures
            dc.file@ == compose_file(ctx@),
    {
        let mut prefix = String::from_str(".wf2_m2_");
        prefix.append(ctx.name.as_str());
        let dir = paths::join(ctx.cwd.as_str(), prefix.as_str());
        DockerCompose { file: paths::join(dir.as_str(), "docker-compose.yml") }
    }

    /// The command line that hands `trailing` to the orchestrator.
    pub fn cmd_string(&self, trailing: &Vec<String>) -> (out: String)
        ensures
            out@ == compose_command(self.file@, trailing.deep_view()),
    {
        let mut out = String::from_str("docker-compose -f ");
        out.append(self.file.as_str());
        out.append(" ");
        let args = text::join(trailing, " ");
        out.append(args.as_str());
        out
    }

    /// The task that runs the orchestrator with `trailing`.
    pub fn cmd_task(&self, trailing: Vec<String>) -> (task: Task)
        ensures
            task.deep_view() == (TaskView::SimpleCommand {
                command: compose_command(self.file@, trailing.deep_view()),
            }),
    {
        let line = self.cmd_string(&trailing);
        Task::simple_command(line.as_str())
    }
}

} // verus!
