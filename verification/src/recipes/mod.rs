//! Recipes: the planning functions from a context and a request to a plan.

use crate::cmd::{Cmd, CmdView};
use crate::context::{Context, ContextView};
use crate::recipes::m2::m2_env::M2Env;
use crate::snapshot::{LocalEntryView, Snapshot};
use crate::task::{Task, TaskView};
use vstd::prelude::*;

pub mod m2;

verus! {

/// The bytes of one template file. The planners hand them on and never
/// look inside.
#[derive(Debug, Clone, PartialEq, Eq)]
pub struct RecipeTemplate {
    pub bytes: Vec<u8>,
}

/// What the command line held behind the name of a command.
#[derive(Debug, Clone, PartialEq, Eq)]
pub struct SubMatches {
    /// The words that followed the name, if any were given.
    pub values: Option<Vec<String>>,
}

/// The words of `matches`; none where none were given.
pub open spec fn given_words(matches: SubMatches) -> Seq<Seq<char>> {
    match matches.values {
        Some(words) => words.deep_view(),
        None => Seq::empty(),
    }
}

/// The outcome of resolving the environment, as far as planning goes by
/// it: that there is one, or why there is none.
pub open spec fn env_outcome(env: Result<M2Env, String>) -> Result<(), Seq<char>> {
    match env {
        Ok(_) => Ok(()),
        Err(message) => Err(message@),
    }
}

/// A recipe turns a request into a plan. Planning itself never fails: a
/// request that cannot be planned yields the plan that says why.
pub trait Recipe {
    /// The requests for which a plan can be made in the context.
    spec fn plannable(&self, ctx: ContextView, cmd: CmdView) -> bool;

    /// The plan for a request.
    spec fn plan_of(
        &self,
        ctx: ContextView,
        cmd: CmdView,
        env: Result<(), Seq<char>>,
        snapshot: Seq<LocalEntryView>,
    ) -> Seq<TaskView>;

    /// The request that a command name and the words behind it stand
    /// for, if they stand for one.
    spec fn selected(&self, cmd: Seq<char>, sub_matches: Option<SubMatches>) -> Option<CmdView>;

    /// Makes the plan for `cmd`. Where the environment could not be
    /// resolved the plan is the notice of that, and nothing else.
    fn resolve_cmd(
        &self,
        ctx: &Context,
        cmd: Cmd,
        env: Result<M2Env, String>,
        snapshot: &Snapshot,
    ) -> (plan: Vec<Task>)
        requires
            env is Ok ==> self.plannable(ctx@, cmd@),
        ensures
            plan.deep_view() == self.plan_of(ctx@, cmd@, env_outcome(env), snapshot.deep_view()),
    ;

    /// Picks the request that a command name and the words behind it
    /// stand for.
    fn select_command(&self, cmd: &str, sub_matches: Option<&SubMatches>) -> (picked: Option<Cmd>)
        ensures
            match picked {
                Some(request) => Some(request@),
                None => None,
            } == self.selected(
                cmd@,
                match sub_matches {
                    Some(m) => Some(*m),
                    None => None,
                },
            ),
    ;
}

} // verus!
