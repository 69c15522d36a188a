//! The container that commands are run in.

use crate::context::Context;
use vstd::prelude::*;
use vstd::string::*;

verus! {

/// The name of the container of service `service` in project `project`.
pub open spec fn container_name(project: Seq<char>, service: Seq<char>) -> Seq<char> {
    "wf2__"@ + project + "__"@ + service
}

/// Writes the name of the container of `service` in `project`.
pub fn container_name_of(project: &str, service: &str) -> (out: String)
    ensures
        out@ == container_name(project@, service@),
{
    let mut out = String::from_str("wf2__");
    out.append(project);
    out.append("__");
    out.append(service);
    out
}

/// The PHP container of a project.
#[derive(Debug, Clone, PartialEq, Eq)]
pub struct PhpContainer {
    pub name: String,
}

impl PhpContainer {
    /// The PHP container of the project of `ctx`.
    pub fn from_ctx(ctx: &Context) -> (container: PhpContainer)
        ensures
            container.name@ == container_name(ctx@.name, "php"@),
    {
        PhpContainer { name: container_name_of(ctx.name.as_str(), "php") }
    }
}

} // verus!
