//! The project configuration that every plan is made from.

use vstd::prelude::*;

verus! {

/// The size of the terminal, handed to interactive commands as a hint.
#[derive(Debug, Clone, Copy, PartialEq, Eq, Structural)]
pub struct Term {
    pub height: u16,
    pub width: u16,
}

/// The configuration of one invocation. It is made once and only read
/// afterwards.
#[derive(Debug, Clone, PartialEq, Eq)]
pub struct Context {
    /// The working directory: the host root of every relative path.
    pub cwd: String,
    /// The project's name, from which container names are made.
    pub name: String,
    pub term: Term,
    /// Where the progress viewer is installed, if it is.
    pub pv: Option<String>,
}

/// The mathematical value of a context.
pub struct ContextView {
    pub cwd: Seq<char>,
    pub name: Seq<char>,
    pub term: Term,
    pub pv: Option<Seq<char>>,
}

impl View for Context {
    type V = ContextView;

    open spec fn view(&self) -> ContextView {
        ContextView {
            cwd: self.cwd@,
            name: self.name@,
            term: self.term,
            pv: match self.pv {
                Some(p) => Some(p@),
                None => None,
            },
        }
    }
}

impl Context {
    /// A context for the project `name` in the directory `cwd`.
    pub fn new(cwd: &str, name: &str, term: Term, pv: Option<String>) -> (ctx: Context)
        ensures
            ctx@.cwd == cwd@,
            ctx@.name == name@,
            ctx@.term == term,
            ctx.pv == pv,
    {
        Context { cwd: cwd.to_owned(), name: name.to_owned(), term, pv }
    }
}

} // verus!
