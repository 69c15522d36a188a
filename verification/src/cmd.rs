//! The operations that can be asked for.

use vstd::prelude::*;

verus! {

/// One requested operation with the payload it needs.
#[derive(Debug, Clone, PartialEq, Eq)]
pub enum Cmd {
    Up { detached: bool },
    Down,
    Stop,
    Exec { trailing: Vec<String>, user: String },
    DBImport { path: String },
    DBDump,
    Doctor,
    Pull { trailing: Vec<String> },
    Push { trailing: Vec<String> },
    PassThrough { cmd: String, trailing: Vec<String> },
}

/// The mathematical value of a request.
pub enum CmdView {
    Up { detached: bool },
    Down,
    Stop,
    Exec { trailing: Seq<Seq<char>>, user: Seq<char> },
    DBImport { path: Seq<char> },
    DBDump,
    Doctor,
    Pull { trailing: Seq<Seq<char>> },
    Push { trailing: Seq<Seq<char>> },
    PassThrough { cmd: Seq<char>, trailing: Seq<Seq<char>> },
}

impl View for Cmd {
    type V = CmdView;

    open spec fn view(&self) -> CmdView {
        match self {
            Cmd::Up { detached } => CmdView::Up { detached: *detached },
            Cmd::Down => CmdView::Down,
            Cmd::Stop => CmdView::Stop,
            Cmd::Exec { trailing, user } => CmdView::Exec {
                trailing: trailing.deep_view(),
                user: user@,
            },
            Cmd::DBImport { path } => CmdView::DBImport { path: path@ },
            Cmd::DBDump => CmdView::DBDump,
            Cmd::Doctor => CmdView::Doctor,
            Cmd::Pull { trailing } => CmdView::Pull { trailing: trailing.deep_view() },
            Cmd::Push { trailing } => CmdView::Push { trailing: trailing.deep_view() },
            Cmd::PassThrough { cmd, trailing } => CmdView::PassThrough {
                cmd: cmd@,
                trailing: trailing.deep_view(),
            },
        }
    }
}

} // verus!
