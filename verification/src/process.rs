//! Processes to start, as plain values.

use crate::text::words;
use vstd::prelude::*;

verus! {

/// Where a standard stream of a child process is connected.
#[derive(Debug, Clone, Copy, PartialEq, Eq, Structural)]
pub enum Stdio {
    /// The null device.
    Null,
    /// The stream of this process.
    Inherit,
    /// A pipe: to this process, or to the process that comes next.
    Piped,
}

/// A process to start: the program, its arguments in order, and its standard
/// streams.
#[derive(Debug, Clone, PartialEq, Eq)]
pub struct Invocation {
    pub program: String,
    pub args: Vec<String>,
    pub stdin: Stdio,
    pub stdout: Stdio,
}

/// What an [`Invocation`] holds.
pub struct InvocationView {
    pub program: Seq<char>,
    pub args: Seq<Seq<char>>,
    pub stdin: Stdio,
    pub stdout: Stdio,
}

impl View for Invocation {
    type V = InvocationView;

    open spec fn view(&self) -> InvocationView {
        InvocationView {
            program: self.program@,
            args: words(self.args@),
            stdin: self.stdin,
            stdout: self.stdout,
        }
    }
}

/// The two ways in which a session comes to its output.
#[derive(Debug, Clone, Copy, PartialEq, Eq, Structural)]
pub enum Shape {
    /// fzf does it all: its preview shows the output, and its key bindings
    /// hand it to the pager, the editor and the viewers.
    SinglePhase,
    /// fzf only hands back the query that the user accepted; jq is run on it
    /// when fzf has ended.
    TwoPhase,
}

} // verus!
