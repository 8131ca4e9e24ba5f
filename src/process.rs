//! What the library asks the embedding program to run, and what the program
//! reports back about the run.

use vstd::prelude::*;

verus! {

/// One of the four queries of a working tree.
#[derive(Debug, Clone, Copy, PartialEq, Eq)]
pub enum Operation {
    /// The absolute path of the working tree's top-level directory.
    ResolveRoot,
    /// The diff between the index and the last commit.
    Staged,
    /// The diff between the working tree and the index.
    Unstaged,
    /// The files that are neither tracked nor ignored, one path per line.
    Untracked,
}

/// A run of the external tool to perform: program, arguments and working
/// directory (`None`: the caller's current directory).
#[derive(Debug, Clone)]
pub struct Invocation {
    pub program: String,
    pub args: Vec<String>,
    pub dir: Option<String>,
}

/// The mathematical value of an [`Invocation`].
pub struct InvocationModel {
    pub program: Seq<char>,
    pub args: Seq<Seq<char>>,
    pub dir: Option<Seq<char>>,
}

impl View for Invocation {
    type V = InvocationModel;

    open spec fn view(&self) -> InvocationModel {
        InvocationModel {
            program: self.program@,
            args: self.args@.map_values(|a: String| a@),
            dir: match self.dir {
                Some(d) => Some(d@),
                None => None,
            },
        }
    }
}

/// How a run of the external tool ended.
#[derive(Debug, Clone)]
pub enum ProcessOutcome {
    /// The process ran to its end. `code` is `None` when it had no exit code
    /// (it was ended by a signal); both streams are captured whole.
    Exited { code: Option<i32>, stdout: Vec<u8>, stderr: Vec<u8> },
    /// The process could not be started; holds the system's description.
    SpawnFailed(String),
    /// The process ran past the allowed time and was stopped.
    TimedOut,
}

/// The mathematical value of a [`ProcessOutcome`].
pub enum OutcomeModel {
    Exited { code: Option<i32>, stdout: Seq<u8>, stderr: Seq<u8> },
    SpawnFailed(Seq<char>),
    TimedOut,
}

impl View for ProcessOutcome {
    type V = OutcomeModel;

    open spec fn view(&self) -> OutcomeModel {
        match self {
            ProcessOutcome::Exited { code, stdout, stderr } => OutcomeModel::Exited {
                code: *code,
                stdout: stdout@,
                stderr: stderr@,
            },
            ProcessOutcome::SpawnFailed(m) => OutcomeModel::SpawnFailed(m@),
            ProcessOutcome::TimedOut => OutcomeModel::TimedOut,
        }
    }
}

} // verus!
