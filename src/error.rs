//! The failures that a query of the working tree reports.

use vstd::prelude::*;
use vstd::string::StringExecFns;

verus! {

/// Why a query of the working tree failed.
#[derive(Debug, Clone, PartialEq, Eq)]
pub enum InspectError {
    /// The tool could not be started; holds the system's description of why.
    SpawnError(String),
    /// The top-level directory could not be found: the current directory is
    /// outside any working tree. Holds the tool's standard error.
    NotARepository(String),
    /// A diff query exited with a code that marks a failure. Holds the tool's
    /// standard error.
    DiffCommandError(String),
    /// The listing of untracked files exited with a code that marks a
    /// failure. Holds the tool's standard error.
    ListCommandError(String),
    /// The tool's standard output is not well-formed UTF-8.
    DecodeError,
    /// The tool did not finish within the allowed time and was stopped.
    TimeoutError,
}

/// The mathematical value of an [`InspectError`]: its kind and the text it
/// carries.
pub enum ErrorModel {
    Spawn(Seq<char>),
    NotARepository(Seq<char>),
    DiffCommand(Seq<char>),
    ListCommand(Seq<char>),
    Decode,
    Timeout,
}

impl View for InspectError {
    type V = ErrorModel;

    open spec fn view(&self) -> ErrorModel {
        match self {
            InspectError::SpawnError(m) => ErrorModel::Spawn(m@),
            InspectError::NotARepository(m) => ErrorModel::NotARepository(m@),
            InspectError::DiffCommandError(m) => ErrorModel::DiffCommand(m@),
            InspectError::ListCommandError(m) => ErrorModel::ListCommand(m@),
            InspectError::DecodeError => ErrorModel::Decode,
            InspectError::TimeoutError => ErrorModel::Timeout,
        }
    }
}

/// The mathematical value of a query's result.
pub open spec fn result_model(r: Result<String, InspectError>) -> Result<Seq<char>, ErrorModel> {
    match r {
        Ok(s) => Ok(s@),
        Err(e) => Err(e@),
    }
}

impl ErrorModel {
    /// The sentence that describes the failure to a person.
    pub open spec fn message(self) -> Seq<char> {
        match self {
            ErrorModel::Spawn(m) => "Failed to execute git command: "@ + m,
            ErrorModel::NotARepository(m) => "Failed to find git root: "@ + m,
            ErrorModel::DiffCommand(m) => "Git diff failed: "@ + m,
            ErrorModel::ListCommand(m) => "Git ls-files failed: "@ + m,
            ErrorModel::Decode => "Failed to decode output: not valid UTF-8"@,
            ErrorModel::Timeout => "Git command timed out"@,
        }
    }
}

impl InspectError {
    /// The sentence that describes the failure to a person: a fixed prefix
    /// for the kind, followed by the text that the error carries.
    pub fn message(&self) -> (r: String)
        ensures
            r@ == self@.message(),
    {
        match self {
            InspectError::SpawnError(m) => String::from_str("Failed to execute git command: ").concat(m.as_str()),
            InspectError::NotARepository(m) => String::from_str("Failed to find git root: ").concat(m.as_str()),
            InspectError::DiffCommandError(m) => String::from_str("Git diff failed: ").concat(m.as_str()),
            InspectError::ListCommandError(m) => String::from_str("Git ls-files failed: ").concat(m.as_str()),
            InspectError::DecodeError => String::from_str("Failed to decode output: not valid UTF-8"),
            InspectError::TimeoutError => String::from_str("Git command timed out"),
        }
    }
}

} // verus!
