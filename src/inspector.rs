//! The decisions of the four queries: which command runs where, which exit
//! codes count as success, and what result each outcome gives.
//!
//! Every query first resolves the top-level directory; the three change
//! queries then run their own command there. The embedding program starts
//! with [`root_invocation`], hands its outcome to [`after_root`], and, where
//! that asks for a second run, hands the second outcome to [`interpret`].

use vstd::prelude::*;
use vstd::string::StringExecFns;
use vstd::utf8::{decode_utf8, valid_utf8};
use crate::error::{ErrorModel, InspectError, result_model};
use crate::process::{Invocation, InvocationModel, Operation, OutcomeModel, ProcessOutcome};
use crate::text::{decode_lossy, decode_strict, is_ascii_space, lossy_text_of, trim_text, trimmed_of};

verus! {

/// The arguments of the tool for each query.
pub open spec fn args_of(op: Operation) -> Seq<Seq<char>> {
    match op {
        Operation::ResolveRoot => seq!["rev-parse"@, "--show-toplevel"@],
        Operation::Staged => seq!["diff"@, "--cached"@],
        Operation::Unstaged => seq!["diff"@],
        Operation::Untracked => seq!["ls-files"@, "--others"@, "--exclude-standard"@],
    }
}

/// The run that resolves the top-level directory, in the current directory.
pub open spec fn root_invocation_model() -> InvocationModel {
    InvocationModel { program: "git"@, args: args_of(Operation::ResolveRoot), dir: None }
}

/// The run of a change query, in the resolved top-level directory.
pub open spec fn query_invocation_model(op: Operation, root: Seq<char>) -> InvocationModel {
    InvocationModel { program: "git"@, args: args_of(op), dir: Some(root) }
}

/// The exit codes that count as success. A diff exits with 1 when it found
/// differences, which is no failure; the other queries succeed on 0 alone.
/// A process without an exit code never succeeds.
pub open spec fn exit_accepted(op: Operation, code: Option<i32>) -> bool {
    match op {
        Operation::Staged | Operation::Unstaged => code == Some(0i32) || code == Some(1i32),
        Operation::ResolveRoot | Operation::Untracked => code == Some(0i32),
    }
}

/// The failure that a rejected exit code gives, carrying the standard error.
pub open spec fn command_error(op: Operation, stderr_text: Seq<char>) -> ErrorModel {
    match op {
        Operation::ResolveRoot => ErrorModel::NotARepository(stderr_text),
        Operation::Staged | Operation::Unstaged => ErrorModel::DiffCommand(stderr_text),
        Operation::Untracked => ErrorModel::ListCommand(stderr_text),
    }
}

/// The result of one run of the tool for a query: the start and the exit
/// code decide first, then the output must be UTF-8. The top-level directory
/// is the output trimmed; a change query returns its output as it is.
pub open spec fn outcome_result(op: Operation, o: OutcomeModel) -> Result<Seq<char>, ErrorModel> {
    match o {
        OutcomeModel::SpawnFailed(m) => Err(ErrorModel::Spawn(m)),
        OutcomeModel::TimedOut => Err(ErrorModel::Timeout),
        OutcomeModel::Exited { code, stdout, stderr } => {
            if !exit_accepted(op, code) {
                Err(command_error(op, lossy_text_of(stderr)))
            } else if !valid_utf8(stdout) {
                Err(ErrorModel::Decode)
            } else if op is ResolveRoot {
                Ok(trimmed_of(decode_utf8(stdout)))
            } else {
                Ok(decode_utf8(stdout))
            }
        },
    }
}

/// The result of a whole query, given the outcome of the run that resolves
/// the top-level directory and that of the query's own run. A failure to
/// resolve the directory is returned unchanged, and the second run is then
/// never made.
pub open spec fn operation_result(
    op: Operation,
    root_outcome: OutcomeModel,
    query_outcome: OutcomeModel,
) -> Result<Seq<char>, ErrorModel> {
    match outcome_result(Operation::ResolveRoot, root_outcome) {
        Err(e) => Err(e),
        Ok(root) => if op is ResolveRoot {
            Ok(root)
        } else {
            outcome_result(op, query_outcome)
        },
    }
}

/// A resolved top-level directory neither starts nor ends with white space.
pub open spec fn is_trimmed_path(p: Seq<char>) -> bool {
    p.len() > 0 ==> !is_ascii_space(p[0]) && !is_ascii_space(p.last())
}

/// What comes after a run: another run, or the query's result.
#[derive(Debug)]
pub enum Step {
    Run(Invocation),
    Done(Result<String, InspectError>),
}

fn text(s: &str) -> (r: String)
    ensures
        r@ == s@,
{
    String::from_str(s)
}

fn args_for(op: Operation) -> (r: Vec<String>)
    ensures
        r@.map_values(|a: String| a@) == args_of(op),
{
    let mut v: Vec<String> = Vec::new();
    match op {
        Operation::ResolveRoot => {
            v.push(text("rev-parse"));
            v.push(text("--show-toplevel"));
        },
        Operation::Staged => {
            v.push(text("diff"));
            v.push(text("--cached"));
        },
        Operation::Unstaged => {
            v.push(text("diff"));
        },
        Operation::Untracked => {
            v.push(text("ls-files"));
            v.push(text("--others"));
            v.push(text("--exclude-standard"));
        },
    }
    assert(v@.map_values(|a: String| a@) =~= args_of(op));
    v
}

/// The run that resolves the top-level directory; every query starts with it.
pub fn root_invocation() -> (inv: Invocation)
    ensures
        inv@ == root_invocation_model(),
{
    Invocation { program: text("git"), args: args_for(Operation::ResolveRoot), dir: None }
}

/// The run of a change query in the top-level directory `root`.
pub fn query_invocation(op: Operation, root: String) -> (inv: Invocation)
    requires
        !(op is ResolveRoot),
    ensures
        inv@ == query_invocation_model(op, root@),
{
    Invocation { program: text("git"), args: args_for(op), dir: Some(root) }
}

/// Whether `code` counts as success for the query `op`.
pub fn accepts_exit(op: Operation, code: Option<i32>) -> (r: bool)
    ensures
        r == exit_accepted(op, code),
{
    match code {
        None => false,
        Some(c) => match op {
            Operation::Staged | Operation::Unstaged => c == 0 || c == 1,
            Operation::ResolveRoot | Operation::Untracked => c == 0,
        },
    }
}

/// The result that one run of the tool gives for the query `op`.
pub fn interpret(op: Operation, outcome: ProcessOutcome) -> (r: Result<String, InspectError>)
    ensures
        result_model(r) == outcome_result(op, outcome@),
        r matches Ok(p) ==> (op is ResolveRoot ==> is_trimmed_path(p@)),
        outcome@ matches OutcomeModel::Exited { code, stdout, stderr } ==> (!exit_accepted(op, code)
            && valid_utf8(stderr) ==> result_model(r) == Err::<Seq<char>, ErrorModel>(
            command_error(op, decode_utf8(stderr)),
        )),
{
    match outcome {
        ProcessOutcome::SpawnFailed(m) => Err(InspectError::SpawnError(m)),
        ProcessOutcome::TimedOut => Err(InspectError::TimeoutError),
        ProcessOutcome::Exited { code, stdout, stderr } => {
            if !accepts_exit(op, code) {
                let t = decode_lossy(&stderr);
                match op {
                    Operation::ResolveRoot => Err(InspectError::NotARepository(t)),
                    Operation::Staged | Operation::Unstaged => Err(InspectError::DiffCommandError(t)),
                    Operation::Untracked => Err(InspectError::ListCommandError(t)),
                }
            } else {
                match decode_strict(stdout) {
                    None => Err(InspectError::DecodeError),
                    Some(s) => match op {
                        Operation::ResolveRoot => Ok(trim_text(&s)),
                        _ => Ok(s),
                    },
                }
            }
        },
    }
}

/// The step that follows the run that resolves the top-level directory: the
/// query's result where that run failed or the query asked for the directory
/// itself, else the query's own run in that directory.
pub fn after_root(op: Operation, root_outcome: ProcessOutcome) -> (s: Step)
    ensures
        match outcome_result(Operation::ResolveRoot, root_outcome@) {
            Err(e) => s matches Step::Done(r) && result_model(r) == Err::<Seq<char>, ErrorModel>(e),
            Ok(root) => if op is ResolveRoot {
                s matches Step::Done(r) && result_model(r) == Ok::<Seq<char>, ErrorModel>(root)
                    && is_trimmed_path(root)
            } else {
                s matches Step::Run(inv) && inv@ == query_invocation_model(op, root)
                    && is_trimmed_path(root)
            },
        },
{
    match interpret(Operation::ResolveRoot, root_outcome) {
        Err(e) => Step::Done(Err(e)),
        Ok(root) => match op {
            Operation::ResolveRoot => Step::Done(Ok(root)),
            _ => Step::Run(query_invocation(op, root)),
        },
    }
}

/// When the tool cannot be started, no query returns text: the run that
/// resolves the top-level directory fails first, and its failure to start is
/// what the query reports. Where only the query's own run fails to start,
/// that failure is reported.
pub proof fn lemma_spawn_failure_gives_no_text(
    op: Operation,
    root_outcome: OutcomeModel,
    query_outcome: OutcomeModel,
)
    ensures
        root_outcome matches OutcomeModel::SpawnFailed(m) ==> operation_result(
            op,
            root_outcome,
            query_outcome,
        ) == Err::<Seq<char>, ErrorModel>(ErrorModel::Spawn(m)),
        !(op is ResolveRoot) && query_outcome is SpawnFailed ==> operation_result(
            op,
            root_outcome,
            query_outcome,
        ) is Err,
{
}

/// Outside a working tree the tool exits with a code other than 0, and the
/// top-level directory is then reported missing with the tool's standard
/// error.
pub proof fn lemma_outside_tree_is_not_a_repository(code: Option<i32>, stdout: Seq<u8>, stderr: Seq<u8>)
    requires
        code != Some(0i32),
    ensures
        outcome_result(
            Operation::ResolveRoot,
            OutcomeModel::Exited { code, stdout, stderr },
        ) == Err::<Seq<char>, ErrorModel>(ErrorModel::NotARepository(lossy_text_of(stderr))),
{
}

/// A diff that finds nothing exits with 0 and prints nothing; the query then
/// succeeds with the empty text.
pub proof fn lemma_no_changes_gives_empty_text(op: Operation, stderr: Seq<u8>)
    requires
        op is Staged || op is Unstaged,
    ensures
        outcome_result(
            op,
            OutcomeModel::Exited { code: Some(0i32), stdout: Seq::empty(), stderr },
        ) == Ok::<Seq<char>, ErrorModel>(Seq::empty()),
{
    assert(valid_utf8(Seq::<u8>::empty()));
    assert(decode_utf8(Seq::<u8>::empty()) == Seq::<char>::empty());
}

/// A query is a function of what the tool did: the same outcomes of its runs
/// give the same result, however often it is asked.
pub proof fn lemma_same_outcomes_same_result(
    op: Operation,
    root_first: OutcomeModel,
    query_first: OutcomeModel,
    root_again: OutcomeModel,
    query_again: OutcomeModel,
)
    requires
        root_first == root_again,
        query_first == query_again,
    ensures
        operation_result(op, root_first, query_first) == operation_result(op, root_again, query_again),
{
}

/// For the diff queries exit code 1 is success, with the same result as 0,
/// while exit code 2 is a failure that carries the standard error.
pub proof fn lemma_diff_exit_boundary(op: Operation, stdout: Seq<u8>, stderr: Seq<u8>)
    requires
        op is Staged || op is Unstaged,
    ensures
        outcome_result(op, OutcomeModel::Exited { code: Some(1i32), stdout, stderr })
            == outcome_result(op, OutcomeModel::Exited { code: Some(0i32), stdout, stderr }),
        valid_utf8(stdout) ==> outcome_result(
            op,
            OutcomeModel::Exited { code: Some(1i32), stdout, stderr },
        ) == Ok::<Seq<char>, ErrorModel>(decode_utf8(stdout)),
        outcome_result(op, OutcomeModel::Exited { code: Some(2i32), stdout, stderr })
            == Err::<Seq<char>, ErrorModel>(ErrorModel::DiffCommand(lossy_text_of(stderr))),
{
}

} // verus!
