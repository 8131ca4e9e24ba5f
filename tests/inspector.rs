use glide::deadline::{next_wait_action, WaitAction, POLL_INTERVAL_MS};
use glide::error::InspectError;
use glide::inspector::{accepts_exit, after_root, interpret, query_invocation, root_invocation, Step};
use glide::process::{Operation, ProcessOutcome};

const ALL: [Operation; 4] = [
    Operation::ResolveRoot,
    Operation::Staged,
    Operation::Unstaged,
    Operation::Untracked,
];

fn exited(code: i32, stdout: &[u8], stderr: &[u8]) -> ProcessOutcome {
    ProcessOutcome::Exited { code: Some(code), stdout: stdout.to_vec(), stderr: stderr.to_vec() }
}

fn strings(v: &[&str]) -> Vec<String> {
    v.iter().map(|s| s.to_string()).collect()
}

#[test]
fn root_invocation_runs_rev_parse_here() {
    let inv = root_invocation();
    assert_eq!(inv.program, "git");
    assert_eq!(inv.args, strings(&["rev-parse", "--show-toplevel"]));
    assert_eq!(inv.dir, None);
}

#[test]
fn query_invocations_run_in_root() {
    let root = "/work/repo".to_string();
    let staged = query_invocation(Operation::Staged, root.clone());
    assert_eq!(staged.program, "git");
    assert_eq!(staged.args, strings(&["diff", "--cached"]));
    assert_eq!(staged.dir, Some(root.clone()));
    let unstaged = query_invocation(Operation::Unstaged, root.clone());
    assert_eq!(unstaged.args, strings(&["diff"]));
    assert_eq!(unstaged.dir, Some(root.clone()));
    let untracked = query_invocation(Operation::Untracked, root.clone());
    assert_eq!(untracked.args, strings(&["ls-files", "--others", "--exclude-standard"]));
    assert_eq!(untracked.dir, Some(root));
}

#[test]
fn exit_code_policy() {
    for op in [Operation::Staged, Operation::Unstaged] {
        assert!(accepts_exit(op, Some(0)));
        assert!(accepts_exit(op, Some(1)));
        assert!(!accepts_exit(op, Some(2)));
        assert!(!accepts_exit(op, Some(-1)));
        assert!(!accepts_exit(op, None));
    }
    for op in [Operation::ResolveRoot, Operation::Untracked] {
        assert!(accepts_exit(op, Some(0)));
        assert!(!accepts_exit(op, Some(1)));
        assert!(!accepts_exit(op, None));
    }
}

#[test]
fn missing_tool_gives_spawn_error_for_every_query() {
    for op in ALL {
        let step = after_root(op, ProcessOutcome::SpawnFailed("No such file or directory".to_string()));
        match step {
            Step::Done(r) => {
                assert_eq!(r, Err(InspectError::SpawnError("No such file or directory".to_string())))
            }
            Step::Run(_) => panic!("a second run after a failed start"),
        }
    }
    for op in [Operation::Staged, Operation::Unstaged, Operation::Untracked] {
        let r = interpret(op, ProcessOutcome::SpawnFailed("denied".to_string()));
        assert_eq!(r, Err(InspectError::SpawnError("denied".to_string())));
    }
}

#[test]
fn outside_tree_is_not_a_repository() {
    let stderr = b"fatal: not a git repository (or any of the parent directories): .git\n";
    for op in ALL {
        match after_root(op, exited(128, b"", stderr)) {
            Step::Done(r) => assert_eq!(
                r,
                Err(InspectError::NotARepository(
                    "fatal: not a git repository (or any of the parent directories): .git\n".to_string()
                ))
            ),
            Step::Run(_) => panic!("a second run after a failed resolution"),
        }
    }
}

#[test]
fn root_is_trimmed() {
    let r = interpret(Operation::ResolveRoot, exited(0, b"  /home/dev/project\n", b""));
    assert_eq!(r, Ok("/home/dev/project".to_string()));
    match after_root(Operation::ResolveRoot, exited(0, b"/home/dev/project\r\n", b"")) {
        Step::Done(r) => assert_eq!(r, Ok("/home/dev/project".to_string())),
        Step::Run(_) => panic!("the root query needs one run"),
    }
}

#[test]
fn change_queries_continue_in_root() {
    match after_root(Operation::Staged, exited(0, b"/home/dev/project\n", b"")) {
        Step::Run(inv) => {
            assert_eq!(inv.args, strings(&["diff", "--cached"]));
            assert_eq!(inv.dir, Some("/home/dev/project".to_string()));
        }
        Step::Done(_) => panic!("a change query needs a second run"),
    }
}

#[test]
fn no_changes_gives_empty_text() {
    for op in [Operation::Staged, Operation::Unstaged] {
        assert_eq!(interpret(op, exited(0, b"", b"")), Ok(String::new()));
    }
}

#[test]
fn staged_addition_is_returned() {
    let diff = "diff --git a/notes.txt b/notes.txt\nindex e69de29..3b18e51 100644\n--- a/notes.txt\n+++ b/notes.txt\n@@ -0,0 +1 @@\n+hello world\n";
    let r = interpret(Operation::Staged, exited(1, diff.as_bytes(), b"")).unwrap();
    assert!(!r.is_empty());
    assert!(r.contains("+hello world"));
    assert_eq!(r, diff);
}

#[test]
fn untracked_lists_the_new_file() {
    let r = interpret(Operation::Untracked, exited(0, b"new_file.txt\n", b"")).unwrap();
    assert_eq!(r, "new_file.txt\n");
    assert_eq!(r.lines().collect::<Vec<_>>(), vec!["new_file.txt"]);
}

#[test]
fn repeated_queries_agree() {
    let outcomes = [
        exited(0, b"/r\n", b""),
        exited(1, b"+x\n", b""),
        exited(2, b"", b"boom"),
        exited(0, &[0xff], b""),
        ProcessOutcome::SpawnFailed("gone".to_string()),
        ProcessOutcome::TimedOut,
    ];
    for op in ALL {
        for o in outcomes.iter() {
            assert_eq!(interpret(op, o.clone()), interpret(op, o.clone()));
        }
    }
}

#[test]
fn diff_exit_one_is_success_and_two_is_failure() {
    for op in [Operation::Staged, Operation::Unstaged] {
        assert_eq!(interpret(op, exited(1, b"+line\n", b"")), Ok("+line\n".to_string()));
        assert_eq!(
            interpret(op, exited(2, b"partial", b"error: bad revision")),
            Err(InspectError::DiffCommandError("error: bad revision".to_string()))
        );
    }
}

#[test]
fn untracked_rejects_exit_one() {
    assert_eq!(
        interpret(Operation::Untracked, exited(1, b"a.txt\n", b"oops")),
        Err(InspectError::ListCommandError("oops".to_string()))
    );
}

#[test]
fn signal_without_exit_code_is_failure() {
    let o = ProcessOutcome::Exited { code: None, stdout: b"+x".to_vec(), stderr: b"killed".to_vec() };
    assert_eq!(interpret(Operation::Staged, o), Err(InspectError::DiffCommandError("killed".to_string())));
}

#[test]
fn invalid_output_is_decode_error() {
    for op in ALL {
        assert_eq!(interpret(op, exited(0, &[b'a', 0xff, b'b'], b"")), Err(InspectError::DecodeError));
    }
}

#[test]
fn invalid_stderr_is_decoded_lossily() {
    let r = interpret(Operation::Untracked, exited(3, b"", &[b'b', b'a', b'd', 0xff]));
    assert_eq!(r, Err(InspectError::ListCommandError("bad\u{FFFD}".to_string())));
}

#[test]
fn non_ascii_output_is_kept() {
    let r = interpret(Operation::Unstaged, exited(1, "+caf\u{e9}\n".as_bytes(), b""));
    assert_eq!(r, Ok("+caf\u{e9}\n".to_string()));
}

#[test]
fn timeout_is_reported() {
    for op in ALL {
        assert_eq!(interpret(op, ProcessOutcome::TimedOut), Err(InspectError::TimeoutError));
    }
}

#[test]
fn error_messages() {
    assert_eq!(
        InspectError::SpawnError("not found".to_string()).message(),
        "Failed to execute git command: not found"
    );
    assert_eq!(
        InspectError::NotARepository("fatal".to_string()).message(),
        "Failed to find git root: fatal"
    );
    assert_eq!(InspectError::DiffCommandError("e".to_string()).message(), "Git diff failed: e");
    assert_eq!(InspectError::ListCommandError("e".to_string()).message(), "Git ls-files failed: e");
    assert_eq!(InspectError::DecodeError.message(), "Failed to decode output: not valid UTF-8");
    assert_eq!(InspectError::TimeoutError.message(), "Git command timed out");
}

#[test]
fn wait_actions() {
    assert_eq!(next_wait_action(true, 0, 100), WaitAction::Collect);
    assert_eq!(next_wait_action(true, 500, 100), WaitAction::Collect);
    assert_eq!(next_wait_action(false, 100, 100), WaitAction::Stop);
    assert_eq!(next_wait_action(false, 150, 100), WaitAction::Stop);
    assert_eq!(next_wait_action(false, 0, 100), WaitAction::Pause(POLL_INTERVAL_MS));
    assert_eq!(next_wait_action(false, 97, 100), WaitAction::Pause(3));
    assert_eq!(next_wait_action(false, 0, 0), WaitAction::Stop);
    assert_eq!(next_wait_action(false, u64::MAX - 1, u64::MAX), WaitAction::Pause(1));
}
