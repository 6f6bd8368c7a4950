use dirac::errors::DiracError;
use dirac::executor::{
    ExecPlan, ExecutionOutcome, FailureKind, OsChdir, ShellCommandExecutor, SpawnOutcome,
    COMMAND_TIMEOUT_SECS,
};

fn executor_at(dir: &str) -> ShellCommandExecutor {
    ShellCommandExecutor::new(Some(dir.to_string()), Some("/bin/sh".to_string()))
}

#[test]
fn construction_falls_back_to_root_and_sh() {
    let e = ShellCommandExecutor::new(None, None);
    assert_eq!(e.get_current_dir(), "/");
    assert_eq!(e.get_shell_path(), "/bin/sh");
    let e2 = ShellCommandExecutor::new(Some("relative/path".to_string()), None);
    assert_eq!(e2.get_current_dir(), "/");
    let e3 = executor_at("/srv/data");
    assert_eq!(e3.get_current_dir(), "/srv/data");
}

#[test]
fn empty_invocation_is_an_input_error() {
    let mut e = executor_at("/srv");
    for raw in ["", "   ", "\t\n"] {
        match e.plan(raw, None) {
            ExecPlan::Reject { error: DiracError::InputError(m) } => {
                assert_eq!(m, "Empty command provided");
            },
            _ => panic!("blank input must be rejected as an input error"),
        }
        assert_eq!(e.get_current_dir(), "/srv");
    }
}

#[test]
fn cd_head_becomes_a_directory_change() {
    let mut e = executor_at("/srv");
    match e.plan("cd src", Some("/elsewhere")) {
        ExecPlan::ChangeDir { args } => assert_eq!(args, "src"),
        _ => panic!("cd must plan a directory change"),
    }
    // planning a cd does not resynchronize the held directory
    assert_eq!(e.get_current_dir(), "/srv");
}

#[test]
fn unknown_head_is_rejected_with_not_found() {
    let mut e = executor_at("/srv");
    match e.plan("definitely_not_a_real_command_zzz --flag", None) {
        ExecPlan::Reject { error: DiracError::InputError(m) } => {
            assert_eq!(
                m,
                "Command 'definitely_not_a_real_command_zzz' not found or not executable"
            );
        },
        _ => panic!("an unknown head must be rejected"),
    }
}

#[test]
fn valid_head_is_spawned_after_resync() {
    let mut e = executor_at("/srv");
    match e.plan("  sh -c true  ", Some("/outside")) {
        ExecPlan::Spawn { cmdline } => assert_eq!(cmdline, "sh -c true"),
        _ => panic!("a command on the search path must be spawned"),
    }
    // the non-cd path absorbs the OS-reported directory first
    assert_eq!(e.get_current_dir(), "/outside");
}

#[test]
fn validator_accepts_cd_and_rejects_blank() {
    let e = executor_at("/");
    assert!(e.is_valid_command("cd"));
    assert!(e.is_valid_command("cd somewhere"));
    assert!(e.is_valid_command("sh"));
    assert!(!e.is_valid_command(""));
    assert!(!e.is_valid_command("   "));
    assert!(!e.is_valid_command("definitely_not_a_real_command_zzz"));
}

#[test]
fn cd_target_resolution_joins_against_current() {
    let e = executor_at("/home/user");
    assert_eq!(e.resolve_cd("src", "/root").unwrap(), "/home/user/src");
    assert_eq!(e.resolve_cd("  src  ", "/root").unwrap(), "/home/user/src");
    assert_eq!(e.resolve_cd("/abs/path", "/root").unwrap(), "/abs/path");
    assert_eq!(e.resolve_cd("~", "/root").unwrap(), "/root");
    assert_eq!(e.resolve_cd("~/work", "/root").unwrap(), "/root/work");
    assert_eq!(e.resolve_cd("a/b", "/root").unwrap(), "/home/user/a/b");
}

#[test]
fn cd_without_path_is_refused() {
    let e = executor_at("/home/user");
    match e.resolve_cd("   ", "/root") {
        Err(DiracError::CommandExecutionError(m)) => assert_eq!(m, "No path specified for cd"),
        _ => panic!("a blank cd argument must be refused"),
    }
}

#[test]
fn failed_cd_leaves_directory_unchanged() {
    let mut e = executor_at("/home/user");
    let r = e.finish_cd("missing", OsChdir::Refused("No such file or directory".to_string()));
    assert_eq!(e.get_current_dir(), "/home/user");
    match r {
        Err(DiracError::CommandExecutionError(m)) => {
            assert!(m.starts_with("Failed to change directory: No such file or directory"));
            assert!(m.contains(
                "Use 'cd ..' to go up one directory or 'cd ~' to go to your home directory."
            ));
        },
        _ => panic!("a refused cd must fail"),
    }
}

#[test]
fn cd_suggestions_are_keyed_by_path_shape() {
    let mut e = executor_at("/home/user");
    match e.finish_cd("back", OsChdir::Refused("x".to_string())) {
        Err(DiracError::CommandExecutionError(m)) => {
            assert!(m.contains("Use 'cd ..' to navigate to the parent directory."));
        },
        _ => panic!("refused cd must fail"),
    }
    match e.finish_cd("a/b", OsChdir::Refused("x".to_string())) {
        Err(DiracError::CommandExecutionError(m)) => {
            assert!(m.contains(
                "Make sure the directory exists and you have permission to access it."
            ));
        },
        _ => panic!("refused cd must fail"),
    }
    assert_eq!(e.get_current_dir(), "/home/user");
}

#[test]
fn successful_cd_reads_back_canonical_target() {
    let mut e = executor_at("/home/user");
    let target = e.resolve_cd("src", "/root").unwrap();
    assert_eq!(target, "/home/user/src");
    // the OS entered the resolved target; its canonical form reads back
    let r = e.finish_cd("src", OsChdir::Entered(target.clone()));
    assert_eq!(r.unwrap(), "");
    assert_eq!(e.get_current_dir(), "/home/user/src");
}

#[test]
fn timeout_is_tagged_timeout_never_nonzero_exit() {
    let e = executor_at("/srv");
    match e.classify_spawn("sleep 600", SpawnOutcome::TimedOut) {
        ExecutionOutcome::Failure(f) => {
            assert_eq!(f.kind, FailureKind::Timeout);
            assert_ne!(f.kind, FailureKind::NonZeroExit);
            assert_eq!(f.exit_code, None);
            assert_eq!(f.message, "Command timed out after 30 seconds");
            assert_eq!(f.context.command, "sleep 600");
            assert_eq!(f.context.directory, "/srv");
        },
        _ => panic!("a timed-out run must fail"),
    }
    assert_eq!(COMMAND_TIMEOUT_SECS, 30);
}

#[test]
fn zero_exit_with_stderr_is_success_with_warning() {
    let e = executor_at("/srv");
    let out = SpawnOutcome::Finished {
        exit_code: Some(0),
        stdout: "result\n".to_string(),
        stderr: "informational note".to_string(),
    };
    match e.classify_spawn("tool", out) {
        ExecutionOutcome::Success { stdout, warning } => {
            assert_eq!(stdout, "result\n");
            assert_eq!(warning.unwrap(), "Warning: informational note");
        },
        _ => panic!("exit status is authoritative: zero exit is success"),
    }
}

#[test]
fn zero_exit_without_stderr_has_no_warning() {
    let e = executor_at("/srv");
    let out = SpawnOutcome::Finished {
        exit_code: Some(0),
        stdout: "ok".to_string(),
        stderr: String::new(),
    };
    match e.classify_spawn("tool", out) {
        ExecutionOutcome::Success { stdout, warning } => {
            assert_eq!(stdout, "ok");
            assert!(warning.is_none());
        },
        _ => panic!("zero exit is success"),
    }
}

#[test]
fn nonzero_exit_fails_with_stderr_or_stdout() {
    let e = executor_at("/srv");
    let out = SpawnOutcome::Finished {
        exit_code: Some(2),
        stdout: "partial".to_string(),
        stderr: "bad flag".to_string(),
    };
    match e.classify_spawn("grep --bogus", out) {
        ExecutionOutcome::Failure(f) => {
            assert_eq!(f.kind, FailureKind::NonZeroExit);
            assert_eq!(f.exit_code, Some(2));
            assert_eq!(f.message, "bad flag");
            assert_eq!(f.context.error_text, "bad flag");
        },
        _ => panic!("non-zero exit must fail"),
    }
    let quiet = SpawnOutcome::Finished {
        exit_code: Some(3),
        stdout: "only stdout".to_string(),
        stderr: String::new(),
    };
    match e.classify_spawn("tool", quiet) {
        ExecutionOutcome::Failure(f) => assert_eq!(f.message, "only stdout"),
        _ => panic!("non-zero exit must fail"),
    }
}

#[test]
fn signal_termination_is_distinct_from_exit() {
    let e = executor_at("/srv");
    let out = SpawnOutcome::Finished {
        exit_code: None,
        stdout: String::new(),
        stderr: String::new(),
    };
    match e.classify_spawn("tool", out) {
        ExecutionOutcome::Failure(f) => {
            assert_eq!(f.kind, FailureKind::Signal);
            assert_ne!(f.kind, FailureKind::NonZeroExit);
            assert_eq!(f.message, "Command terminated by a signal");
        },
        _ => panic!("signal termination must fail"),
    }
}

#[test]
fn launch_failure_carries_the_cause() {
    let e = executor_at("/srv");
    match e.classify_spawn("tool", SpawnOutcome::LaunchFailed("spawn denied".to_string())) {
        ExecutionOutcome::Failure(f) => {
            assert_eq!(f.kind, FailureKind::Launch);
            assert_eq!(f.message, "spawn denied");
        },
        _ => panic!("a launch failure must fail"),
    }
}

#[test]
fn resync_absorbs_outside_changes_and_is_idempotent() {
    let mut e = executor_at("/a/b");
    e.sync_from_os(Some("/c/d"));
    assert_eq!(e.get_current_dir(), "/c/d");
    // unchanged OS report: a no-op
    e.sync_from_os(Some("/c/d"));
    assert_eq!(e.get_current_dir(), "/c/d");
    // a missing or non-absolute report changes nothing
    e.sync_from_os(None);
    assert_eq!(e.get_current_dir(), "/c/d");
    e.sync_from_os(Some("not-absolute"));
    assert_eq!(e.get_current_dir(), "/c/d");
}

#[test]
fn error_messages_carry_their_category() {
    assert_eq!(
        DiracError::CommandExecutionError("boom".to_string()).message(),
        "Command execution error: boom"
    );
    assert_eq!(
        DiracError::AIProcessingError("down".to_string()).message(),
        "AI processing error: down"
    );
    assert_eq!(DiracError::InputError("empty".to_string()).message(), "Input error: empty");
}
