//! The command execution engine: decides what an invocation means (reject
//! it, change directory, or delegate to the external shell), resolves `cd`
//! targets against the held working directory, and classifies what came
//! back from a delegated run under timeout and signal semantics.
//!
//! The actual process spawn, the OS directory change and the
//! canonicalized path it yields are performed outside and handed in as
//! plain values; every decision around them is verified here.

use vstd::prelude::*;
use vstd::string::StrSliceExecFns;
use vstd::string::StringExecFns;
use crate::dirstate::{init_dir_spec, is_absolute, sync_dir_spec, DirectoryState};
use crate::errors::DiracError;
use crate::text::{
    concat2, concat3, contains_char, has_char, has_prefix, head_of, is_blank, slice_chars,
    split_head, str_eq, starts_with_spec, tail_of, trim, trim_spec,
};

verus! {

/// The fixed bound, in seconds, on any delegated command run.
pub const COMMAND_TIMEOUT_SECS: u64 = 30;

/// Relies on which::which: `Ok` exactly when the name resolves to an
/// executable on the system search path. The answer depends on the PATH
/// environment and the filesystem, so nothing is promised of it.
#[verifier::external_body]
fn resolves_on_path(name: &str) -> bool {
    which::which(name).is_ok()
}

/// What a raw invocation asks the engine to do.
#[derive(Debug)]
pub enum ExecPlan {
    /// The invocation is rejected before anything runs.
    Reject { error: DiracError },
    /// The built-in `cd`, with everything after the token as its argument.
    ChangeDir { args: String },
    /// A validated command line to hand to the external shell.
    Spawn { cmdline: String },
}

/// How a delegated run ended, as reported by the spawning side.
#[derive(Debug)]
pub enum SpawnOutcome {
    /// The run exceeded the timeout bound and was abandoned.
    TimedOut,
    /// The process could not be started; carries the OS error text.
    LaunchFailed(String),
    /// The process finished; `exit_code` is `None` when it was terminated
    /// by a signal rather than exiting normally.
    Finished { exit_code: Option<i32>, stdout: String, stderr: String },
}

/// How the OS answered a directory-change request: the canonicalized
/// absolute directory it ended up in, or its error text.
#[derive(Debug)]
pub enum OsChdir {
    Entered(String),
    Refused(String),
}

/// Enough context to seed a follow-up oracle call about a failure.
#[derive(Debug)]
pub struct DiagnosticContext {
    pub command: String,
    pub error_text: String,
    pub directory: String,
}

/// Distinguishes the shapes a failed run can take; a timeout is never
/// conflated with a normal non-zero exit, nor a signal termination.
#[derive(Debug, PartialEq, Eq, Structural)]
pub enum FailureKind {
    Timeout,
    Signal,
    NonZeroExit,
    Launch,
}

/// A failed run, with the exit code when one exists and the context for
/// a follow-up diagnosis.
#[derive(Debug)]
pub struct ExecFailure {
    pub kind: FailureKind,
    pub exit_code: Option<i32>,
    pub message: String,
    pub context: DiagnosticContext,
}

/// The tagged result of executing one invocation.
#[derive(Debug)]
pub enum ExecutionOutcome {
    /// Zero exit status; stderr, when non-empty, is surfaced as an
    /// advisory warning rather than a failure.
    Success { stdout: String, warning: Option<String> },
    Failure(ExecFailure),
}

/// The message rejecting a blank invocation.
pub open spec fn empty_command_text() -> Seq<char> {
    "Empty command provided"@
}

/// The message rejecting a head token that names no executable.
pub open spec fn not_found_text(head: Seq<char>) -> Seq<char> {
    "Command '"@ + head + "' not found or not executable"@
}

/// The message reported when a run exceeds the timeout bound.
pub open spec fn timeout_text() -> Seq<char> {
    "Command timed out after 30 seconds"@
}

/// The message reported when a run is terminated by a signal.
pub open spec fn signal_text() -> Seq<char> {
    "Command terminated by a signal"@
}

/// Where a `cd` invocation leads: a leading `~` expands to the home
/// directory, a leading `/` is taken as absolute, anything else is joined
/// against the current directory.
pub open spec fn cd_target_spec(path: Seq<char>, home: Seq<char>, cur: Seq<char>) -> Seq<char> {
    if path == "~"@ {
        home
    } else if starts_with_spec(path, "~/"@) {
        home + path.subrange(1, path.len() as int)
    } else if path.len() > 0 && path[0] == '/' {
        path
    } else {
        cur + "/"@ + path
    }
}

/// Resolution keeps paths absolute: whatever target the operator named,
/// the directory handed to the OS is absolute whenever the held
/// directory and the home directory are.
pub proof fn lemma_cd_target_absolute(path: Seq<char>, home: Seq<char>, cur: Seq<char>)
    requires
        is_absolute(cur),
        is_absolute(home),
    ensures
        is_absolute(cd_target_spec(path, home, cur)),
{
    reveal_strlit("~");
    reveal_strlit("~/");
    reveal_strlit("/");
    if path == "~"@ {
    } else if starts_with_spec(path, "~/"@) {
        assert((home + path.subrange(1, path.len() as int))[0] == home[0]);
    } else if path.len() > 0 && path[0] == '/' {
    } else {
        assert((cur + "/"@ + path)[0] == cur[0]);
    }
}

/// The locally generated suggestion for a failed `cd`, keyed by the shape
/// of the target the operator named.
pub open spec fn cd_suggestion_spec(path: Seq<char>) -> Seq<char> {
    if path == "back"@ {
        "Use 'cd ..' to navigate to the parent directory."@
    } else if contains_char(path, '/') {
        "Make sure the directory exists and you have permission to access it."@
    } else {
        "Use 'cd ..' to go up one directory or 'cd ~' to go to your home directory."@
    }
}

/// The full message of a failed `cd`: the OS error, then the suggestion.
pub open spec fn cd_fail_message_spec(path: Seq<char>, os_error: Seq<char>) -> Seq<char> {
    "Failed to change directory: "@ + os_error + "\n\nℹ️ Suggestion:\n"@ + cd_suggestion_spec(path)
}

/// Executes commands against a persistent working-directory context,
/// delegating actual runs to an external shell.
pub struct ShellCommandExecutor {
    dir: DirectoryState,
    shell_path: String,
}

impl ShellCommandExecutor {
    /// The held working directory.
    pub closed spec fn dir(&self) -> Seq<char> {
        self.dir.dir()
    }

    /// The shell every delegated command is handed to.
    pub closed spec fn shell(&self) -> Seq<char> {
        self.shell_path@
    }

    /// Well-formedness: the held working directory is absolute.
    pub closed spec fn wf(&self) -> bool {
        self.dir.inv()
    }

    /// Builds the executor from the OS-reported working directory and the
    /// configured shell, falling back to the filesystem root and `/bin/sh`.
    pub fn new(os_cwd: Option<String>, shell: Option<String>) -> (r: Self)
        ensures
            r.wf(),
            r.dir() == init_dir_spec(match os_cwd {
                Some(d) => Some(d@),
                None => None,
            }),
            r.shell() == match shell {
                Some(s) => s@,
                None => "/bin/sh"@,
            },
    {
        let shell_path = match shell {
            Some(s) => s,
            None => String::from_str("/bin/sh"),
        };
        ShellCommandExecutor { dir: DirectoryState::new(os_cwd), shell_path }
    }

    /// Reads the held working directory.
    pub fn get_current_dir(&self) -> (r: String)
        ensures
            r@ == self.dir(),
    {
        self.dir.read()
    }

    /// The shell path, for the spawning side.
    pub fn get_shell_path(&self) -> (r: String)
        ensures
            r@ == self.shell(),
    {
        self.shell_path.clone()
    }

    /// Re-synchronizes the held directory from the OS-reported one, to
    /// absorb changes made outside this engine.
    pub fn sync_from_os(&mut self, os_cwd: Option<&str>)
        requires
            old(self).wf(),
        ensures
            final(self).wf(),
            final(self).shell() == old(self).shell(),
            final(self).dir() == sync_dir_spec(old(self).dir(), match os_cwd {
                Some(d) => Some(d@),
                None => None,
            }),
    {
        self.dir.sync_from_os(os_cwd);
    }

    /// True when the invocation's head token is the built-in `cd` or
    /// names an executable on the system search path; a blank invocation
    /// is never valid. Whether a name resolves depends on the system, so
    /// only the `cd` and blank cases are pinned.
    pub fn is_valid_command(&self, command: &str) -> (r: bool)
        ensures
            head_of(trim_spec(command@)).len() == 0 ==> r == false,
            head_of(trim_spec(command@)) == "cd"@ ==> r == true,
    {
        proof {
            reveal_strlit("cd");
        }
        let t = trim(command);
        let (head, _tail) = split_head(t.as_str());
        if head.as_str().unicode_len() == 0 {
            return false;
        }
        if str_eq(head.as_str(), "cd") {
            return true;
        }
        resolves_on_path(head.as_str())
    }

    /// Decides what a raw invocation asks for. A blank invocation is
    /// rejected as an input error before anything else; a `cd` head turns
    /// into a directory change and touches nothing; any other head first
    /// re-synchronizes the held directory from the OS report, then either
    /// passes the trimmed command line on to the shell or rejects an
    /// unknown head. No run is attempted here.
    pub fn plan(&mut self, raw: &str, os_cwd: Option<&str>) -> (r: ExecPlan)
        requires
            old(self).wf(),
        ensures
            final(self).wf(),
            final(self).shell() == old(self).shell(),
            is_blank(raw@) ==> {
                &&& r matches ExecPlan::Reject { error } && error matches DiracError::InputError(
                    m,
                ) && m@ == empty_command_text()
                &&& final(self).dir() == old(self).dir()
            },
            !is_blank(raw@) && head_of(trim_spec(raw@)) == "cd"@ ==> {
                &&& r matches ExecPlan::ChangeDir { args } && args@ == tail_of(trim_spec(raw@))
                &&& final(self).dir() == old(self).dir()
            },
            !is_blank(raw@) && head_of(trim_spec(raw@)) != "cd"@ ==> {
                &&& final(self).dir() == sync_dir_spec(old(self).dir(), match os_cwd {
                    Some(d) => Some(d@),
                    None => None,
                })
                &&& (r matches ExecPlan::Spawn { cmdline } ==> cmdline@ == trim_spec(raw@))
                &&& (r matches ExecPlan::Reject { error } ==> error matches
                    DiracError::InputError(m) && m@ == not_found_text(head_of(trim_spec(raw@))))
                &&& !(r is ChangeDir)
            },
    {
        let t = trim(raw);
        if t.as_str().unicode_len() == 0 {
            proof {
                crate::text::lemma_trim_empty_iff_blank(raw@);
            }
            return ExecPlan::Reject {
                error: DiracError::InputError(String::from_str("Empty command provided")),
            };
        }
        proof {
            crate::text::lemma_trim_empty_iff_blank(raw@);
        }
        let (head, tail) = split_head(t.as_str());
        if str_eq(head.as_str(), "cd") {
            return ExecPlan::ChangeDir { args: tail };
        }
        self.sync_from_os(os_cwd);
        if self.is_valid_command(t.as_str()) {
            ExecPlan::Spawn { cmdline: t }
        } else {
            proof {
                crate::text::lemma_trim_idempotent(raw@);
            }
            let msg = concat3("Command '", head.as_str(), "' not found or not executable");
            ExecPlan::Reject { error: DiracError::InputError(msg) }
        }
    }

    /// Resolves a `cd` argument to the directory the OS should be asked
    /// for, per `cd_target_spec`; a blank argument is refused.
    pub fn resolve_cd(&self, args: &str, home: &str) -> (r: Result<String, DiracError>)
        requires
            self.wf(),
        ensures
            is_blank(args@) ==> {
                &&& r matches Err(e)
                &&& e matches DiracError::CommandExecutionError(m)
                &&& m@ == "No path specified for cd"@
            },
            !is_blank(args@) ==> {
                &&& r matches Ok(t)
                &&& t@ == cd_target_spec(trim_spec(args@), home@, self.dir())
            },
    {
        let p = trim(args);
        proof {
            crate::text::lemma_trim_empty_iff_blank(args@);
        }
        if p.as_str().unicode_len() == 0 {
            return Err(
                DiracError::CommandExecutionError(String::from_str("No path specified for cd")),
            );
        }
        proof {
            reveal_strlit("~");
            reveal_strlit("~/");
            reveal_strlit("/");
        }
        let n = p.as_str().unicode_len();
        if str_eq(p.as_str(), "~") {
            return Ok(String::from_str(home));
        }
        if has_prefix(p.as_str(), "~/") {
            let rest = slice_chars(p.as_str(), 1, n);
            return Ok(concat2(home, rest.as_str()));
        }
        if p.as_str().get_char(0) == '/' {
            proof {
                assert(p@ != "~"@);
            }
            return Ok(p);
        }
        let cur = self.dir.read();
        Ok(concat3(cur.as_str(), "/", p.as_str()))
    }

    /// Commits the OS's answer to a directory change. On entry the held
    /// directory becomes exactly the canonicalized directory the OS
    /// reports and the run succeeds with empty output; on refusal the
    /// held directory is left unchanged and the failure carries the OS
    /// error and the path-specific suggestion.
    pub fn finish_cd(&mut self, args: &str, outcome: OsChdir) -> (r: Result<String, DiracError>)
        requires
            old(self).wf(),
            outcome matches OsChdir::Entered(d) ==> is_absolute(d@),
        ensures
            final(self).wf(),
            final(self).shell() == old(self).shell(),
            outcome matches OsChdir::Entered(d) ==> {
                &&& r matches Ok(out) && out@ == Seq::<char>::empty()
                &&& final(self).dir() == d@
            },
            outcome matches OsChdir::Refused(e) ==> {
                &&& final(self).dir() == old(self).dir()
                &&& r matches Err(err) && err matches DiracError::CommandExecutionError(m) && m@
                    == cd_fail_message_spec(trim_spec(args@), e@)
            },
    {
        match outcome {
            OsChdir::Entered(d) => {
                self.dir.write(d.as_str());
                Ok(String::new())
            },
            OsChdir::Refused(e) => {
                let p = trim(args);
                let suggestion = if str_eq(p.as_str(), "back") {
                    "Use 'cd ..' to navigate to the parent directory."
                } else if has_char(p.as_str(), '/') {
                    "Make sure the directory exists and you have permission to access it."
                } else {
                    "Use 'cd ..' to go up one directory or 'cd ~' to go to your home directory."
                };
                let mut m = concat3("Failed to change directory: ", e.as_str(), "\n\nℹ️ Suggestion:\n");
                m.append(suggestion);
                Err(DiracError::CommandExecutionError(m))
            },
        }
    }

    /// Classifies what came back from a delegated run. The exit status is
    /// authoritative: a timeout is tagged as a timeout and never as a
    /// normal non-zero exit; a signal termination is tagged apart from
    /// both; a zero status with non-empty stderr is a success whose
    /// stderr is surfaced as a warning; a non-zero status fails with the
    /// captured stderr, or stdout when stderr is empty. Every failure
    /// carries the context for a follow-up diagnosis.
    pub fn classify_spawn(&self, cmdline: &str, outcome: SpawnOutcome) -> (r: ExecutionOutcome)
        requires
            self.wf(),
        ensures
            outcome is TimedOut ==> {
                &&& r matches ExecutionOutcome::Failure(f)
                &&& f.kind == FailureKind::Timeout
                &&& f.exit_code is None
                &&& f.message@ == timeout_text()
                &&& self.context_ok(cmdline@, f)
            },
            outcome matches SpawnOutcome::LaunchFailed(e) ==> {
                &&& r matches ExecutionOutcome::Failure(f)
                &&& f.kind == FailureKind::Launch
                &&& f.exit_code is None
                &&& f.message@ == e@
                &&& self.context_ok(cmdline@, f)
            },
            outcome matches SpawnOutcome::Finished { exit_code: None, .. } ==> {
                &&& r matches ExecutionOutcome::Failure(f)
                &&& f.kind == FailureKind::Signal
                &&& f.exit_code is None
                &&& f.message@ == signal_text()
                &&& self.context_ok(cmdline@, f)
            },
            outcome matches SpawnOutcome::Finished { exit_code: Some(c), stdout, stderr } ==> {
                &&& c == 0 ==> {
                    &&& r matches ExecutionOutcome::Success { stdout: out, warning }
                    &&& out@ == stdout@
                    &&& stderr@.len() == 0 ==> warning is None
                    &&& stderr@.len() > 0 ==> {
                        &&& warning matches Some(w)
                        &&& w@ == "Warning: "@ + stderr@
                    }
                }
                &&& c != 0 ==> {
                    &&& r matches ExecutionOutcome::Failure(f)
                    &&& f.kind == FailureKind::NonZeroExit
                    &&& f.exit_code matches Some(rc)
                    &&& rc == c
                    &&& f.message@ == (if stderr@.len() > 0 {
                        stderr@
                    } else {
                        stdout@
                    })
                    &&& self.context_ok(cmdline@, f)
                }
            },
    {
        match outcome {
            SpawnOutcome::TimedOut => {
                let message = String::from_str("Command timed out after 30 seconds");
                ExecutionOutcome::Failure(
                    ExecFailure {
                        kind: FailureKind::Timeout,
                        exit_code: None,
                        context: self.diagnostic_context(cmdline, message.as_str()),
                        message,
                    },
                )
            },
            SpawnOutcome::LaunchFailed(e) => {
                ExecutionOutcome::Failure(
                    ExecFailure {
                        kind: FailureKind::Launch,
                        exit_code: None,
                        context: self.diagnostic_context(cmdline, e.as_str()),
                        message: e,
                    },
                )
            },
            SpawnOutcome::Finished { exit_code: None, stdout: _, stderr: _ } => {
                let message = String::from_str("Command terminated by a signal");
                ExecutionOutcome::Failure(
                    ExecFailure {
                        kind: FailureKind::Signal,
                        exit_code: None,
                        context: self.diagnostic_context(cmdline, message.as_str()),
                        message,
                    },
                )
            },
            SpawnOutcome::Finished { exit_code: Some(c), stdout, stderr } => {
                if c == 0 {
                    let warning = if stderr.as_str().unicode_len() == 0 {
                        None
                    } else {
                        Some(concat2("Warning: ", stderr.as_str()))
                    };
                    ExecutionOutcome::Success { stdout, warning }
                } else {
                    let message = if stderr.as_str().unicode_len() > 0 {
                        stderr
                    } else {
                        stdout
                    };
                    ExecutionOutcome::Failure(
                        ExecFailure {
                            kind: FailureKind::NonZeroExit,
                            exit_code: Some(c),
                            context: self.diagnostic_context(cmdline, message.as_str()),
                            message,
                        },
                    )
                }
            },
        }
    }

    /// The failure context points at this command, this error text, and
    /// the directory held at classification time.
    pub open spec fn context_ok(&self, cmdline: Seq<char>, f: ExecFailure) -> bool {
        &&& f.context.command@ == cmdline
        &&& f.context.error_text@ == f.message@
        &&& f.context.directory@ == self.dir()
    }

    /// Builds the diagnosis context for a failure of `cmdline` with the
    /// given error text.
    fn diagnostic_context(&self, cmdline: &str, error_text: &str) -> (r: DiagnosticContext)
        requires
            self.wf(),
        ensures
            r.command@ == cmdline@,
            r.error_text@ == error_text@,
            r.directory@ == self.dir(),
    {
        DiagnosticContext {
            command: String::from_str(cmdline),
            error_text: String::from_str(error_text),
            directory: self.dir.read(),
        }
    }
}

} // verus!
