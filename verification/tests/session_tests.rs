use dirac::executor::{ExecPlan, OsChdir, ShellCommandExecutor};
use dirac::session::{
    classify, classify_with, confirm_action, diagnosis_request, history_candidates, input_prompt,
    second_confirmation, signal_advice, split_path_components, with_suggestion, Classified,
    ConfirmAction, SessionSignal,
};

#[test]
fn blank_input_is_empty() {
    assert!(matches!(classify_with("", false), Classified::Empty));
    assert!(matches!(classify_with("   \t", true), Classified::Empty));
}

#[test]
fn exit_and_quit_end_the_session() {
    assert!(matches!(classify_with("exit", true), Classified::Exit));
    assert!(matches!(classify_with(" quit ", false), Classified::Exit));
}

#[test]
fn navigation_phrases_are_rewritten_to_cd() {
    match classify_with("go to src", false) {
        Classified::Direct(c) => assert_eq!(c, "cd src"),
        _ => panic!("navigation must become a direct cd"),
    }
    match classify_with("open docs", false) {
        Classified::Direct(c) => assert_eq!(c, "cd docs"),
        _ => panic!("navigation must become a direct cd"),
    }
    match classify_with("change to /tmp", false) {
        Classified::Direct(c) => assert_eq!(c, "cd /tmp"),
        _ => panic!("navigation must become a direct cd"),
    }
}

#[test]
fn validator_answer_decides_the_rest() {
    match classify_with("ls -la", true) {
        Classified::Direct(c) => assert_eq!(c, "ls -la"),
        _ => panic!("a valid head executes directly"),
    }
    match classify_with("show me the biggest files", false) {
        Classified::NeedsResolution(q) => assert_eq!(q, "show me the biggest files"),
        _ => panic!("an invalid head needs resolution"),
    }
}

#[test]
fn go_to_subdirectory_end_to_end() {
    // input "go to src" with the prior directory /base: rewritten to
    // "cd src", executed directly, directory updated — no oracle involved.
    let mut e = ShellCommandExecutor::new(Some("/base".to_string()), None);
    let command = match classify(&e, "go to src") {
        Classified::Direct(c) => c,
        _ => panic!("navigation must be direct"),
    };
    assert_eq!(command, "cd src");
    let args = match e.plan(&command, None) {
        ExecPlan::ChangeDir { args } => args,
        _ => panic!("cd must plan a directory change"),
    };
    let target = e.resolve_cd(&args, "/root").unwrap();
    assert_eq!(target, "/base/src");
    e.finish_cd(&args, OsChdir::Entered(target)).unwrap();
    assert_eq!(e.get_current_dir(), "/base/src");
}

#[test]
fn cd_head_classifies_direct() {
    let e = ShellCommandExecutor::new(Some("/base".to_string()), None);
    match classify(&e, "cd ..") {
        Classified::Direct(c) => assert_eq!(c, "cd .."),
        _ => panic!("cd is always a direct command"),
    }
}

#[test]
fn confirmation_answers() {
    assert_eq!(confirm_action("y"), ConfirmAction::Execute);
    assert_eq!(confirm_action(" Y "), ConfirmAction::Execute);
    assert_eq!(confirm_action("e"), ConfirmAction::Explain);
    assert_eq!(confirm_action("E"), ConfirmAction::Explain);
    assert_eq!(confirm_action(""), ConfirmAction::Decline);
    assert_eq!(confirm_action("n"), ConfirmAction::Decline);
    assert_eq!(confirm_action("yes"), ConfirmAction::Decline);
    assert!(second_confirmation(" y"));
    assert!(second_confirmation("Y"));
    assert!(!second_confirmation("e"));
    assert!(!second_confirmation("no"));
}

#[test]
fn diagnosis_request_embeds_the_failure() {
    let e = ShellCommandExecutor::new(Some("/work".to_string()), None);
    let outcome = e.classify_spawn(
        "grep --bogus",
        dirac::executor::SpawnOutcome::Finished {
            exit_code: Some(2),
            stdout: String::new(),
            stderr: "unknown flag".to_string(),
        },
    );
    let f = match outcome {
        dirac::executor::ExecutionOutcome::Failure(f) => f,
        _ => panic!("non-zero exit must fail"),
    };
    let (request, aux) = diagnosis_request(&f.context);
    assert_eq!(
        request,
        "Command failed: grep --bogus\nError: unknown flag\nCurrent directory: /work"
    );
    assert_eq!(
        aux,
        "Please analyze this error and suggest a fix or alternative command. Consider the current directory context."
    );
}

#[test]
fn suggestion_is_attached_under_the_message() {
    let m = with_suggestion("it broke", "try again");
    assert_eq!(m, "it broke\n\nℹ️ Suggestion:\ntry again");
}

#[test]
fn failure_and_diagnosis_become_one_error() {
    let e = ShellCommandExecutor::new(Some("/work".to_string()), None);
    let outcome = e.classify_spawn(
        "tool",
        dirac::executor::SpawnOutcome::Finished {
            exit_code: Some(1),
            stdout: String::new(),
            stderr: "broken pipe".to_string(),
        },
    );
    let f = match outcome {
        dirac::executor::ExecutionOutcome::Failure(f) => f,
        _ => panic!("non-zero exit must fail"),
    };
    let err = dirac::session::failure_with_diagnosis(&f, "check the downstream command");
    assert_eq!(
        err.message(),
        "Command execution error: broken pipe\n\nℹ️ Suggestion:\ncheck the downstream command"
    );
}

#[test]
fn signal_advice_is_advisory() {
    let a = signal_advice(SessionSignal::Interrupt);
    assert_eq!(a.message, "\nCTRL-C pressed. Use 'exit' or 'quit' to exit properly.");
    assert!(!a.redraw);
    let b = signal_advice(SessionSignal::Suspend);
    assert_eq!(b.message, "\nCTRL-Z pressed. Terminal will continue running.");
    assert!(!b.redraw);
    let c = signal_advice(SessionSignal::Resume);
    assert_eq!(c.message, "\nTerminal resumed.");
    assert!(c.redraw);
}

#[test]
fn prompt_shows_last_two_components() {
    assert_eq!(input_prompt("/home/user/project"), "dirac[user/project]> ");
    assert_eq!(input_prompt("/tmp"), "dirac[tmp]> ");
    assert_eq!(input_prompt("/"), "dirac[/]> ");
    assert_eq!(input_prompt(""), "dirac[/]> ");
    assert_eq!(input_prompt("/a//b/"), "dirac[a/b]> ");
}

#[test]
fn path_components_drop_empties() {
    assert_eq!(split_path_components("/a//b/"), vec!["a".to_string(), "b".to_string()]);
    assert!(split_path_components("/").is_empty());
    assert_eq!(split_path_components("plain"), vec!["plain".to_string()]);
}

#[test]
fn completion_word_is_the_last_token() {
    assert_eq!(dirac::session::completion_word("git sta"), "sta");
    assert_eq!(dirac::session::completion_word("git "), "");
    assert_eq!(dirac::session::completion_word("solo"), "solo");
    assert_eq!(dirac::session::completion_word(""), "");
}

#[test]
fn completion_candidates_filter_and_dedup() {
    let history = vec![
        "git status".to_string(),
        "ls".to_string(),
        "git status".to_string(),
        "git push".to_string(),
    ];
    let c = history_candidates(&history, "git");
    assert_eq!(c, vec!["git status".to_string(), "git push".to_string()]);
    let all = history_candidates(&history, "");
    assert_eq!(all.len(), 4);
    let none = history_candidates(&history, "zzz");
    assert!(none.is_empty());
}
