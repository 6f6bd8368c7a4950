use dirac::parser::parse_response;

const SAFE_DEFAULT: &str = "Lists files and directories in the current directory. This is a safe default command when the request is unclear.";

#[test]
fn parses_command_and_explanation() {
    let r = parse_response("COMMAND: ls -la\nEXPLANATION: lists all files");
    assert_eq!(r.command, "ls -la");
    assert_eq!(r.explanation, "lists all files");
}

#[test]
fn empty_input_yields_safe_default() {
    let r = parse_response("");
    assert_eq!(r.command, "ls");
    assert_eq!(r.explanation, SAFE_DEFAULT);
}

#[test]
fn whitespace_input_yields_safe_default() {
    let r = parse_response("  \n\t  \n");
    assert_eq!(r.command, "ls");
    assert_eq!(r.explanation, SAFE_DEFAULT);
}

#[test]
fn missing_explanation_yields_generic_text() {
    let r = parse_response("COMMAND: pwd");
    assert_eq!(r.command, "pwd");
    assert_eq!(r.explanation, "Executes the specified command.");
}

#[test]
fn empty_command_keeps_parsed_explanation() {
    let r = parse_response("COMMAND:\nEXPLANATION: something useful");
    assert_eq!(r.command, "ls");
    assert_eq!(r.explanation, "something useful");
}

#[test]
fn first_marked_line_wins() {
    let r = parse_response("COMMAND: first\nCOMMAND: second\nEXPLANATION: one\nEXPLANATION: two");
    assert_eq!(r.command, "first");
    assert_eq!(r.explanation, "one");
}

#[test]
fn marker_must_begin_the_line() {
    let r = parse_response("see COMMAND: not this\nCOMMAND: this one\nEXPLANATION: e");
    assert_eq!(r.command, "this one");
    assert_eq!(r.explanation, "e");
}

#[test]
fn fields_are_trimmed() {
    let r = parse_response("COMMAND:    du -sh   \nEXPLANATION:   disk usage  ");
    assert_eq!(r.command, "du -sh");
    assert_eq!(r.explanation, "disk usage");
}

#[test]
fn surrounding_prose_is_ignored() {
    let r = parse_response("Here is my answer:\nCOMMAND: uptime\nEXPLANATION: shows uptime\nHope that helps!");
    assert_eq!(r.command, "uptime");
    assert_eq!(r.explanation, "shows uptime");
}

#[test]
fn parse_never_yields_empty_fields() {
    for raw in ["", "  ", "COMMAND:", "EXPLANATION:", "COMMAND:\nEXPLANATION:", "noise"] {
        let r = parse_response(raw);
        assert!(!r.command.is_empty());
        assert!(!r.explanation.is_empty());
    }
}
