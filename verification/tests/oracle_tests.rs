use dirac::errors::DiracError;
use dirac::oracle::{
    build_prompt, interpret_oracle_body, map_transport_failure, render_listing, OsKind,
    TransportFailure,
};
use dirac::parser::parse_response;

fn inner(e: DiracError) -> String {
    match e {
        DiracError::AIProcessingError(m) => m,
        _ => panic!("oracle failures are AI processing errors"),
    }
}

#[test]
fn connect_failure_names_install_and_start_steps() {
    let e = map_transport_failure(TransportFailure::ConnectionRefused, "qwen2.5:3b");
    let m = inner(e);
    assert_eq!(
        m,
        "Ollama service is not running. To install and start Ollama:\n1. Visit https://ollama.ai to download and install Ollama\n2. Start the Ollama service\n3. Run 'ollama pull qwen2.5:3b' to download the model"
    );
}

#[test]
fn timeout_failure_is_distinct_from_connect_failure() {
    let connect = inner(map_transport_failure(TransportFailure::ConnectionRefused, "qwen2.5:3b"));
    let timeout = inner(map_transport_failure(TransportFailure::TimedOut, "qwen2.5:3b"));
    assert_eq!(
        timeout,
        "Connection to Ollama service timed out. Please check if the service is responding."
    );
    assert_ne!(connect, timeout);
}

#[test]
fn other_transport_failure_carries_the_cause() {
    let m = inner(map_transport_failure(TransportFailure::Other("tls handshake".to_string()), "m"));
    assert_eq!(m, "Failed to connect to AI service: tls handshake");
}

#[test]
fn reply_body_with_response_field_hands_back_the_text() {
    let body = "{\"response\": \"COMMAND: pwd\\nEXPLANATION: prints the directory\"}";
    let text = interpret_oracle_body(body, "qwen2.5:3b").unwrap();
    assert_eq!(text, "COMMAND: pwd\nEXPLANATION: prints the directory");
    let parsed = parse_response(&text);
    assert_eq!(parsed.command, "pwd");
    assert_eq!(parsed.explanation, "prints the directory");
}

#[test]
fn reply_body_with_error_field_is_surfaced() {
    let body = "{\"error\": \"backend exploded\"}";
    let m = inner(interpret_oracle_body(body, "qwen2.5:3b").unwrap_err());
    assert_eq!(m, "Ollama error: backend exploded");
}

#[test]
fn error_mentioning_model_gets_model_remediation() {
    let body = "{\"error\": \"model not loaded\"}";
    let m = inner(interpret_oracle_body(body, "qwen2.5:3b").unwrap_err());
    assert_eq!(
        m,
        "Model 'qwen2.5:3b' not found. To install the model:\n1. Ensure Ollama is running\n2. Run 'ollama pull qwen2.5:3b' to download the model"
    );
}

#[test]
fn non_string_error_field_reads_unknown() {
    let body = "{\"error\": {\"code\": 7}}";
    let m = inner(interpret_oracle_body(body, "qwen2.5:3b").unwrap_err());
    assert_eq!(m, "Ollama error: Unknown error");
}

#[test]
fn unstructured_body_falls_back_to_safe_default() {
    for body in ["not json at all", "{\"neither\": 1}", "[]"] {
        let text = interpret_oracle_body(body, "qwen2.5:3b").unwrap();
        assert_eq!(text, "");
        let parsed = parse_response(&text);
        assert_eq!(parsed.command, "ls");
    }
}

#[test]
fn listing_is_indented_one_entry_per_line() {
    assert_eq!(render_listing(&vec![]), "");
    assert_eq!(render_listing(&vec!["src".to_string()]), "  src");
    assert_eq!(
        render_listing(&vec!["src".to_string(), "Cargo.toml".to_string()]),
        "  src\n  Cargo.toml"
    );
}

#[test]
fn prompt_embeds_request_and_context() {
    let p = build_prompt(
        "show hidden files",
        "aux",
        "/work",
        OsKind::Linux,
        "  src\n  docs",
    );
    assert!(p.starts_with("You are a sophisticated terminal command generator"));
    assert!(p.contains("- User Request: 'show hidden files'"));
    assert!(p.contains("- Additional Context: 'aux'"));
    assert!(p.contains("   - Working Directory: /work"));
    assert!(p.contains("   - OS Type: linux"));
    assert!(p.contains("   - Directory Structure:\n  src\n  docs"));
    assert!(p.ends_with(
        "\n\nBased on these details, generate the appropriate terminal command and a brief explanation."
    ));
}

#[test]
fn os_kind_labels() {
    assert_eq!(OsKind::Linux.label(), "linux");
    assert_eq!(OsKind::Macos.label(), "macos");
    assert_eq!(OsKind::Windows.label(), "windows");
}
