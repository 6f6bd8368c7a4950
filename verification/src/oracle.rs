//! The resolution oracle boundary: assembling the prompt that is sent to
//! the external language-model service, mapping its transport failures to
//! distinct reported conditions, and interpreting the structured body it
//! replies with.
//!
//! The HTTP transport itself lives outside; the JSON body is read through
//! trusted declarations of serde_json, and every decision on what was
//! extracted is verified here.

use vstd::prelude::*;
use vstd::string::StrSliceExecFns;
use vstd::string::StringExecFns;
use crate::errors::DiracError;
use crate::text::{concat2, concat3, contains_seq, contains_str};

verus! {

/// The OS tag embedded in the prompt, one of a fixed small set.
#[derive(Debug, PartialEq, Eq, Structural)]
pub enum OsKind {
    Linux,
    Macos,
    Windows,
}

impl OsKind {
    /// The tag's spelling inside the prompt.
    pub open spec fn spec_label(&self) -> Seq<char> {
        match self {
            OsKind::Linux => "linux"@,
            OsKind::Macos => "macos"@,
            OsKind::Windows => "windows"@,
        }
    }

    /// Renders the tag.
    pub fn label(&self) -> (r: &'static str)
        ensures
            r@ == self.spec_label(),
    {
        match self {
            OsKind::Linux => "linux",
            OsKind::Macos => "macos",
            OsKind::Windows => "windows",
        }
    }
}

/// One directory entry per line, each indented by two spaces.
pub open spec fn listing_spec(es: Seq<Seq<char>>) -> Seq<char>
    decreases es.len(),
{
    if es.len() == 0 {
        Seq::empty()
    } else if es.len() == 1 {
        "  "@ + es[0]
    } else {
        "  "@ + es[0] + "\n"@ + listing_spec(es.drop_first())
    }
}

/// Appending one entry extends the rendered listing by a separator and
/// the indented entry.
proof fn lemma_listing_push(es: Seq<Seq<char>>, e: Seq<char>)
    ensures
        listing_spec(es.push(e)) == if es.len() == 0 {
            "  "@ + e
        } else {
            listing_spec(es) + "\n"@ + "  "@ + e
        },
    decreases es.len(),
{
    if es.len() == 0 {
        assert(es.push(e)[0] == e);
        assert(listing_spec(es.push(e)) == "  "@ + e);
    } else {
        let p = es.push(e);
        assert(p.len() >= 2);
        assert(p[0] == es[0]);
        assert(p.drop_first() =~= es.drop_first().push(e));
        lemma_listing_push(es.drop_first(), e);
        if es.len() == 1 {
            assert(es.drop_first().len() == 0);
            assert(listing_spec(p) == "  "@ + p[0] + "\n"@ + ("  "@ + e));
            assert(listing_spec(es) == "  "@ + es[0]);
            assert("  "@ + es[0] + "\n"@ + ("  "@ + e) =~= listing_spec(es) + "\n"@ + "  "@ + e);
        } else {
            assert(listing_spec(p) == "  "@ + p[0] + "\n"@ + listing_spec(p.drop_first()));
            assert(listing_spec(es) == "  "@ + es[0] + "\n"@ + listing_spec(es.drop_first()));
            assert("  "@ + es[0] + "\n"@ + (listing_spec(es.drop_first()) + "\n"@ + "  "@ + e)
                =~= listing_spec(es) + "\n"@ + "  "@ + e);
        }
    }
}

/// Renders a shallow directory listing, per `listing_spec`.
pub fn render_listing(entries: &Vec<String>) -> (r: String)
    ensures
        r@ == listing_spec(entries.deep_view()),
{
    let mut r = String::new();
    let mut i: usize = 0;
    while i < entries.len()
        invariant
            0 <= i <= entries.len(),
            r@ == listing_spec(entries.deep_view().take(i as int)),
        decreases entries.len() - i,
    {
        if i > 0 {
            r.append("\n");
        }
        r.append("  ");
        r.append(entries[i].as_str());
        proof {
            let es = entries.deep_view();
            assert(es.take(i as int).push(es[i as int]) =~= es.take(i + 1));
            lemma_listing_push(es.take(i as int), es[i as int]);
            assert(es[i as int] == entries@[i as int]@);
            assert(r@ =~= listing_spec(es.take(i + 1)));
        }
        i += 1;
    }
    proof {
        assert(entries.deep_view().take(entries@.len() as int) =~= entries.deep_view());
    }
    r
}

/// The fixed prompt text standing before the user's request.
pub open spec fn prompt_preamble() -> Seq<char> {
    "You are a sophisticated terminal command generator that converts natural language requests into precise, executable shell commands.\nWhen provided with a user request and additional context, you must:\n\n1. Ensure Accuracy and Safety:\n   - Generate commands that can be executed directly without any modifications.\n   - Prioritize safe, non-destructive commands (e.g., 'ls', 'pwd') when the request is ambiguous.\n   - Convert natural language navigation requests (such as 'go to', 'open', 'change to') into the appropriate 'cd' commands.\n\n2. Detect and Correct Typos:\n   - Identify any typographical errors (for example, convert 'lsbkk' to 'ls').\n   - If a correction is made or multiple interpretations are possible, include clear guidance in the explanation.\n\n3. Leverage Context:\n   - Use the provided details about the current working directory, operating system, and directory structure to tailor your response.\n   - Ensure that any suggested navigation or file-related commands reflect the actual environment.\n\n4. Follow the Strict Response Format:\n   - Your answer must be in the exact format shown below with no extra text:\n\n     COMMAND: <the exact command to execute>\n     EXPLANATION: <a concise explanation of the command, including any corrections or alternative suggestions>\n\nInput Details:\n- User Request: '"@
}

/// The full prompt: the preamble, then the request, the auxiliary
/// context, the working directory, the OS tag and the directory listing,
/// each under its fixed label.
pub open spec fn prompt_spec(
    input: Seq<char>,
    context: Seq<char>,
    cwd: Seq<char>,
    os: Seq<char>,
    listing: Seq<char>,
) -> Seq<char> {
    prompt_preamble() + input + "'\n- Additional Context: '"@ + context
        + "'\n- Current Environment:\n   - Working Directory: "@ + cwd + "\n   - OS Type: "@ + os
        + "\n   - Directory Structure:\n"@ + listing
        + "\n\nBased on these details, generate the appropriate terminal command and a brief explanation."@
}

/// Assembles the single prompt embedding the request and its execution
/// context, per `prompt_spec`.
pub fn build_prompt(
    input: &str,
    context: &str,
    cwd: &str,
    os: OsKind,
    listing: &str,
) -> (r: String)
    ensures
        r@ == prompt_spec(input@, context@, cwd@, os.spec_label(), listing@),
{
    let mut r = String::from_str(
        "You are a sophisticated terminal command generator that converts natural language requests into precise, executable shell commands.\nWhen provided with a user request and additional context, you must:\n\n1. Ensure Accuracy and Safety:\n   - Generate commands that can be executed directly without any modifications.\n   - Prioritize safe, non-destructive commands (e.g., 'ls', 'pwd') when the request is ambiguous.\n   - Convert natural language navigation requests (such as 'go to', 'open', 'change to') into the appropriate 'cd' commands.\n\n2. Detect and Correct Typos:\n   - Identify any typographical errors (for example, convert 'lsbkk' to 'ls').\n   - If a correction is made or multiple interpretations are possible, include clear guidance in the explanation.\n\n3. Leverage Context:\n   - Use the provided details about the current working directory, operating system, and directory structure to tailor your response.\n   - Ensure that any suggested navigation or file-related commands reflect the actual environment.\n\n4. Follow the Strict Response Format:\n   - Your answer must be in the exact format shown below with no extra text:\n\n     COMMAND: <the exact command to execute>\n     EXPLANATION: <a concise explanation of the command, including any corrections or alternative suggestions>\n\nInput Details:\n- User Request: '",
    );
    r.append(input);
    r.append("'\n- Additional Context: '");
    r.append(context);
    r.append("'\n- Current Environment:\n   - Working Directory: ");
    r.append(cwd);
    r.append("\n   - OS Type: ");
    r.append(os.label());
    r.append("\n   - Directory Structure:\n");
    r.append(listing);
    r.append(
        "\n\nBased on these details, generate the appropriate terminal command and a brief explanation.",
    );
    r
}

/// How a call to the resolution service failed at the transport level,
/// as the sending side saw it.
#[derive(Debug)]
pub enum TransportFailure {
    /// The service could not be reached at all.
    ConnectionRefused,
    /// The service did not answer within the transport's bound.
    TimedOut,
    /// Any other transport failure, with the underlying cause.
    Other(String),
}

/// The remediation reported when the service is not running: install and
/// start steps, and the pull command for the configured model.
pub open spec fn connect_failure_text(model: Seq<char>) -> Seq<char> {
    "Ollama service is not running. To install and start Ollama:\n1. Visit https://ollama.ai to download and install Ollama\n2. Start the Ollama service\n3. Run 'ollama pull "@
        + model + "' to download the model"@
}

/// The message reported when the service times out.
pub open spec fn timeout_failure_text() -> Seq<char> {
    "Connection to Ollama service timed out. Please check if the service is responding."@
}

/// The message reported for any other transport failure.
pub open spec fn other_failure_text(cause: Seq<char>) -> Seq<char> {
    "Failed to connect to AI service: "@ + cause
}

/// The remediation reported when the service says the configured model
/// is missing.
pub open spec fn model_missing_text(model: Seq<char>) -> Seq<char> {
    "Model '"@ + model
        + "' not found. To install the model:\n1. Ensure Ollama is running\n2. Run 'ollama pull "@
        + model + "' to download the model"@
}

/// The message surfacing any other service-reported error.
pub open spec fn service_error_text(error: Seq<char>) -> Seq<char> {
    "Ollama error: "@ + error
}

/// Maps a transport failure to its distinct reported condition: a
/// connection refusal to the install/start remediation naming the
/// model-pull command, a timeout to its own message, anything else to a
/// generic failure carrying the cause.
pub fn map_transport_failure(failure: TransportFailure, model: &str) -> (r: DiracError)
    ensures
        r matches DiracError::AIProcessingError(m),
        failure is ConnectionRefused ==> r.spec_inner() == connect_failure_text(model@),
        failure is TimedOut ==> r.spec_inner() == timeout_failure_text(),
        failure matches TransportFailure::Other(cause) ==> r.spec_inner() == other_failure_text(
            cause@,
        ),
{
    match failure {
        TransportFailure::ConnectionRefused => {
            let m = concat3(
                "Ollama service is not running. To install and start Ollama:\n1. Visit https://ollama.ai to download and install Ollama\n2. Start the Ollama service\n3. Run 'ollama pull ",
                model,
                "' to download the model",
            );
            DiracError::AIProcessingError(m)
        },
        TransportFailure::TimedOut => {
            DiracError::AIProcessingError(
                String::from_str(
                    "Connection to Ollama service timed out. Please check if the service is responding.",
                ),
            )
        },
        TransportFailure::Other(cause) => {
            DiracError::AIProcessingError(concat2("Failed to connect to AI service: ", cause.as_str()))
        },
    }
}

/// A connection refusal is never reported with the timeout's message:
/// whatever the configured model, the remediation text differs from the
/// timeout text.
pub proof fn lemma_connect_distinct_from_timeout(model: Seq<char>)
    ensures
        connect_failure_text(model) != timeout_failure_text(),
{
    reveal_strlit(
        "Ollama service is not running. To install and start Ollama:\n1. Visit https://ollama.ai to download and install Ollama\n2. Start the Ollama service\n3. Run 'ollama pull ",
    );
    reveal_strlit(
        "Connection to Ollama service timed out. Please check if the service is responding.",
    );
    assert(connect_failure_text(model)[0] == 'O');
    assert(timeout_failure_text()[0] == 'C');
}

/// The structured shape found in the service's reply body.
#[derive(Debug)]
pub enum ReplyShape {
    /// The body was not structured data, or carried neither an error nor
    /// a response field.
    NoReply,
    /// The body carried an explicit error field with this text.
    ServiceError(String),
    /// The body carried the model's free text.
    Reply(String),
}

/// The `error` field of the service's reply body: `None` when the body
/// is not structured data or carries no such field, `Some(None)` when
/// the field holds no string, `Some(Some(e))` when it holds the text
/// `e`. The extraction is a pure function of the body text, so its
/// result is given this name rather than a page of JSON semantics.
pub uninterp spec fn body_error_of(s: Seq<char>) -> Option<Option<Seq<char>>>;

/// The `response` field of the service's reply body, read the same way
/// as `body_error_of`.
pub uninterp spec fn body_response_of(s: Seq<char>) -> Option<Option<Seq<char>>>;

/// The view of an extracted field: present or not, and its text when it
/// held a string.
pub open spec fn field_view(f: Option<Option<String>>) -> Option<Option<Seq<char>>> {
    match f {
        None => None,
        Some(None) => Some(None),
        Some(Some(s)) => Some(Some(s@)),
    }
}

/// Relies on serde_json::from_str, serde_json::Value::get and
/// serde_json::Value::as_str: parses the reply body and reads its
/// `error` and `response` fields as strings. Each field's result
/// depends on the body text alone; `body_error_of` and
/// `body_response_of` name the two results.
#[verifier::external_body]
fn extract_body_fields(body: &str) -> (r: (Option<Option<String>>, Option<Option<String>>))
    ensures
        field_view(r.0) == body_error_of(body@),
        field_view(r.1) == body_response_of(body@),
{
    let v = match serde_json::from_str::<serde_json::Value>(body) {
        Ok(v) => v,
        Err(_) => return (None, None),
    };
    let error = match v.get("error") {
        Some(e) => Some(e.as_str().map(str::to_owned)),
        None => None,
    };
    let response = match v.get("response") {
        Some(t) => Some(t.as_str().map(str::to_owned)),
        None => None,
    };
    (error, response)
}

/// The error text surfaced for an extracted error field: its string, or
/// the fixed fallback when the field held no string.
pub open spec fn surfaced_error_text(e: Option<Seq<char>>) -> Seq<char> {
    match e {
        Some(t) => t,
        None => "Unknown error"@,
    }
}

/// Reads the service's reply body into its structured shape: an error
/// field wins over a response field (a non-string error surfaces as the
/// fixed fallback text, a non-string response as empty free text); a
/// body that is not structured data, or carries neither field, is no
/// reply.
pub fn extract_reply(body: &str) -> (r: ReplyShape)
    ensures
        body_error_of(body@) matches Some(e) ==> ({
            &&& r matches ReplyShape::ServiceError(m)
            &&& m@ == surfaced_error_text(e)
        }),
        body_error_of(body@) is None ==> ({
            &&& body_response_of(body@) matches Some(t) ==> {
                &&& r matches ReplyShape::Reply(m)
                &&& m@ == (match t {
                    Some(x) => x,
                    None => Seq::<char>::empty(),
                })
            }
            &&& body_response_of(body@) is None ==> r is NoReply
        }),
{
    let (error, response) = extract_body_fields(body);
    match error {
        Some(Some(text)) => ReplyShape::ServiceError(text),
        Some(None) => ReplyShape::ServiceError(String::from_str("Unknown error")),
        None => match response {
            Some(Some(text)) => ReplyShape::Reply(text),
            Some(None) => ReplyShape::Reply(String::new()),
            None => ReplyShape::NoReply,
        },
    }
}

/// Decides what a structured reply shape means. A service-reported error
/// mentioning "model" becomes the model-specific remediation naming the
/// configured model; any other reported error is surfaced as a service
/// error; a reply or an absent reply hands its text (possibly empty) on
/// to the response parser, which applies the fallback policy.
pub fn interpret_reply(shape: ReplyShape, model: &str) -> (r: Result<String, DiracError>)
    ensures
        shape is NoReply ==> {
            &&& r matches Ok(t)
            &&& t@ == Seq::<char>::empty()
        },
        shape matches ReplyShape::Reply(text) ==> {
            &&& r matches Ok(t)
            &&& t@ == text@
        },
        shape matches ReplyShape::ServiceError(e) ==> {
            &&& r matches Err(err)
            &&& err matches DiracError::AIProcessingError(m)
            &&& contains_seq(e@, "model"@) ==> m@ == model_missing_text(model@)
            &&& !contains_seq(e@, "model"@) ==> m@ == service_error_text(e@)
        },
{
    match shape {
        ReplyShape::NoReply => Ok(String::new()),
        ReplyShape::Reply(text) => Ok(text),
        ReplyShape::ServiceError(e) => {
            if contains_str(e.as_str(), "model") {
                let mut m = concat3(
                    "Model '",
                    model,
                    "' not found. To install the model:\n1. Ensure Ollama is running\n2. Run 'ollama pull ",
                );
                m.append(model);
                m.append("' to download the model");
                Err(DiracError::AIProcessingError(m))
            } else {
                Err(DiracError::AIProcessingError(concat2("Ollama error: ", e.as_str())))
            }
        },
    }
}

/// Interprets a raw reply body: extraction through the trusted serde_json
/// declaration, then the verified decision on the extracted shape. A
/// body carrying an error field fails — with the model remediation when
/// the error mentions "model", else with the surfaced service error; any
/// other body succeeds and hands on its response text (empty when there
/// is none), for the response parser's fallback policy.
pub fn interpret_oracle_body(body: &str, model: &str) -> (r: Result<String, DiracError>)
    ensures
        body_error_of(body@) matches Some(e) ==> ({
            let etext = surfaced_error_text(e);
            &&& r matches Err(err)
            &&& err matches DiracError::AIProcessingError(m)
            &&& contains_seq(etext, "model"@) ==> m@ == model_missing_text(model@)
            &&& !contains_seq(etext, "model"@) ==> m@ == service_error_text(etext)
        }),
        body_error_of(body@) is None ==> ({
            &&& r matches Ok(t)
            &&& t@ == (match body_response_of(body@) {
                Some(Some(x)) => x,
                _ => Seq::<char>::empty(),
            })
        }),
{
    interpret_reply(extract_reply(body), model)
}

} // verus!
