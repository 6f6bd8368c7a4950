//! The strict response contract on the resolution service's free text:
//! the first line beginning with `COMMAND:` names the command, the first
//! line beginning with `EXPLANATION:` the explanation, each trimmed, with
//! a fixed fallback policy for missing or empty fields. The parse itself
//! never fails and never yields an empty field.

use vstd::prelude::*;
use vstd::string::StrSliceExecFns;
use vstd::string::StringExecFns;
use crate::text::{
    find_from, is_blank, lemma_find_from, lemma_trim_empty_iff_blank, occurs_at, occurs_here,
    trim_spec,
};
use crate::text::{find_char_from, slice_chars, trim};

verus! {

/// Position `i` begins a line of `s`: the very start, or just after a
/// line break.
pub open spec fn line_start(s: Seq<char>, i: int) -> bool {
    i == 0 || (0 < i && i <= s.len() && s[i - 1] == '\n')
}

/// The first position at or after `i` that begins a line carrying the
/// marker `p`, or `s.len()` when no line does.
pub open spec fn find_marked_line(s: Seq<char>, p: Seq<char>, i: int) -> int
    decreases s.len() - i,
{
    if i < 0 || i >= s.len() {
        s.len() as int
    } else if line_start(s, i) && occurs_at(s, p, i) {
        i
    } else {
        find_marked_line(s, p, i + 1)
    }
}

/// `find_marked_line` lands between `i` and the length, skips no earlier
/// marked line, and lands on one when it is inside the string.
pub proof fn lemma_find_marked_line(s: Seq<char>, p: Seq<char>, i: int)
    requires
        0 <= i <= s.len(),
    ensures
        i <= find_marked_line(s, p, i) <= s.len(),
        find_marked_line(s, p, i) < s.len() ==> line_start(s, find_marked_line(s, p, i))
            && occurs_at(s, p, find_marked_line(s, p, i)),
        forall|k: int|
            i <= k < find_marked_line(s, p, i) ==> !(line_start(s, k) && occurs_at(s, p, k)),
    decreases s.len() - i,
{
    if i < s.len() && !(line_start(s, i) && occurs_at(s, p, i)) {
        lemma_find_marked_line(s, p, i + 1);
    }
}

/// The trimmed text that follows marker `p` on the first line that begins
/// with it, up to the end of that line; empty when no line carries `p`.
pub open spec fn field_of(s: Seq<char>, p: Seq<char>) -> Seq<char> {
    let j = find_marked_line(s, p, 0);
    if j == s.len() {
        Seq::empty()
    } else {
        trim_spec(s.subrange(j + p.len(), find_from(s, j + p.len(), '\n')))
    }
}

/// The command named by the raw response, before the fallback policy.
pub open spec fn parsed_command(s: Seq<char>) -> Seq<char> {
    field_of(s, "COMMAND:"@)
}

/// The explanation named by the raw response, before the fallback policy.
pub open spec fn parsed_explanation(s: Seq<char>) -> Seq<char> {
    field_of(s, "EXPLANATION:"@)
}

/// The explanation used when the response names no usable command.
pub open spec fn safe_default_text() -> Seq<char> {
    "Lists files and directories in the current directory. This is a safe default command when the request is unclear."@
}

/// The explanation used when the response names a command but no
/// explanation.
pub open spec fn generic_explanation_text() -> Seq<char> {
    "Executes the specified command."@
}

/// The command a raw response resolves to: the parsed command, or `ls`
/// when the response names none (including a blank response).
pub open spec fn response_command_spec(s: Seq<char>) -> Seq<char> {
    if parsed_command(s).len() == 0 {
        "ls"@
    } else {
        parsed_command(s)
    }
}

/// The explanation a raw response resolves to: the parsed explanation
/// when present, else the safe default (no command parsed) or the generic
/// text (a command was parsed).
pub open spec fn response_explanation_spec(s: Seq<char>) -> Seq<char> {
    if parsed_explanation(s).len() != 0 {
        parsed_explanation(s)
    } else if parsed_command(s).len() == 0 {
        safe_default_text()
    } else {
        generic_explanation_text()
    }
}

/// A parsed `(command, explanation)` pair. Produced once per oracle call
/// and never mutated after the parse; both fields are always non-empty.
#[derive(Debug)]
pub struct ResolutionResponse {
    pub command: String,
    pub explanation: String,
}

/// Extracts the trimmed text after marker `p` on the first line beginning
/// with `p`, per `field_of`.
pub fn extract_field(s: &str, p: &str) -> (r: String)
    ensures
        r@ == field_of(s@, p@),
{
    let n = s.unicode_len();
    let mut j: usize = 0;
    loop
        invariant
            n == s@.len(),
            0 <= j <= n,
            find_marked_line(s@, p@, 0) == find_marked_line(s@, p@, j as int),
        decreases n - j,
    {
        if j >= n {
            assert(find_marked_line(s@, p@, j as int) == n as int);
            return String::new();
        }
        let at_line_start = j == 0 || s.get_char(j - 1) == '\n';
        proof {
            assert(at_line_start == line_start(s@, j as int));
        }
        if at_line_start && occurs_here(s, p, j) {
            assert(find_marked_line(s@, p@, j as int) == j as int);
            let start = j + p.unicode_len();
            let e = find_char_from(s, start, '\n');
            let rest = slice_chars(s, start, e);
            return trim(rest.as_str());
        }
        assert(find_marked_line(s@, p@, j as int) == find_marked_line(s@, p@, j + 1));
        j += 1;
    }
}

/// Parses raw oracle text into a runnable command and a non-empty
/// explanation, applying the documented fallback policy; the parse never
/// fails, and the downstream confirmation step is never shown an empty
/// command.
pub fn parse_response(raw: &str) -> (r: ResolutionResponse)
    ensures
        r.command@ == response_command_spec(raw@),
        r.explanation@ == response_explanation_spec(raw@),
        r.command@.len() > 0,
        r.explanation@.len() > 0,
{
    proof {
        reveal_strlit("ls");
        reveal_strlit("Lists files and directories in the current directory. This is a safe default command when the request is unclear.");
        reveal_strlit("Executes the specified command.");
    }
    let cmd = extract_field(raw, "COMMAND:");
    let expl = extract_field(raw, "EXPLANATION:");
    let has_cmd = cmd.as_str().unicode_len() > 0;
    let has_expl = expl.as_str().unicode_len() > 0;
    let command = if has_cmd {
        cmd
    } else {
        String::from_str("ls")
    };
    let explanation = if has_expl {
        expl
    } else if has_cmd {
        String::from_str("Executes the specified command.")
    } else {
        String::from_str(
            "Lists files and directories in the current directory. This is a safe default command when the request is unclear.",
        )
    };
    ResolutionResponse { command, explanation }
}

/// Every resolution attempt yields a non-empty, directly runnable
/// command and a non-empty explanation, whatever the raw text held: the
/// downstream confirmation step is never shown an empty command.
pub proof fn lemma_response_fields_never_empty(s: Seq<char>)
    ensures
        response_command_spec(s).len() > 0,
        response_explanation_spec(s).len() > 0,
{
    reveal_strlit("ls");
    reveal_strlit("Lists files and directories in the current directory. This is a safe default command when the request is unclear.");
    reveal_strlit("Executes the specified command.");
}

/// A blank response body parses to the safe default pair: no line of a
/// blank body carries a marker, so the fallback policy yields `ls` and
/// the safe default text.
pub proof fn lemma_blank_response_defaults(s: Seq<char>)
    requires
        is_blank(s),
    ensures
        response_command_spec(s) == "ls"@,
        response_explanation_spec(s) == safe_default_text(),
{
    lemma_blank_field_empty(s, "COMMAND:"@);
    lemma_blank_field_empty(s, "EXPLANATION:"@);
}

/// Helper: every field extracted from a blank body is empty, because the
/// rest of any of its lines is itself blank and trims to nothing.
proof fn lemma_blank_field_empty(s: Seq<char>, p: Seq<char>)
    requires
        is_blank(s),
    ensures
        field_of(s, p).len() == 0,
{
    let j = find_marked_line(s, p, 0);
    lemma_find_marked_line(s, p, 0);
    if j < s.len() {
        let rest = s.subrange(j + p.len(), find_from(s, j + p.len(), '\n'));
        lemma_find_from(s, j + p.len(), '\n');
        assert(forall|k: int| 0 <= k < rest.len() ==> crate::text::is_space_char(rest[k]));
        lemma_trim_empty_iff_blank(rest);
    }
}

} // verus!
