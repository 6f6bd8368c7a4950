//! The resolution session: classifying operator input as a direct
//! command, a navigational phrase, an exit request or a request that
//! needs AI resolution; the confirm/explain/decline protocol around a
//! suggested command; the follow-up diagnosis request seeded by a
//! failure; and the advisory handling of terminal signals.

use vstd::prelude::*;
use vstd::string::StrSliceExecFns;
use vstd::string::StringExecFns;
use crate::errors::DiracError;
use crate::executor::{DiagnosticContext, ExecFailure, ShellCommandExecutor};
use crate::text::{
    concat2, has_prefix, head_of, is_blank, is_space, is_space_char, lemma_trim_empty_iff_blank,
    slice_chars, starts_with_spec, str_eq, trim, trim_spec,
};

verus! {

/// What one line of operator input asks the session to do.
#[derive(Debug)]
pub enum Classified {
    /// Nothing to do: the line was blank.
    Empty,
    /// The operator asked to leave.
    Exit,
    /// A command to execute without AI resolution.
    Direct(String),
    /// A natural-language request to hand to the oracle.
    NeedsResolution(String),
}

/// The navigational target when the input is phrased as navigation
/// ("go to X", "open X", "change to X"), `None` otherwise.
pub open spec fn nav_target_spec(t: Seq<char>) -> Option<Seq<char>> {
    if starts_with_spec(t, "go to "@) {
        Some(trim_spec(t.subrange(6, t.len() as int)))
    } else if starts_with_spec(t, "open "@) {
        Some(trim_spec(t.subrange(5, t.len() as int)))
    } else if starts_with_spec(t, "change to "@) {
        Some(trim_spec(t.subrange(10, t.len() as int)))
    } else {
        None
    }
}

/// The deterministic part of classification, with the validator's answer
/// on the head token handed in. In order: a blank line is empty; `exit`
/// or `quit` ends the session; navigational phrasing is rewritten to a
/// `cd` command and treated as direct; otherwise the validator's answer
/// decides between direct execution and AI resolution (`cd` always
/// counting as valid).
pub fn classify_with(input: &str, head_valid: bool) -> (r: Classified)
    ensures
        is_blank(input@) ==> r is Empty,
        !is_blank(input@) ==> ({
            let t = trim_spec(input@);
            &&& (t == "exit"@ || t == "quit"@) ==> r is Exit
            &&& (t != "exit"@ && t != "quit"@) ==> {
                &&& nav_target_spec(t) matches Some(target) ==> {
                    &&& r matches Classified::Direct(c)
                    &&& c@ == "cd "@ + target
                }
                &&& nav_target_spec(t) is None && head_valid ==> {
                    &&& r matches Classified::Direct(c)
                    &&& c@ == t
                }
                &&& nav_target_spec(t) is None && !head_valid ==> {
                    &&& r matches Classified::NeedsResolution(q)
                    &&& q@ == t
                }
            }
        }),
{
    let t = trim(input);
    proof {
        lemma_trim_empty_iff_blank(input@);
    }
    if t.as_str().unicode_len() == 0 {
        return Classified::Empty;
    }
    if str_eq(t.as_str(), "exit") || str_eq(t.as_str(), "quit") {
        return Classified::Exit;
    }
    let n = t.as_str().unicode_len();
    if has_prefix(t.as_str(), "go to ") {
        proof {
            reveal_strlit("go to ");
        }
        let rest = slice_chars(t.as_str(), 6, n);
        let target = trim(rest.as_str());
        return Classified::Direct(concat2("cd ", target.as_str()));
    }
    if has_prefix(t.as_str(), "open ") {
        proof {
            reveal_strlit("open ");
        }
        let rest = slice_chars(t.as_str(), 5, n);
        let target = trim(rest.as_str());
        return Classified::Direct(concat2("cd ", target.as_str()));
    }
    if has_prefix(t.as_str(), "change to ") {
        proof {
            reveal_strlit("change to ");
        }
        let rest = slice_chars(t.as_str(), 10, n);
        let target = trim(rest.as_str());
        return Classified::Direct(concat2("cd ", target.as_str()));
    }
    if head_valid {
        Classified::Direct(t)
    } else {
        Classified::NeedsResolution(t)
    }
}

/// Classifies one line of operator input, asking the executor's validator
/// about the head token. The blank, exit, navigation and `cd` cases are
/// pinned; for any other head the validator's system-dependent answer
/// decides between the two remaining outcomes.
pub fn classify(executor: &ShellCommandExecutor, input: &str) -> (r: Classified)
    ensures
        is_blank(input@) ==> r is Empty,
        !is_blank(input@) ==> ({
            let t = trim_spec(input@);
            &&& (t == "exit"@ || t == "quit"@) ==> r is Exit
            &&& (t != "exit"@ && t != "quit"@) ==> {
                &&& nav_target_spec(t) matches Some(target) ==> {
                    &&& r matches Classified::Direct(c)
                    &&& c@ == "cd "@ + target
                }
                &&& nav_target_spec(t) is None && head_of(t) == "cd"@ ==> {
                    &&& r matches Classified::Direct(c)
                    &&& c@ == t
                }
                &&& nav_target_spec(t) is None ==> {
                    ||| (r matches Classified::Direct(c2) && c2@ == t)
                    ||| (r matches Classified::NeedsResolution(q) && q@ == t)
                }
            }
        }),
{
    let head_valid = executor.is_valid_command(input);
    classify_with(input, head_valid)
}

/// The operator's answer to a suggested command.
#[derive(Debug, PartialEq, Eq, Structural)]
pub enum ConfirmAction {
    /// Execute the suggestion.
    Execute,
    /// Show the explanation, then ask again.
    Explain,
    /// Anything else declines; nothing is executed.
    Decline,
}

/// What an answer means: `y` executes, `e` asks for the explanation,
/// anything else declines.
pub open spec fn confirm_spec(t: Seq<char>) -> ConfirmAction {
    if t == "y"@ || t == "Y"@ {
        ConfirmAction::Execute
    } else if t == "e"@ || t == "E"@ {
        ConfirmAction::Explain
    } else {
        ConfirmAction::Decline
    }
}

/// Decides the first confirmation answer, per `confirm_spec`.
pub fn confirm_action(answer: &str) -> (r: ConfirmAction)
    ensures
        r == confirm_spec(trim_spec(answer@)),
{
    let t = trim(answer);
    if str_eq(t.as_str(), "y") || str_eq(t.as_str(), "Y") {
        ConfirmAction::Execute
    } else if str_eq(t.as_str(), "e") || str_eq(t.as_str(), "E") {
        ConfirmAction::Explain
    } else {
        ConfirmAction::Decline
    }
}

/// Decides the second confirmation answer, shown after the explanation:
/// only `y` executes.
pub fn second_confirmation(answer: &str) -> (r: bool)
    ensures
        r == (trim_spec(answer@) == "y"@ || trim_spec(answer@) == "Y"@),
{
    let t = trim(answer);
    str_eq(t.as_str(), "y") || str_eq(t.as_str(), "Y")
}

/// The request seeded by a failure, handed to the oracle for a
/// human-readable diagnosis.
pub open spec fn diagnosis_request_spec(ctx: DiagnosticContext) -> Seq<char> {
    "Command failed: "@ + ctx.command@ + "\nError: "@ + ctx.error_text@
        + "\nCurrent directory: "@ + ctx.directory@
}

/// The fixed auxiliary context accompanying a diagnosis request.
pub open spec fn diagnosis_context_text() -> Seq<char> {
    "Please analyze this error and suggest a fix or alternative command. Consider the current directory context."@
}

/// Builds the (request, auxiliary context) pair for a follow-up oracle
/// diagnosis of a failed command: the failing command, the error text
/// and the current directory, per `diagnosis_request_spec`.
pub fn diagnosis_request(ctx: &DiagnosticContext) -> (r: (String, String))
    ensures
        r.0@ == diagnosis_request_spec(*ctx),
        r.1@ == diagnosis_context_text(),
{
    let mut req = String::from_str("Command failed: ");
    req.append(ctx.command.as_str());
    req.append("\nError: ");
    req.append(ctx.error_text.as_str());
    req.append("\nCurrent directory: ");
    req.append(ctx.directory.as_str());
    let aux = String::from_str(
        "Please analyze this error and suggest a fix or alternative command. Consider the current directory context.",
    );
    (req, aux)
}

/// The suggestion attached under a failure message when a follow-up
/// diagnosis (or a local suggestion) is available.
pub open spec fn with_suggestion_spec(message: Seq<char>, suggestion: Seq<char>) -> Seq<char> {
    message + "\n\nℹ️ Suggestion:\n"@ + suggestion
}

/// Attaches a suggestion to a failure message.
pub fn with_suggestion(message: &str, suggestion: &str) -> (r: String)
    ensures
        r@ == with_suggestion_spec(message@, suggestion@),
{
    let mut r = String::from_str(message);
    r.append("\n\nℹ️ Suggestion:\n");
    r.append(suggestion);
    r
}

/// Wraps a failed run and the diagnosis obtained for it as the
/// operator-facing error: the failure's message with the suggestion
/// attached underneath.
pub fn failure_with_diagnosis(failure: &ExecFailure, diagnosis: &str) -> (r: DiracError)
    ensures
        r matches DiracError::CommandExecutionError(m),
        r.spec_inner() == with_suggestion_spec(failure.message@, diagnosis@),
{
    DiracError::CommandExecutionError(with_suggestion(failure.message.as_str(), diagnosis))
}

/// An asynchronous terminal notification delivered to the session loop.
#[derive(Debug, PartialEq, Eq, Structural)]
pub enum SessionSignal {
    /// The interrupt key; advisory only, the session keeps running.
    Interrupt,
    /// The suspend key; advisory only, the session keeps running.
    Suspend,
    /// The terminal came back to the foreground.
    Resume,
}

/// What the session does on a signal: the guidance line it prints, and
/// whether the screen is cleared and the banner reissued.
#[derive(Debug)]
pub struct SignalAdvice {
    pub message: String,
    pub redraw: bool,
}

/// Decides the advisory response to a terminal signal: interrupt and
/// suspend print guidance and return to waiting; resume redraws.
pub fn signal_advice(signal: SessionSignal) -> (r: SignalAdvice)
    ensures
        signal is Interrupt ==> r.message@
            == "\nCTRL-C pressed. Use 'exit' or 'quit' to exit properly."@ && !r.redraw,
        signal is Suspend ==> r.message@ == "\nCTRL-Z pressed. Terminal will continue running."@
            && !r.redraw,
        signal is Resume ==> r.message@ == "\nTerminal resumed."@ && r.redraw,
{
    match signal {
        SessionSignal::Interrupt => SignalAdvice {
            message: String::from_str("\nCTRL-C pressed. Use 'exit' or 'quit' to exit properly."),
            redraw: false,
        },
        SessionSignal::Suspend => SignalAdvice {
            message: String::from_str("\nCTRL-Z pressed. Terminal will continue running."),
            redraw: false,
        },
        SessionSignal::Resume => SignalAdvice {
            message: String::from_str("\nTerminal resumed."),
            redraw: true,
        },
    }
}

/// The non-empty components of a path, accumulating the current one from
/// position `i` on.
pub open spec fn components_from(s: Seq<char>, i: int, cur: Seq<char>) -> Seq<Seq<char>>
    decreases s.len() - i,
{
    if i < 0 || i >= s.len() {
        if cur.len() == 0 {
            Seq::empty()
        } else {
            seq![cur]
        }
    } else if s[i] == '/' {
        (if cur.len() == 0 {
            Seq::<Seq<char>>::empty()
        } else {
            seq![cur]
        }) + components_from(s, i + 1, Seq::empty())
    } else {
        components_from(s, i + 1, cur.push(s[i]))
    }
}

/// The non-empty `/`-separated components of a path.
pub open spec fn path_components(s: Seq<char>) -> Seq<Seq<char>> {
    components_from(s, 0, Seq::empty())
}

/// The abbreviated directory shown in the input prompt: the last two
/// path components, or the single one, or the root.
pub open spec fn dir_display_spec(s: Seq<char>) -> Seq<char> {
    let cs = path_components(s);
    if cs.len() >= 2 {
        cs[cs.len() - 2] + "/"@ + cs[cs.len() - 1]
    } else if cs.len() == 1 {
        cs[0]
    } else {
        "/"@
    }
}

/// The operator-facing input prompt for a working directory.
pub open spec fn input_prompt_spec(s: Seq<char>) -> Seq<char> {
    "dirac["@ + dir_display_spec(s) + "]> "@
}

/// Splits a path into its non-empty components, per `path_components`.
pub fn split_path_components(s: &str) -> (r: Vec<String>)
    ensures
        r.deep_view() == path_components(s@),
{
    let n = s.unicode_len();
    let mut comps: Vec<String> = Vec::new();
    proof {
        assert(comps.deep_view() =~= Seq::<Seq<char>>::empty());
        assert(s@.subrange(0, 0) =~= Seq::<char>::empty());
        assert(Seq::<Seq<char>>::empty() + components_from(s@, 0, Seq::empty())
            =~= components_from(s@, 0, Seq::empty()));
    }
    let mut start: usize = 0;
    let mut i: usize = 0;
    while i < n
        invariant
            n == s@.len(),
            0 <= start <= i <= n,
            path_components(s@) == comps.deep_view() + components_from(
                s@,
                i as int,
                s@.subrange(start as int, i as int),
            ),
        decreases n - i,
    {
        let ghost pre = comps.deep_view();
        let ghost cur = s@.subrange(start as int, i as int);
        if s.get_char(i) == '/' {
            if i > start {
                let piece = slice_chars(s, start, i);
                comps.push(piece);
                proof {
                    assert(comps.deep_view() =~= pre.push(cur));
                    assert(pre.push(cur) =~= pre + seq![cur]);
                    assert(components_from(s@, i as int, cur) == seq![cur] + components_from(
                        s@,
                        i + 1,
                        Seq::empty(),
                    ));
                    assert(pre + (seq![cur] + components_from(s@, i + 1, Seq::empty())) =~= (pre
                        + seq![cur]) + components_from(s@, i + 1, Seq::empty()));
                }
            } else {
                proof {
                    assert(cur.len() == 0);
                    assert(components_from(s@, i as int, cur) == Seq::<Seq<char>>::empty()
                        + components_from(s@, i + 1, Seq::empty()));
                    assert(Seq::<Seq<char>>::empty() + components_from(s@, i + 1, Seq::empty())
                        =~= components_from(s@, i + 1, Seq::empty()));
                }
            }
            start = i + 1;
            proof {
                assert(s@.subrange(start as int, i + 1) =~= Seq::<char>::empty());
            }
        } else {
            proof {
                assert(components_from(s@, i as int, cur) == components_from(
                    s@,
                    i + 1,
                    cur.push(s@[i as int]),
                ));
                assert(s@.subrange(start as int, i + 1) =~= cur.push(s@[i as int]));
            }
        }
        i += 1;
    }
    let ghost pre = comps.deep_view();
    let ghost cur = s@.subrange(start as int, n as int);
    if start < n {
        let piece = slice_chars(s, start, n);
        comps.push(piece);
        proof {
            assert(comps.deep_view() =~= pre.push(cur));
            assert(components_from(s@, n as int, cur) == seq![cur]);
            assert(pre + seq![cur] =~= pre.push(cur));
        }
    } else {
        proof {
            assert(cur.len() == 0);
            assert(components_from(s@, n as int, cur) == Seq::<Seq<char>>::empty());
            assert(pre + Seq::<Seq<char>>::empty() =~= pre);
        }
    }
    comps
}

/// Renders the operator-facing prompt for the given working directory,
/// per `input_prompt_spec`.
pub fn input_prompt(dir: &str) -> (r: String)
    ensures
        r@ == input_prompt_spec(dir@),
{
    let comps = split_path_components(dir);
    let mut r = String::from_str("dirac[");
    let k = comps.len();
    if k >= 2 {
        proof {
            assert(comps.deep_view()[k - 2] == comps@[k - 2]@);
            assert(comps.deep_view()[k - 1] == comps@[k - 1]@);
        }
        r.append(comps[k - 2].as_str());
        r.append("/");
        r.append(comps[k - 1].as_str());
    } else if k == 1 {
        proof {
            assert(comps.deep_view()[0] == comps@[0]@);
        }
        r.append(comps[0].as_str());
    } else {
        r.append("/");
    }
    r.append("]> ");
    r
}

/// Where the word under completion begins, looking left from `i`: the
/// position just after the nearest whitespace, or the very start.
pub open spec fn word_start_from(s: Seq<char>, i: int) -> int
    decreases i,
{
    if i <= 0 {
        0
    } else if is_space_char(s[i - 1]) {
        i
    } else {
        word_start_from(s, i - 1)
    }
}

/// The word under completion: the suffix of the line before the cursor
/// that follows its last whitespace character.
pub fn completion_word(prefix: &str) -> (r: String)
    ensures
        r@ == prefix@.subrange(word_start_from(prefix@, prefix@.len() as int), prefix@.len() as int),
{
    let n = prefix.unicode_len();
    let mut j: usize = n;
    loop
        invariant
            n == prefix@.len(),
            0 <= j <= n,
            word_start_from(prefix@, n as int) == word_start_from(prefix@, j as int),
        ensures
            0 <= j <= n,
            word_start_from(prefix@, n as int) == j as int,
        decreases j,
    {
        if j == 0 {
            assert(word_start_from(prefix@, 0) == 0);
            break;
        }
        if is_space(prefix.get_char(j - 1)) {
            assert(word_start_from(prefix@, j as int) == j as int);
            break;
        }
        assert(word_start_from(prefix@, j as int) == word_start_from(prefix@, j - 1));
        j -= 1;
    }
    slice_chars(prefix, j, n)
}

/// The history entries that begin with the word under completion, with
/// adjacent duplicates collapsed.
pub open spec fn candidates_spec(es: Seq<Seq<char>>, word: Seq<char>) -> Seq<Seq<char>> {
    dedup_adjacent_spec(es.filter(|t: Seq<char>| starts_with_spec(t, word)))
}

/// Collapses runs of equal adjacent entries to one.
pub open spec fn dedup_adjacent_spec(es: Seq<Seq<char>>) -> Seq<Seq<char>>
    decreases es.len(),
{
    if es.len() <= 1 {
        es
    } else if es[0] == es[1] {
        dedup_adjacent_spec(es.drop_first())
    } else {
        seq![es[0]] + dedup_adjacent_spec(es.drop_first())
    }
}

/// Completion candidates drawn from the command history: the entries
/// beginning with the word, adjacent duplicates collapsed.
pub fn history_candidates(history: &Vec<String>, word: &str) -> (r: Vec<String>)
    ensures
        r.deep_view() == candidates_spec(history.deep_view(), word@),
{
    let mut matches: Vec<String> = Vec::new();
    let mut i: usize = 0;
    while i < history.len()
        invariant
            0 <= i <= history.len(),
            matches.deep_view() == history.deep_view().take(i as int).filter(
                |t: Seq<char>| starts_with_spec(t, word@),
            ),
        decreases history.len() - i,
    {
        let ghost pre = matches.deep_view();
        let ghost hv = history.deep_view();
        let keep = has_prefix(history[i].as_str(), word);
        if keep {
            matches.push(history[i].clone());
        }
        proof {
            assert(hv.take(i as int).push(hv[i as int]) =~= hv.take(i + 1));
            reveal(Seq::filter);
            assert(hv.take(i + 1).drop_last() =~= hv.take(i as int));
            assert(hv.take(i + 1).last() == hv[i as int]);
            assert(hv.take(i + 1).filter(|t: Seq<char>| starts_with_spec(t, word@)) == (
            if starts_with_spec(hv[i as int], word@) {
                hv.take(i as int).filter(|t: Seq<char>| starts_with_spec(t, word@)).push(
                    hv[i as int],
                )
            } else {
                hv.take(i as int).filter(|t: Seq<char>| starts_with_spec(t, word@))
            }));
            assert(hv[i as int] == history@[i as int]@);
            if keep {
                assert(matches.deep_view() =~= pre.push(hv[i as int]));
            }
        }
        i += 1;
    }
    proof {
        assert(history.deep_view().take(history@.len() as int) =~= history.deep_view());
    }
    dedup_adjacent(matches)
}

/// Collapses adjacent duplicate candidates, per `dedup_adjacent_spec`.
fn dedup_adjacent(es: Vec<String>) -> (r: Vec<String>)
    ensures
        r.deep_view() == dedup_adjacent_spec(es.deep_view()),
{
    let mut r: Vec<String> = Vec::new();
    let n = es.len();
    proof {
        assert(r.deep_view() =~= Seq::<Seq<char>>::empty());
        assert(es.deep_view().subrange(0, n as int) =~= es.deep_view());
        assert(Seq::<Seq<char>>::empty() + dedup_adjacent_spec(es.deep_view())
            =~= dedup_adjacent_spec(es.deep_view()));
    }
    let mut i: usize = 0;
    while i < n
        invariant
            n == es.len(),
            0 <= i <= n,
            dedup_adjacent_spec(es.deep_view()) == r.deep_view() + dedup_adjacent_spec(
                es.deep_view().subrange(i as int, n as int),
            ),
        decreases n - i,
    {
        let ghost pre = r.deep_view();
        let ghost ev = es.deep_view();
        let ghost rest = ev.subrange(i as int, n as int);
        let is_dup = i + 1 < n && str_eq(es[i].as_str(), es[i + 1].as_str());
        if !is_dup {
            r.push(es[i].clone());
        }
        proof {
            assert(rest[0] == ev[i as int]);
            if i + 1 < n {
                assert(rest[1] == ev[i + 1]);
            }
            assert(rest.drop_first() =~= ev.subrange(i + 1, n as int));
            if is_dup {
                assert(dedup_adjacent_spec(rest) == dedup_adjacent_spec(rest.drop_first()));
            } else {
                if rest.len() == 1 {
                    assert(dedup_adjacent_spec(rest) =~= seq![rest[0]]);
                    assert(rest.drop_first().len() == 0);
                    assert(dedup_adjacent_spec(rest) =~= seq![rest[0]] + dedup_adjacent_spec(
                        rest.drop_first(),
                    ));
                } else {
                    assert(dedup_adjacent_spec(rest) == seq![rest[0]] + dedup_adjacent_spec(
                        rest.drop_first(),
                    ));
                }
                assert(r.deep_view() =~= pre.push(ev[i as int]));
                assert(pre + (seq![ev[i as int]] + dedup_adjacent_spec(rest.drop_first())) =~= (pre
                    + seq![ev[i as int]]) + dedup_adjacent_spec(rest.drop_first()));
                assert(pre.push(ev[i as int]) =~= pre + seq![ev[i as int]]);
            }
        }
        i += 1;
    }
    proof {
        assert(es.deep_view().subrange(es@.len() as int, es@.len() as int).len() == 0);
        assert(r.deep_view() + Seq::<Seq<char>>::empty() =~= r.deep_view());
    }
    r
}

} // verus!
