//! Verified character-level string utilities: whitespace trimming, prefix
//! tests, substring search, and character search, each specified over the
//! `Seq<char>` view of `&str` and `String`.

use vstd::prelude::*;
use vstd::string::StrSliceExecFns;
use vstd::string::StringExecFns;

verus! {

/// The whitespace characters this library recognizes.
pub open spec fn is_space_char(c: char) -> bool {
    c == ' ' || c == '\t' || c == '\n' || c == '\r'
}

/// A string is blank when every character is whitespace (an empty string is blank).
pub open spec fn is_blank(s: Seq<char>) -> bool {
    forall|i: int| 0 <= i < s.len() ==> is_space_char(s[i])
}

/// The string with its leading whitespace removed.
pub open spec fn trim_start_spec(s: Seq<char>) -> Seq<char>
    decreases s.len(),
{
    if s.len() == 0 {
        s
    } else if is_space_char(s[0]) {
        trim_start_spec(s.subrange(1, s.len() as int))
    } else {
        s
    }
}

/// The string with its trailing whitespace removed.
pub open spec fn trim_end_spec(s: Seq<char>) -> Seq<char>
    decreases s.len(),
{
    if s.len() == 0 {
        s
    } else if is_space_char(s[s.len() - 1]) {
        trim_end_spec(s.subrange(0, s.len() - 1))
    } else {
        s
    }
}

/// The string with leading and trailing whitespace removed.
pub open spec fn trim_spec(s: Seq<char>) -> Seq<char> {
    trim_end_spec(trim_start_spec(s))
}

/// `p` occurs in `s` starting exactly at position `i`.
pub open spec fn occurs_at(s: Seq<char>, p: Seq<char>, i: int) -> bool {
    0 <= i && i + p.len() <= s.len() && s.subrange(i, i + p.len()) == p
}

/// `s` begins with `p`.
pub open spec fn starts_with_spec(s: Seq<char>, p: Seq<char>) -> bool {
    occurs_at(s, p, 0)
}

/// `p` occurs somewhere in `s`.
pub open spec fn contains_seq(s: Seq<char>, p: Seq<char>) -> bool {
    exists|i: int| occurs_at(s, p, i)
}

/// The position of the first occurrence of `c` in `s` at or after `i`,
/// or `s.len()` when there is none.
pub open spec fn find_from(s: Seq<char>, i: int, c: char) -> int
    decreases s.len() - i,
{
    if i < 0 || i >= s.len() {
        s.len() as int
    } else if s[i] == c {
        i
    } else {
        find_from(s, i + 1, c)
    }
}

/// `find_from` lands between `i` and the length, misses no earlier
/// occurrence, and points at `c` when it is inside the string.
pub proof fn lemma_find_from(s: Seq<char>, i: int, c: char)
    requires
        0 <= i <= s.len(),
    ensures
        i <= find_from(s, i, c) <= s.len(),
        forall|k: int| i <= k < find_from(s, i, c) ==> s[k] != c,
        find_from(s, i, c) < s.len() ==> s[find_from(s, i, c)] == c,
    decreases s.len() - i,
{
    if i < s.len() && s[i] != c {
        lemma_find_from(s, i + 1, c);
    }
}

/// `c` occurs in `s` exactly when `find_from` from the start lands inside it.
pub proof fn lemma_find_from_contains(s: Seq<char>, c: char)
    ensures
        (find_from(s, 0, c) < s.len()) == (exists|k: int| 0 <= k < s.len() && s[k] == c),
{
    lemma_find_from(s, 0, c);
    if find_from(s, 0, c) < s.len() {
        assert(s[find_from(s, 0, c)] == c);
    }
}

/// Skipping a run of leading spaces that ends at the first non-space
/// yields exactly the suffix from that point.
pub proof fn lemma_trim_start_skip(s: Seq<char>, i: int)
    requires
        0 <= i <= s.len(),
        forall|k: int| 0 <= k < i ==> is_space_char(s[k]),
        i == s.len() || !is_space_char(s[i]),
    ensures
        trim_start_spec(s) == s.subrange(i, s.len() as int),
    decreases i,
{
    if i == 0 {
        if s.len() == 0 {
            assert(s.subrange(0, 0) =~= s);
        } else {
            assert(s.subrange(0, s.len() as int) =~= s);
        }
    } else {
        let s1 = s.subrange(1, s.len() as int);
        assert(is_space_char(s[0]));
        assert(forall|k: int| 0 <= k < i - 1 ==> is_space_char(s1[k]));
        lemma_trim_start_skip(s1, i - 1);
        assert(s1.subrange(i - 1, s1.len() as int) =~= s.subrange(i, s.len() as int));
    }
}

/// Dropping a run of trailing spaces that begins after the last non-space
/// yields exactly the prefix up to that point.
pub proof fn lemma_trim_end_skip(s: Seq<char>, j: int)
    requires
        0 <= j <= s.len(),
        forall|k: int| j <= k < s.len() ==> is_space_char(s[k]),
        j == 0 || !is_space_char(s[j - 1]),
    ensures
        trim_end_spec(s) == s.subrange(0, j),
    decreases s.len() - j,
{
    if j == s.len() {
        if s.len() == 0 {
            assert(s.subrange(0, 0) =~= s);
        } else {
            assert(s.subrange(0, s.len() as int) =~= s);
        }
    } else {
        let s1 = s.subrange(0, s.len() - 1);
        assert(is_space_char(s[s.len() - 1]));
        lemma_trim_end_skip(s1, j);
        assert(s1.subrange(0, j) =~= s.subrange(0, j));
    }
}

/// A trimmed string, seen through the two skip lemmas: if all of `s`
/// before `i` and from `j` on is whitespace and the characters at `i` and
/// `j - 1` are not, the trim is the middle part.
pub proof fn lemma_trim_range(s: Seq<char>, i: int, j: int)
    requires
        0 <= i <= j <= s.len(),
        forall|k: int| 0 <= k < i ==> is_space_char(s[k]),
        forall|k: int| j <= k < s.len() ==> is_space_char(s[k]),
        i == s.len() || !is_space_char(s[i]),
        i == j || !is_space_char(s[j - 1]),
    ensures
        trim_spec(s) == s.subrange(i, j),
{
    lemma_trim_start_skip(s, i);
    let t = s.subrange(i, s.len() as int);
    assert(forall|k: int| j - i <= k < t.len() ==> is_space_char(t[k]));
    lemma_trim_end_skip(t, j - i);
    assert(t.subrange(0, j - i) =~= s.subrange(i, j));
}

/// A trimmed string is empty exactly when the original is blank.
pub proof fn lemma_trim_empty_iff_blank(s: Seq<char>)
    ensures
        (trim_spec(s).len() == 0) == is_blank(s),
    decreases s.len(),
{
    if s.len() == 0 {
    } else if is_space_char(s[0]) {
        let s1 = s.subrange(1, s.len() as int);
        lemma_trim_empty_iff_blank(s1);
        assert(trim_spec(s) == trim_end_spec(trim_start_spec(s1)));
        assert(is_blank(s1) ==> is_blank(s)) by {
            if is_blank(s1) {
                assert(forall|i: int| 1 <= i < s.len() ==> s[i] == s1[i - 1] && is_space_char(s1[i - 1]));
            }
        }
        assert(is_blank(s) ==> is_blank(s1));
    } else {
        assert(trim_start_spec(s) == s);
        let c = trim_end_keeps_last(s);
        assert(!is_space_char(c));
    }
}

/// Helper for `lemma_trim_empty_iff_blank`: trimming the end of a string
/// whose first character is not a space keeps that first character, so the
/// result is non-empty; returns that character.
proof fn trim_end_keeps_last(s: Seq<char>) -> (c: char)
    requires
        s.len() > 0,
        !is_space_char(s[0]),
    ensures
        trim_end_spec(s).len() > 0,
        c == trim_end_spec(s)[0],
        c == s[0],
        !is_space_char(c),
    decreases s.len(),
{
    if is_space_char(s[s.len() - 1]) {
        let s1 = s.subrange(0, s.len() - 1);
        assert(s.len() >= 2);
        assert(s1[0] == s[0]);
        trim_end_keeps_last(s1)
    } else {
        s[0]
    }
}

/// A non-empty trim-start result begins with a non-space character.
proof fn lemma_trim_start_first(s: Seq<char>)
    ensures
        trim_start_spec(s).len() > 0 ==> !is_space_char(trim_start_spec(s)[0]),
    decreases s.len(),
{
    if s.len() > 0 && is_space_char(s[0]) {
        lemma_trim_start_first(s.subrange(1, s.len() as int));
    }
}

/// A non-empty trim-end result ends with a non-space character.
proof fn lemma_trim_end_last(s: Seq<char>)
    ensures
        trim_end_spec(s).len() > 0 ==> !is_space_char(
            trim_end_spec(s)[trim_end_spec(s).len() - 1],
        ),
    decreases s.len(),
{
    if s.len() > 0 && is_space_char(s[s.len() - 1]) {
        lemma_trim_end_last(s.subrange(0, s.len() - 1));
    }
}

/// The trim-end result is a prefix of its input.
proof fn lemma_trim_end_prefix(s: Seq<char>)
    ensures
        trim_end_spec(s).len() <= s.len(),
        trim_end_spec(s) == s.subrange(0, trim_end_spec(s).len() as int),
    decreases s.len(),
{
    if s.len() > 0 && is_space_char(s[s.len() - 1]) {
        let s1 = s.subrange(0, s.len() - 1);
        lemma_trim_end_prefix(s1);
        assert(s1.subrange(0, trim_end_spec(s1).len() as int) =~= s.subrange(
            0,
            trim_end_spec(s1).len() as int,
        ));
    } else {
        assert(s.subrange(0, s.len() as int) =~= s);
    }
}

/// Trimming is idempotent: a trimmed string trims to itself.
pub proof fn lemma_trim_idempotent(s: Seq<char>)
    ensures
        trim_spec(trim_spec(s)) == trim_spec(s),
{
    let u = trim_start_spec(s);
    let t = trim_end_spec(u);
    if t.len() == 0 {
        assert(trim_spec(t) =~= t);
    } else {
        lemma_trim_start_first(s);
        lemma_trim_end_prefix(u);
        assert(u.len() > 0);
        assert(t[0] == u[0]);
        assert(!is_space_char(t[0]));
        lemma_trim_end_last(u);
        lemma_trim_range(t, 0, t.len() as int);
        assert(t.subrange(0, t.len() as int) =~= t);
    }
}

/// Exec test for the whitespace set.
pub fn is_space(c: char) -> (r: bool)
    ensures
        r == is_space_char(c),
{
    c == ' ' || c == '\t' || c == '\n' || c == '\r'
}

/// Exec whitespace-only test.
pub fn blank(s: &str) -> (r: bool)
    ensures
        r == is_blank(s@),
{
    let n = s.unicode_len();
    let mut i: usize = 0;
    while i < n
        invariant
            n == s@.len(),
            0 <= i <= n,
            forall|k: int| 0 <= k < i ==> is_space_char(s@[k]),
        decreases n - i,
    {
        if !is_space(s.get_char(i)) {
            return false;
        }
        i += 1;
    }
    true
}

/// Exec trim, specified by `trim_spec`.
pub fn trim(s: &str) -> (r: String)
    ensures
        r@ == trim_spec(s@),
{
    let n = s.unicode_len();
    let mut i: usize = 0;
    while i < n && is_space(s.get_char(i))
        invariant
            n == s@.len(),
            0 <= i <= n,
            forall|k: int| 0 <= k < i ==> is_space_char(s@[k]),
        decreases n - i,
    {
        i += 1;
    }
    let mut j: usize = n;
    while j > i && is_space(s.get_char(j - 1))
        invariant
            n == s@.len(),
            0 <= i <= j <= n,
            forall|k: int| j <= k < n ==> is_space_char(s@[k]),
        decreases j,
    {
        j -= 1;
    }
    proof {
        lemma_trim_range(s@, i as int, j as int);
    }
    let t = s.substring_char(i, j);
    String::from_str(t)
}

/// Exec prefix-occurrence test at a given position.
pub fn occurs_here(s: &str, p: &str, at: usize) -> (r: bool)
    ensures
        r == occurs_at(s@, p@, at as int),
{
    let n = s.unicode_len();
    let m = p.unicode_len();
    if at > n || m > n - at {
        assert(!occurs_at(s@, p@, at as int));
        return false;
    }
    let mut i: usize = 0;
    while i < m
        invariant
            n == s@.len(),
            m == p@.len(),
            at + m <= n,
            0 <= i <= m,
            forall|k: int| 0 <= k < i ==> s@[at + k] == p@[k],
        decreases m - i,
    {
        if s.get_char(at + i) != p.get_char(i) {
            proof {
                let ss = s@.subrange(at as int, at + m);
                assert(ss[i as int] != p@[i as int]);
            }
            return false;
        }
        i += 1;
    }
    proof {
        assert(s@.subrange(at as int, at + m) =~= p@);
    }
    true
}

/// Exec prefix test.
pub fn has_prefix(s: &str, p: &str) -> (r: bool)
    ensures
        r == starts_with_spec(s@, p@),
{
    occurs_here(s, p, 0)
}

/// Exec substring search.
pub fn contains_str(s: &str, p: &str) -> (r: bool)
    ensures
        r == contains_seq(s@, p@),
{
    let n = s.unicode_len();
    let m = p.unicode_len();
    if m > n {
        assert(forall|i: int| !occurs_at(s@, p@, i));
        return false;
    }
    if m == 0 {
        proof {
            assert(s@.subrange(0, 0) =~= p@);
            assert(occurs_at(s@, p@, 0));
        }
        return true;
    }
    let mut i: usize = 0;
    while i <= n - m
        invariant
            n == s@.len(),
            m == p@.len(),
            1 <= m <= n,
            0 <= i <= n - m + 1,
            forall|k: int| 0 <= k < i ==> !occurs_at(s@, p@, k),
        decreases n - i,
    {
        if occurs_here(s, p, i) {
            return true;
        }
        i += 1;
    }
    proof {
        assert(forall|k: int| k >= i ==> !occurs_at(s@, p@, k));
    }
    false
}

/// Exec search for a single character, specified by `find_from`.
pub fn find_char_from(s: &str, start: usize, c: char) -> (r: usize)
    requires
        start <= s@.len(),
    ensures
        r == find_from(s@, start as int, c),
        start <= r <= s@.len(),
    decreases s@.len() - start,
{
    let n = s.unicode_len();
    let mut i: usize = start;
    loop
        invariant
            n == s@.len(),
            start <= i <= n,
            find_from(s@, start as int, c) == find_from(s@, i as int, c),
        decreases n - i,
    {
        if i >= n {
            assert(find_from(s@, i as int, c) == n);
            return n;
        }
        if s.get_char(i) == c {
            assert(find_from(s@, i as int, c) == i);
            return i;
        }
        assert(find_from(s@, i as int, c) == find_from(s@, i + 1, c));
        i += 1;
    }
}

/// `c` occurs somewhere in `s`.
pub open spec fn contains_char(s: Seq<char>, c: char) -> bool {
    exists|k: int| 0 <= k < s.len() && s[k] == c
}

/// Exec test for `contains_char`.
pub fn has_char(s: &str, c: char) -> (r: bool)
    ensures
        r == contains_char(s@, c),
{
    proof {
        lemma_find_from_contains(s@, c);
    }
    let e = find_char_from(s, 0, c);
    e < s.unicode_len()
}

/// The position where the first whitespace-delimited token ends, looking
/// from `i`: the first whitespace position at or after `i`, or `s.len()`.
pub open spec fn head_end_from(s: Seq<char>, i: int) -> int
    decreases s.len() - i,
{
    if i < 0 || i >= s.len() {
        s.len() as int
    } else if is_space_char(s[i]) {
        i
    } else {
        head_end_from(s, i + 1)
    }
}

/// The first whitespace-delimited token of `s` (empty when `s` starts
/// with whitespace or is empty).
pub open spec fn head_of(s: Seq<char>) -> Seq<char> {
    s.subrange(0, head_end_from(s, 0))
}

/// What follows the first token and the single separator after it.
pub open spec fn tail_of(s: Seq<char>) -> Seq<char> {
    if head_end_from(s, 0) == s.len() {
        Seq::empty()
    } else {
        s.subrange(head_end_from(s, 0) + 1, s.len() as int)
    }
}

/// Splits off the first whitespace-delimited token; the remainder is what
/// follows the separating character.
pub fn split_head(s: &str) -> (r: (String, String))
    ensures
        r.0@ == head_of(s@),
        r.1@ == tail_of(s@),
{
    let n = s.unicode_len();
    let mut i: usize = 0;
    loop
        invariant
            n == s@.len(),
            0 <= i <= n,
            head_end_from(s@, 0) == head_end_from(s@, i as int),
        ensures
            0 <= i <= n,
            head_end_from(s@, 0) == i as int,
        decreases n - i,
    {
        if i >= n {
            assert(head_end_from(s@, i as int) == n as int);
            break;
        }
        if is_space(s.get_char(i)) {
            assert(head_end_from(s@, i as int) == i as int);
            break;
        }
        assert(head_end_from(s@, i as int) == head_end_from(s@, i + 1));
        i += 1;
    }
    let head = slice_chars(s, 0, i);
    let tail = if i < n {
        slice_chars(s, i + 1, n)
    } else {
        String::new()
    };
    (head, tail)
}

/// Exec concatenation of two strings.
pub fn concat2(a: &str, b: &str) -> (r: String)
    ensures
        r@ == a@ + b@,
{
    let mut r = String::from_str(a);
    r.append(b);
    r
}

/// Exec concatenation of three strings.
pub fn concat3(a: &str, b: &str, c: &str) -> (r: String)
    ensures
        r@ == a@ + b@ + c@,
{
    let mut r = String::from_str(a);
    r.append(b);
    r.append(c);
    r
}

/// Exec substring by character positions, returned as an owned string.
pub fn slice_chars(s: &str, from: usize, to: usize) -> (r: String)
    requires
        from <= to <= s@.len(),
    ensures
        r@ == s@.subrange(from as int, to as int),
{
    String::from_str(s.substring_char(from, to))
}

/// Exec equality of two string slices.
pub fn str_eq(a: &str, b: &str) -> (r: bool)
    ensures
        r == (a@ == b@),
{
    let x = String::from_str(a);
    let y = String::from_str(b);
    let r = x == y;
    proof {
        if a@ == b@ {
            assert(x@ == y@);
        }
    }
    r
}

} // verus!
