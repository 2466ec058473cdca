//! Verified text utilities over character sequences.
//!
//! Detection logic is almost entirely string processing: tokenizing command
//! lines, trimming descriptor lines, splitting delimited lists, searching for
//! path markers. The functions here work on `&str` and `String` values and
//! each carries an exact contract over the character-sequence view.

use vstd::prelude::*;
use vstd::string::StrSliceExecFns;
use vstd::string::StringExecFns;

verus! {

/// ASCII whitespace: the characters treated as token separators and trimmed
/// from line ends throughout the crate.
pub open spec fn is_space(c: char) -> bool {
    c == ' ' || c == '\t' || c == '\n' || c == '\r' || c == '\u{0b}' || c == '\u{0c}'
}

/// Returns whether `c` counts as whitespace.
pub fn is_space_char(c: char) -> (r: bool)
    ensures
        r == is_space(c),
{
    c == ' ' || c == '\t' || c == '\n' || c == '\r' || c == '\u{0b}' || c == '\u{0c}'
}

/// Returns whether the views of `a` and `b` are the same character sequence.
pub fn str_eq(a: &str, b: &str) -> (r: bool)
    ensures
        r == (a@ == b@),
{
    let sa = String::from_str(a);
    let sb = String::from_str(b);
    sa == sb
}

/// The first position at or after `i` holding `c`, or the length of `s` if
/// no position at or after `i` holds `c`.
pub open spec fn find_from(s: Seq<char>, c: char, i: int) -> int
    decreases s.len() - i,
{
    if !(0 <= i < s.len()) {
        s.len() as int
    } else if s[i] == c {
        i
    } else {
        find_from(s, c, i + 1)
    }
}

pub proof fn lemma_find_from(s: Seq<char>, c: char, i: int)
    requires
        0 <= i <= s.len(),
    ensures
        i <= find_from(s, c, i) <= s.len(),
        forall|j: int| i <= j < find_from(s, c, i) ==> s[j] != c,
        find_from(s, c, i) < s.len() ==> s[find_from(s, c, i)] == c,
    decreases s.len() - i,
{
    if i < s.len() && s[i] != c {
        lemma_find_from(s, c, i + 1);
    }
}

/// Returns `find_from(s@, c, i)` as an index into `s`.
pub fn find_char(s: &str, c: char, i: usize) -> (r: usize)
    requires
        i <= s@.len(),
    ensures
        r == find_from(s@, c, i as int),
        i <= r <= s@.len(),
    decreases s@.len() - i,
{
    proof {
        lemma_find_from(s@, c, i as int);
    }
    if i == s.unicode_len() {
        i
    } else if s.get_char(i) == c {
        i
    } else {
        find_char(s, c, i + 1)
    }
}

/// Returns whether some position of `s` holds `c`.
pub fn contains_char(s: &str, c: char) -> (r: bool)
    ensures
        r == s@.contains(c),
{
    proof {
        lemma_find_from(s@, c, 0);
    }
    let f = find_char(s, c, 0);
    if f == s.unicode_len() {
        assert(forall|j: int| 0 <= j < s@.len() ==> s@[j] != c);
        false
    } else {
        assert(s@[f as int] == c);
        true
    }
}

/// The first position at or after `i` holding whitespace, or the length of
/// `s` if the rest of `s` holds none.
pub open spec fn find_space_from(s: Seq<char>, i: int) -> int
    decreases s.len() - i,
{
    if !(0 <= i < s.len()) {
        s.len() as int
    } else if is_space(s[i]) {
        i
    } else {
        find_space_from(s, i + 1)
    }
}

pub proof fn lemma_find_space_from(s: Seq<char>, i: int)
    requires
        0 <= i <= s.len(),
    ensures
        i <= find_space_from(s, i) <= s.len(),
        forall|j: int| i <= j < find_space_from(s, i) ==> !is_space(s[j]),
        find_space_from(s, i) < s.len() ==> is_space(s[find_space_from(s, i)]),
    decreases s.len() - i,
{
    if i < s.len() && !is_space(s[i]) {
        lemma_find_space_from(s, i + 1);
    }
}

/// Returns `find_space_from(s@, i)` as an index into `s`.
pub fn find_space(s: &str, i: usize) -> (r: usize)
    requires
        i <= s@.len(),
    ensures
        r == find_space_from(s@, i as int),
        i <= r <= s@.len(),
    decreases s@.len() - i,
{
    proof {
        lemma_find_space_from(s@, i as int);
    }
    if i == s.unicode_len() {
        i
    } else if is_space_char(s.get_char(i)) {
        i
    } else {
        find_space(s, i + 1)
    }
}

/// The first position at or after `i` holding a non-whitespace character, or
/// the length of `s` if the rest of `s` is all whitespace.
pub open spec fn skip_ws(s: Seq<char>, i: int) -> int
    decreases s.len() - i,
{
    if !(0 <= i < s.len()) {
        s.len() as int
    } else if !is_space(s[i]) {
        i
    } else {
        skip_ws(s, i + 1)
    }
}

pub proof fn lemma_skip_ws(s: Seq<char>, i: int)
    requires
        0 <= i <= s.len(),
    ensures
        i <= skip_ws(s, i) <= s.len(),
        forall|j: int| i <= j < skip_ws(s, i) ==> is_space(s[j]),
        skip_ws(s, i) < s.len() ==> !is_space(s[skip_ws(s, i)]),
    decreases s.len() - i,
{
    if i < s.len() && is_space(s[i]) {
        lemma_skip_ws(s, i + 1);
    }
}

/// Returns `skip_ws(s@, i)` as an index into `s`.
pub fn skip_spaces(s: &str, i: usize) -> (r: usize)
    requires
        i <= s@.len(),
    ensures
        r == skip_ws(s@, i as int),
        i <= r <= s@.len(),
    decreases s@.len() - i,
{
    proof {
        lemma_skip_ws(s@, i as int);
    }
    if i == s.unicode_len() {
        i
    } else if !is_space_char(s.get_char(i)) {
        i
    } else {
        skip_spaces(s, i + 1)
    }
}

/// The position just past the last non-whitespace character strictly before
/// `j`, or `0` if all of `s` before `j` is whitespace.
pub open spec fn ws_end(s: Seq<char>, j: int) -> int
    decreases j,
{
    if !(0 < j <= s.len()) {
        0
    } else if !is_space(s[j - 1]) {
        j
    } else {
        ws_end(s, j - 1)
    }
}

pub proof fn lemma_ws_end(s: Seq<char>, j: int)
    requires
        0 <= j <= s.len(),
    ensures
        0 <= ws_end(s, j) <= j,
        forall|k: int| ws_end(s, j) <= k < j ==> is_space(s[k]),
        ws_end(s, j) > 0 ==> !is_space(s[ws_end(s, j) - 1]),
    decreases j,
{
    if 0 < j && is_space(s[j - 1]) {
        lemma_ws_end(s, j - 1);
    }
}

/// Returns `ws_end(s@, j)` as an index into `s`.
pub fn trim_end_index(s: &str, j: usize) -> (r: usize)
    requires
        j <= s@.len(),
    ensures
        r == ws_end(s@, j as int),
        r <= j,
    decreases j,
{
    proof {
        lemma_ws_end(s@, j as int);
    }
    if j == 0 {
        0
    } else if !is_space_char(s.get_char(j - 1)) {
        j
    } else {
        trim_end_index(s, j - 1)
    }
}

/// `s` with leading and trailing whitespace removed.
pub open spec fn trim_spec(s: Seq<char>) -> Seq<char> {
    let a = skip_ws(s, 0);
    let b = ws_end(s, s.len() as int);
    if a <= b {
        s.subrange(a, b)
    } else {
        Seq::empty()
    }
}

/// Returns a copy of `s` with leading and trailing whitespace removed.
pub fn trim_str(s: &str) -> (r: String)
    ensures
        r@ == trim_spec(s@),
{
    proof {
        lemma_skip_ws(s@, 0);
        lemma_ws_end(s@, s@.len() as int);
    }
    let a = skip_spaces(s, 0);
    let b = trim_end_index(s, s.unicode_len());
    if a <= b {
        s.substring_char(a, b).to_owned()
    } else {
        assert(trim_spec(s@) =~= Seq::empty());
        String::new()
    }
}

/// The pieces of `s` from position `i` on, split at every occurrence of
/// `sep`; adjacent separators yield empty pieces, as `str::split` does.
pub open spec fn split_from(s: Seq<char>, sep: char, i: int) -> Seq<Seq<char>>
    decreases s.len() - i,
    when 0 <= i <= s.len()
    via split_from_decreases
{
    let e = find_from(s, sep, i);
    if e == s.len() {
        seq![s.subrange(i, e)]
    } else {
        seq![s.subrange(i, e)] + split_from(s, sep, e + 1)
    }
}

#[via_fn]
proof fn split_from_decreases(s: Seq<char>, sep: char, i: int) {
    lemma_find_from(s, sep, i);
}

/// Splits `s` at every occurrence of `sep`, as `str::split` does.
pub fn split_char(s: &str, sep: char, i: usize) -> (r: Vec<String>)
    requires
        i <= s@.len(),
    ensures
        r.deep_view() == split_from(s@, sep, i as int),
        r.len() >= 1,
    decreases s@.len() - i,
{
    proof {
        lemma_find_from(s@, sep, i as int);
    }
    let e = find_char(s, sep, i);
    let piece = s.substring_char(i, e).to_owned();
    if e == s.unicode_len() {
        let mut v: Vec<String> = Vec::new();
        v.push(piece);
        proof {
            assert(v.deep_view() =~= split_from(s@, sep, i as int));
        }
        v
    } else {
        let mut rest = split_char(s, sep, e + 1);
        rest.insert(0, piece);
        proof {
            assert(rest.deep_view() =~= split_from(s@, sep, i as int));
        }
        rest
    }
}

/// The whitespace-separated tokens of `s` from position `i` on; tokens are
/// maximal runs of non-whitespace characters, so none is empty.
pub open spec fn ws_tokens_from(s: Seq<char>, i: int) -> Seq<Seq<char>>
    decreases s.len() - i,
    when 0 <= i <= s.len()
    via ws_tokens_from_decreases
{
    let a = skip_ws(s, i);
    if a == s.len() {
        Seq::empty()
    } else {
        let e = find_space_from(s, a);
        seq![s.subrange(a, e)] + ws_tokens_from(s, e)
    }
}

#[via_fn]
proof fn ws_tokens_from_decreases(s: Seq<char>, i: int) {
    lemma_skip_ws(s, i);
    if skip_ws(s, i) < s.len() {
        lemma_find_space_from(s, skip_ws(s, i));
    }
}

/// The whitespace-separated tokens of `s`.
pub open spec fn ws_tokens(s: Seq<char>) -> Seq<Seq<char>> {
    ws_tokens_from(s, 0)
}

/// Splits `s` into its whitespace-separated tokens, as
/// `str::split_whitespace` does.
pub fn split_ws(s: &str, i: usize) -> (r: Vec<String>)
    requires
        i <= s@.len(),
    ensures
        r.deep_view() == ws_tokens_from(s@, i as int),
    decreases s@.len() - i,
{
    proof {
        lemma_skip_ws(s@, i as int);
    }
    let a = skip_spaces(s, i);
    if a == s.unicode_len() {
        let v: Vec<String> = Vec::new();
        proof {
            assert(v.deep_view() =~= ws_tokens_from(s@, i as int));
        }
        v
    } else {
        proof {
            lemma_find_space_from(s@, a as int);
        }
        let e = find_space(s, a);
        let token = s.substring_char(a, e).to_owned();
        let mut rest = split_ws(s, e);
        rest.insert(0, token);
        proof {
            assert(rest.deep_view() =~= ws_tokens_from(s@, i as int));
        }
        rest
    }
}

/// Whether `sub` occurs in `s` starting at position `i`.
pub open spec fn is_sub_at(s: Seq<char>, sub: Seq<char>, i: int) -> bool {
    0 <= i && i + sub.len() <= s.len() && s.subrange(i, i + sub.len() as int) == sub
}

/// Whether `sub` occurs anywhere in `s`.
pub open spec fn contains_seq(s: Seq<char>, sub: Seq<char>) -> bool {
    exists|i: int| is_sub_at(s, sub, i)
}

/// Returns whether `sub` occurs as a contiguous substring of `s`.
pub fn contains_str(s: &str, sub: &str) -> (r: bool)
    ensures
        r == contains_seq(s@, sub@),
{
    let n = s.unicode_len();
    let m = sub.unicode_len();
    if m > n {
        assert(!contains_seq(s@, sub@)) by {
            assert(forall|i: int| !is_sub_at(s@, sub@, i));
        }
        return false;
    }
    if m == 0 {
        assert(s@.subrange(0, 0) =~= sub@);
        assert(is_sub_at(s@, sub@, 0));
        return true;
    }
    let mut i: usize = 0;
    while i <= n - m
        invariant
            0 <= i <= n - m + 1,
            1 <= m <= n,
            n == s@.len(),
            m == sub@.len(),
            forall|j: int| 0 <= j < i ==> !is_sub_at(s@, sub@, j),
        decreases n - m + 1 - i,
    {
        let piece = s.substring_char(i, i + m);
        if str_eq(piece, sub) {
            assert(is_sub_at(s@, sub@, i as int));
            return true;
        }
        assert(!is_sub_at(s@, sub@, i as int));
        i += 1;
    }
    assert(forall|j: int| !is_sub_at(s@, sub@, j));
    false
}

/// The last position at or before `i` where `sub` occurs in `s`, if any.
pub open spec fn rfind_from(s: Seq<char>, sub: Seq<char>, i: int) -> Option<int>
    decreases i + 1,
{
    if i < 0 {
        None
    } else if is_sub_at(s, sub, i) {
        Some(i)
    } else {
        rfind_from(s, sub, i - 1)
    }
}

pub proof fn lemma_rfind_from(s: Seq<char>, sub: Seq<char>, i: int)
    ensures
        match rfind_from(s, sub, i) {
            Some(p) => 0 <= p <= i && is_sub_at(s, sub, p) && forall|j: int|
                p < j <= i ==> !is_sub_at(s, sub, j),
            None => forall|j: int| j <= i ==> !is_sub_at(s, sub, j),
        },
    decreases i + 1,
{
    if i >= 0 && !is_sub_at(s, sub, i) {
        lemma_rfind_from(s, sub, i - 1);
    }
}

/// The last position where `sub` occurs in `s`, if any.
pub open spec fn rfind_seq(s: Seq<char>, sub: Seq<char>) -> Option<int> {
    rfind_from(s, sub, s.len() as int)
}

/// Returns the last position where `sub` occurs in `s`, or `None` if `sub`
/// does not occur in `s`.
pub fn rfind_str(s: &str, sub: &str) -> (r: Option<usize>)
    ensures
        match r {
            Some(p) => rfind_seq(s@, sub@) == Some(p as int),
            None => rfind_seq(s@, sub@) is None,
        },
{
    let n = s.unicode_len();
    let m = sub.unicode_len();
    proof {
        lemma_rfind_from(s@, sub@, s@.len() as int);
    }
    if m > n {
        assert(rfind_seq(s@, sub@) is None) by {
            lemma_rfind_from(s@, sub@, s@.len() as int);
        }
        return None;
    }
    let mut i: usize = n - m;
    loop
        invariant
            0 <= i <= n - m,
            m <= n,
            n == s@.len(),
            m == sub@.len(),
            forall|j: int| i < j <= s@.len() ==> !is_sub_at(s@, sub@, j),
        decreases i + 1,
    {
        let piece = s.substring_char(i, i + m);
        if str_eq(piece, sub) {
            assert(is_sub_at(s@, sub@, i as int));
            proof {
                lemma_rfind_from(s@, sub@, s@.len() as int);
                assert(rfind_seq(s@, sub@) == Some(i as int)) by {
                    lemma_rfind_unique(s@, sub@, i as int);
                }
            }
            return Some(i);
        }
        assert(!is_sub_at(s@, sub@, i as int));
        if i == 0 {
            assert(forall|j: int| !is_sub_at(s@, sub@, j));
            proof {
                lemma_rfind_from(s@, sub@, s@.len() as int);
            }
            return None;
        }
        i -= 1;
    }
}

/// If `sub` occurs at `p` and nowhere later, `rfind_from` at or beyond `p`
/// finds exactly `p`.
proof fn lemma_rfind_unique(s: Seq<char>, sub: Seq<char>, p: int)
    requires
        is_sub_at(s, sub, p),
        forall|j: int| p < j <= s.len() ==> !is_sub_at(s, sub, j),
    ensures
        rfind_from(s, sub, s.len() as int) == Some(p),
{
    lemma_rfind_from(s, sub, s.len() as int);
}

/// Returns whether `s` ends with the characters of `suffix`.
pub fn ends_with_str(s: &str, suffix: &str) -> (r: bool)
    ensures
        r == (s@.len() >= suffix@.len() && s@.subrange(
            s@.len() - suffix@.len(),
            s@.len() as int,
        ) == suffix@),
{
    let n = s.unicode_len();
    let m = suffix.unicode_len();
    if m > n {
        return false;
    }
    let piece = s.substring_char(n - m, n);
    str_eq(piece, suffix)
}

/// Returns whether the first character of `s` is `c`.
pub fn first_char_is(s: &str, c: char) -> (r: bool)
    ensures
        r == (s@.len() > 0 && s@[0] == c),
{
    if s.unicode_len() == 0 {
        false
    } else {
        s.get_char(0) == c
    }
}

/// Returns whether `s` begins with the characters of `prefix`.
pub fn starts_with_str(s: &str, prefix: &str) -> (r: bool)
    ensures
        r == (s@.len() >= prefix@.len() && s@.subrange(0, prefix@.len() as int) == prefix@),
{
    let n = s.unicode_len();
    let m = prefix.unicode_len();
    if m > n {
        return false;
    }
    let piece = s.substring_char(0, m);
    str_eq(piece, prefix)
}

/// Whether `c` is an ASCII decimal digit.
pub open spec fn is_digit(c: char) -> bool {
    '0' <= c && c <= '9'
}

/// Returns whether `c` is an ASCII decimal digit.
pub fn is_digit_char(c: char) -> (r: bool)
    ensures
        r == is_digit(c),
{
    '0' <= c && c <= '9'
}

} // verus!
