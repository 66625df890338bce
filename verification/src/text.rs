//! Pattern search and whitespace predicates shared by the log scanner and
//! the command-output inspectors.

use vstd::prelude::*;

verus! {

/// True when `pat` occurs at position `i` of `s`.
pub open spec fn pattern_at<T>(s: Seq<T>, pat: Seq<T>, i: int) -> bool {
    0 <= i && i + pat.len() <= s.len() && s.subrange(i, i + pat.len()) == pat
}

/// True when `pat` occurs somewhere in `s`.
pub open spec fn has_pattern<T>(s: Seq<T>, pat: Seq<T>) -> bool {
    exists|i: int| pattern_at(s, pat, i)
}

/// Whether `pat` occurs at position `i` of `s`.
pub fn bytes_match_at(s: &Vec<u8>, pat: &Vec<u8>, i: usize) -> (r: bool)
    requires
        i + pat@.len() <= s@.len(),
    ensures
        r == pattern_at(s@, pat@, i as int),
{
    let s_len = s.len();
    let mut k: usize = 0;
    while k < pat.len()
        invariant
            s_len == s@.len(),
            i + pat@.len() <= s@.len(),
            k <= pat@.len(),
            forall|m: int| 0 <= m < k ==> s@[i + m] == pat@[m],
        decreases pat@.len() - k,
    {
        if s[i + k] != pat[k] {
            assert(s@.subrange(i as int, i + pat@.len())[k as int] == s@[i + k]);
            return false;
        }
        k += 1;
    }
    assert(s@.subrange(i as int, i + pat@.len()) =~= pat@);
    true
}

/// Whether `pat` occurs somewhere in `s`.
pub fn bytes_contain(s: &Vec<u8>, pat: &Vec<u8>) -> (r: bool)
    ensures
        r == has_pattern(s@, pat@),
{
    if pat.len() == 0 {
        assert(s@.subrange(0, 0) =~= pat@);
        assert(pattern_at(s@, pat@, 0));
        return true;
    }
    if pat.len() > s.len() {
        assert(forall|i: int| !pattern_at(s@, pat@, i));
        return false;
    }
    let mut i: usize = 0;
    while i <= s.len() - pat.len()
        invariant
            1 <= pat@.len() <= s@.len(),
            i <= s@.len() - pat@.len() + 1,
            forall|j: int| 0 <= j < i ==> !pattern_at(s@, pat@, j),
        decreases s@.len() - pat@.len() - i + 1,
    {
        if bytes_match_at(s, pat, i) {
            return true;
        }
        i += 1;
    }
    assert(forall|j: int| !pattern_at(s@, pat@, j));
    false
}

/// Whether `pat` occurs at character position `i` of `s`.
pub fn str_match_at(s: &str, pat: &str, i: usize) -> (r: bool)
    requires
        i + pat@.len() <= s@.len(),
    ensures
        r == pattern_at(s@, pat@, i as int),
{
    let s_len = s.unicode_len();
    let pat_len = pat.unicode_len();
    let mut k: usize = 0;
    while k < pat_len
        invariant
            s_len == s@.len(),
            pat_len == pat@.len(),
            i + pat@.len() <= s@.len(),
            k <= pat@.len(),
            forall|m: int| 0 <= m < k ==> s@[i + m] == pat@[m],
        decreases pat@.len() - k,
    {
        if s.get_char(i + k) != pat.get_char(k) {
            assert(s@.subrange(i as int, i + pat@.len())[k as int] == s@[i + k]);
            return false;
        }
        k += 1;
    }
    assert(s@.subrange(i as int, i + pat@.len()) =~= pat@);
    true
}

/// Whether `pat` occurs somewhere in `s`, comparing character by character.
pub fn str_contains(s: &str, pat: &str) -> (r: bool)
    ensures
        r == has_pattern(s@, pat@),
{
    let s_len = s.unicode_len();
    let pat_len = pat.unicode_len();
    if pat_len == 0 {
        assert(s@.subrange(0, 0) =~= pat@);
        assert(pattern_at(s@, pat@, 0));
        return true;
    }
    if pat_len > s_len {
        assert(forall|i: int| !pattern_at(s@, pat@, i));
        return false;
    }
    let mut i: usize = 0;
    while i <= s_len - pat_len
        invariant
            s_len == s@.len(),
            pat_len == pat@.len(),
            1 <= pat@.len() <= s@.len(),
            i <= s@.len() - pat@.len() + 1,
            forall|j: int| 0 <= j < i ==> !pattern_at(s@, pat@, j),
        decreases s@.len() - pat@.len() - i + 1,
    {
        if str_match_at(s, pat, i) {
            return true;
        }
        i += 1;
    }
    assert(forall|j: int| !pattern_at(s@, pat@, j));
    false
}

/// ASCII whitespace, the characters stripped when judging command output
/// empty.
pub open spec fn is_ascii_space_char(c: char) -> bool {
    c == ' ' || c == '\t' || c == '\n' || c == '\r' || c == '\u{b}' || c == '\u{c}'
}

/// True when `s` holds nothing but ASCII whitespace.
pub open spec fn blank(s: Seq<char>) -> bool {
    forall|i: int| 0 <= i < s.len() ==> is_ascii_space_char(s[i])
}

/// Whether `s` holds nothing but ASCII whitespace.
pub fn is_blank(s: &str) -> (r: bool)
    ensures
        r == blank(s@),
{
    let len = s.unicode_len();
    let mut i: usize = 0;
    while i < len
        invariant
            len == s@.len(),
            i <= s@.len(),
            forall|j: int| 0 <= j < i ==> is_ascii_space_char(s@[j]),
        decreases s@.len() - i,
    {
        let c = s.get_char(i);
        if !(c == ' ' || c == '\t' || c == '\n' || c == '\r' || c == '\u{b}' || c == '\u{c}') {
            return false;
        }
        i += 1;
    }
    true
}

} // verus!
