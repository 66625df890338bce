//! Decoded container log lines: stripping of known terminal colour escape
//! sequences, whitespace trimming, and the substring scan that feeds the
//! health verdict.

use crate::text::{bytes_contain, bytes_match_at, has_pattern};
use vstd::prelude::*;

verus! {

/// True when `s` begins with `pat`.
pub open spec fn starts_with(s: Seq<u8>, pat: Seq<u8>) -> bool {
    pat.len() <= s.len() && s.subrange(0, pat.len() as int) == pat
}

/// `s` with every occurrence of `pat` removed, scanning left to right
/// without rescanning the text produced by a removal.
pub open spec fn remove_pattern(s: Seq<u8>, pat: Seq<u8>) -> Seq<u8>
    recommends
        pat.len() > 0,
    decreases s.len(),
{
    if s.len() == 0 {
        s
    } else if pat.len() > 0 && starts_with(s, pat) {
        remove_pattern(s.skip(pat.len() as int), pat)
    } else {
        seq![s[0]] + remove_pattern(s.skip(1), pat)
    }
}

/// Removes every occurrence of `pat` from `s`, scanning left to right.
pub fn remove_all_occurrences(s: &Vec<u8>, pat: &Vec<u8>) -> (r: Vec<u8>)
    requires
        pat@.len() > 0,
    ensures
        r@ == remove_pattern(s@, pat@),
{
    let mut out: Vec<u8> = Vec::new();
    let mut i: usize = 0;
    proof {
        assert(s@.skip(0) =~= s@);
        assert(out@ + remove_pattern(s@, pat@) =~= remove_pattern(s@, pat@));
    }
    while i < s.len()
        invariant
            pat@.len() > 0,
            i <= s@.len(),
            remove_pattern(s@, pat@) == out@ + remove_pattern(s@.skip(i as int), pat@),
        decreases s@.len() - i,
    {
        if pat.len() <= s.len() - i && bytes_match_at(s, pat, i) {
            proof {
                assert(s@.skip(i as int).subrange(0, pat@.len() as int) =~= s@.subrange(
                    i as int,
                    i + pat@.len(),
                ));
                assert(starts_with(s@.skip(i as int), pat@));
                assert(s@.skip(i as int).skip(pat@.len() as int) =~= s@.skip(i + pat@.len()));
            }
            i += pat.len();
        } else {
            proof {
                if i + pat@.len() <= s@.len() {
                    assert(s@.skip(i as int).subrange(0, pat@.len() as int) =~= s@.subrange(
                        i as int,
                        i + pat@.len(),
                    ));
                }
                assert(!starts_with(s@.skip(i as int), pat@));
                assert(s@.skip(i as int)[0] == s@[i as int]);
                assert(s@.skip(i as int).skip(1) =~= s@.skip(i + 1));
                assert((out@ + seq![s@[i as int]]) + remove_pattern(s@.skip(i + 1), pat@) =~= out@
                    + (seq![s@[i as int]] + remove_pattern(s@.skip(i + 1), pat@)));
            }
            out.push(s[i]);
            i += 1;
        }
    }
    proof {
        assert(s@.skip(s@.len() as int) =~= Seq::<u8>::empty());
        assert(out@ + remove_pattern(Seq::<u8>::empty(), pat@) =~= out@);
    }
    out
}

/// ASCII whitespace, as trimmed from the ends of a decoded log line.
pub open spec fn is_ascii_space_byte(b: u8) -> bool {
    b == 32 || b == 9 || b == 10 || b == 13 || b == 11 || b == 12
}

pub open spec fn trim_front(s: Seq<u8>) -> Seq<u8>
    decreases s.len(),
{
    if s.len() > 0 && is_ascii_space_byte(s[0]) {
        trim_front(s.skip(1))
    } else {
        s
    }
}

pub open spec fn trim_back(s: Seq<u8>) -> Seq<u8>
    decreases s.len(),
{
    if s.len() > 0 && is_ascii_space_byte(s[s.len() - 1]) {
        trim_back(s.drop_last())
    } else {
        s
    }
}

/// `s` with ASCII whitespace removed from both ends.
pub open spec fn trim_spaces(s: Seq<u8>) -> Seq<u8> {
    trim_back(trim_front(s))
}

fn byte_is_space(b: u8) -> (r: bool)
    ensures
        r == is_ascii_space_byte(b),
{
    b == 32 || b == 9 || b == 10 || b == 13 || b == 11 || b == 12
}

/// Removes ASCII whitespace from both ends of `s`.
pub fn trim_bytes(s: &Vec<u8>) -> (r: Vec<u8>)
    ensures
        r@ == trim_spaces(s@),
{
    proof {
        assert(s@.skip(0) =~= s@);
    }
    let mut lo: usize = 0;
    while lo < s.len() && byte_is_space(s[lo])
        invariant
            lo <= s@.len(),
            trim_front(s@) == trim_front(s@.skip(lo as int)),
        decreases s@.len() - lo,
    {
        proof {
            assert(s@.skip(lo as int).skip(1) =~= s@.skip(lo + 1));
        }
        lo += 1;
    }
    proof {
        if lo == s@.len() {
            assert(s@.skip(lo as int) =~= Seq::<u8>::empty());
        }
        assert(trim_front(s@) == s@.skip(lo as int));
        assert(s@.skip(lo as int) =~= s@.subrange(lo as int, s@.len() as int));
    }
    let mut hi: usize = s.len();
    while hi > lo && byte_is_space(s[hi - 1])
        invariant
            lo <= hi <= s@.len(),
            trim_front(s@) == s@.skip(lo as int),
            trim_back(s@.skip(lo as int)) == trim_back(s@.subrange(lo as int, hi as int)),
        decreases hi,
    {
        proof {
            assert(s@.subrange(lo as int, hi as int).drop_last() =~= s@.subrange(
                lo as int,
                hi - 1,
            ));
        }
        hi -= 1;
    }
    proof {
        assert(trim_back(s@.subrange(lo as int, hi as int)) == s@.subrange(lo as int, hi as int));
    }
    let mut out: Vec<u8> = Vec::new();
    let mut k: usize = lo;
    while k < hi
        invariant
            lo <= k <= hi <= s@.len(),
            out@ == s@.subrange(lo as int, k as int),
        decreases hi - k,
    {
        out.push(s[k]);
        proof {
            assert(s@.subrange(lo as int, k + 1) =~= s@.subrange(lo as int, k as int) + seq![
                s@[k as int],
            ]);
        }
        k += 1;
    }
    proof {
        assert(out@ == trim_spaces(s@));
    }
    out
}

/// The colour reset escape sequence (ESC `[0m`).
pub open spec fn ansi_reset() -> Seq<u8> {
    seq![27u8, 91u8, 48u8, 109u8]
}

/// The green-foreground escape sequence (ESC `[32m`).
pub open spec fn ansi_green() -> Seq<u8> {
    seq![27u8, 91u8, 51u8, 50u8, 109u8]
}

/// The dim-intensity escape sequence (ESC `[2m`).
pub open spec fn ansi_dim() -> Seq<u8> {
    seq![27u8, 91u8, 50u8, 109u8]
}

/// A decoded log line after display clean-up: the three known colour escape
/// sequences removed in order, then whitespace trimmed from both ends.
pub open spec fn sanitized(line: Seq<u8>) -> Seq<u8> {
    trim_spaces(
        remove_pattern(remove_pattern(remove_pattern(line, ansi_reset()), ansi_green()), ansi_dim()),
    )
}

/// Strips the known colour escape sequences and trims whitespace, as done to
/// every log line before display and health scanning.
pub fn sanitize_log_line(line: &Vec<u8>) -> (r: Vec<u8>)
    ensures
        r@ == sanitized(line@),
{
    let reset: Vec<u8> = vec![27u8, 91u8, 48u8, 109u8];
    let green: Vec<u8> = vec![27u8, 91u8, 51u8, 50u8, 109u8];
    let dim: Vec<u8> = vec![27u8, 91u8, 50u8, 109u8];
    proof {
        assert(reset@ =~= ansi_reset());
        assert(green@ =~= ansi_green());
        assert(dim@ =~= ansi_dim());
    }
    let a = remove_all_occurrences(line, &reset);
    let b = remove_all_occurrences(&a, &green);
    let c = remove_all_occurrences(&b, &dim);
    trim_bytes(&c)
}

/// The lowercase error marker, the bytes of "error".
pub open spec fn error_marker_lower() -> Seq<u8> {
    seq![101u8, 114u8, 114u8, 111u8, 114u8]
}

/// The capitalised error marker, the bytes of "Error".
pub open spec fn error_marker_title() -> Seq<u8> {
    seq![69u8, 114u8, 114u8, 111u8, 114u8]
}

/// True when the sanitized text of `line` contains either spelling of the
/// error marker.
pub open spec fn line_flags_error(line: Seq<u8>) -> bool {
    has_pattern(sanitized(line), error_marker_lower()) || has_pattern(
        sanitized(line),
        error_marker_title(),
    )
}

/// Whether `text` contains either spelling of the error marker.
pub fn scan_for_error_marker(text: &Vec<u8>) -> (r: bool)
    ensures
        r == (has_pattern(text@, error_marker_lower()) || has_pattern(
            text@,
            error_marker_title(),
        )),
{
    let lower: Vec<u8> = vec![101u8, 114u8, 114u8, 111u8, 114u8];
    let title: Vec<u8> = vec![69u8, 114u8, 114u8, 111u8, 114u8];
    proof {
        assert(lower@ =~= error_marker_lower());
        assert(title@ =~= error_marker_title());
    }
    bytes_contain(text, &lower) || bytes_contain(text, &title)
}

/// Whether the sanitized text of `line` contains either spelling of the
/// error marker.
pub fn line_indicates_error(line: &Vec<u8>) -> (r: bool)
    ensures
        r == line_flags_error(line@),
{
    let clean = sanitize_log_line(line);
    scan_for_error_marker(&clean)
}

/// One item of a fetched log tail: a decoded line, or a read failure, which
/// the health scan treats as an error signal of its own.
pub enum LogEntry {
    Line(Vec<u8>),
    Unreadable,
}

pub open spec fn entry_flags_error(e: LogEntry) -> bool {
    match e {
        LogEntry::Line(bytes) => line_flags_error(bytes@),
        LogEntry::Unreadable => true,
    }
}

/// True when some fetched log entry carries an error signal.
pub open spec fn any_entry_flags_error(entries: Seq<LogEntry>) -> bool {
    exists|i: int| 0 <= i < entries.len() && entry_flags_error(entries[i])
}

/// Whether any fetched log entry carries an error signal: an unreadable
/// entry, or a line whose sanitized text contains an error marker.
pub fn logs_indicate_error(entries: &Vec<LogEntry>) -> (r: bool)
    ensures
        r == any_entry_flags_error(entries@),
{
    let mut i: usize = 0;
    while i < entries.len()
        invariant
            i <= entries@.len(),
            forall|j: int| 0 <= j < i ==> !entry_flags_error(entries@[j]),
        decreases entries@.len() - i,
    {
        let flagged = match &entries[i] {
            LogEntry::Line(bytes) => line_indicates_error(bytes),
            LogEntry::Unreadable => true,
        };
        if flagged {
            assert(entry_flags_error(entries@[i as int]));
            return true;
        }
        i += 1;
    }
    false
}

} // verus!
