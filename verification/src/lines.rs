//! The line structure of a text, as a mathematical model over `Seq<char>`.
//!
//! A line break is one of the break code points, with a CR directly followed
//! by an LF counting as a single break. A line starts at the beginning of the
//! text and directly after each break; a break belongs to the line it ends.

use crate::classify::is_linebreak_spec;
use vstd::prelude::*;

verus! {

/// A line break ends with the character at index `i`: that character is a
/// break code point and is not the CR of a CRLF pair.
pub open spec fn ends_break(s: Seq<char>, i: int) -> bool {
    &&& 0 <= i < s.len()
    &&& is_linebreak_spec(s[i])
    &&& !(s[i] == '\r' && i + 1 < s.len() && s[i + 1] == '\n')
}

/// The number of line breaks that end before char index `n`. This is also the
/// line that index `n` lies on.
pub open spec fn breaks_before(s: Seq<char>, n: int) -> nat
    decreases n,
{
    if n <= 0 {
        0
    } else {
        breaks_before(s, n - 1) + if ends_break(s, n - 1) {
            1nat
        } else {
            0nat
        }
    }
}

/// The number of lines of `s`: one more than its line breaks, so the empty
/// text has one line and a text that ends in a break has a final empty line.
pub open spec fn line_count(s: Seq<char>) -> int {
    breaks_before(s, s.len() as int) as int + 1
}

/// The line that char index `idx` lies on.
pub open spec fn line_of(s: Seq<char>, idx: int) -> int {
    breaks_before(s, idx) as int
}

/// `idx` is where line `line` starts: the beginning of the text or the
/// position directly after a break, with exactly `line` breaks before it.
pub open spec fn starts_line(s: Seq<char>, line: int, idx: int) -> bool {
    &&& 0 <= idx <= s.len()
    &&& breaks_before(s, idx) == line
    &&& (idx == 0 || ends_break(s, idx - 1))
}

/// The char index at which line `line` starts. The line one past the last
/// starts at the end of the text.
pub open spec fn line_start(s: Seq<char>, line: int) -> int {
    if line >= line_count(s) {
        s.len() as int
    } else {
        choose|idx: int| starts_line(s, line, idx)
    }
}

/// The length of line `line` in chars, its line break included.
pub open spec fn line_len(s: Seq<char>, line: int) -> int {
    line_start(s, line + 1) - line_start(s, line)
}

/// The column of char index `idx` within its line.
pub open spec fn column_of(s: Seq<char>, idx: int) -> int {
    idx - line_start(s, line_of(s, idx))
}

/// The width of the line break that ends directly before line `line`: 2 for
/// a CRLF pair, 1 for any single break, 0 at the start of the text.
pub open spec fn break_width_before(s: Seq<char>, line: int) -> int {
    let at = line_start(s, line);
    if at >= 1 && s[at - 1] == '\n' {
        if at >= 2 && s[at - 2] == '\r' {
            2
        } else {
            1
        }
    } else if at >= 1 && is_linebreak_spec(s[at - 1]) {
        1
    } else {
        0
    }
}

/// The text has `pattern` at index `at`.
pub open spec fn sees(s: Seq<char>, at: int, pattern: Seq<char>) -> bool {
    0 <= at && at + pattern.len() <= s.len() && s.subrange(at, at + pattern.len()) == pattern
}

/// The text has `pattern` directly before index `at`.
pub open spec fn sees_before(s: Seq<char>, at: int, pattern: Seq<char>) -> bool {
    at <= s.len() && sees(s, at - pattern.len(), pattern)
}

/// The two chars of a CRLF pair.
pub open spec fn crlf() -> Seq<char> {
    seq!['\r', '\n']
}

/// Counting breaks is monotone, and grows by at most one per char.
pub proof fn lemma_breaks_monotone(s: Seq<char>, a: int, b: int)
    requires
        a <= b,
    ensures
        breaks_before(s, a) <= breaks_before(s, b),
        a >= 0 ==> breaks_before(s, b) - breaks_before(s, a) <= b - a,
    decreases b - a,
{
    if a < b {
        lemma_breaks_monotone(s, a, b - 1);
    }
}

/// A line starts at one index only.
pub proof fn lemma_starts_line_unique(s: Seq<char>, line: int, i: int, j: int)
    requires
        starts_line(s, line, i),
        starts_line(s, line, j),
    ensures
        i == j,
{
    if i < j {
        lemma_breaks_monotone(s, i, j - 1);
    } else if j < i {
        lemma_breaks_monotone(s, j, i - 1);
    }
}

/// Every line up to the one that index `n` lies on starts somewhere at or before `n`.
proof fn lemma_starts_line_exists_upto(s: Seq<char>, line: int, n: int)
    requires
        0 <= n <= s.len(),
        0 <= line <= breaks_before(s, n),
    ensures
        exists|idx: int| 0 <= idx <= n && starts_line(s, line, idx),
    decreases n,
{
    if n == 0 {
        assert(starts_line(s, line, 0));
    } else if line <= breaks_before(s, n - 1) {
        lemma_starts_line_exists_upto(s, line, n - 1);
        let idx = choose|idx: int| 0 <= idx <= n - 1 && starts_line(s, line, idx);
        assert(0 <= idx <= n && starts_line(s, line, idx));
    } else {
        assert(starts_line(s, line, n));
    }
}

/// What `line_start` is, for each line of the text and the one past the last.
pub proof fn lemma_line_start(s: Seq<char>, line: int)
    requires
        0 <= line <= line_count(s),
    ensures
        0 <= line_start(s, line) <= s.len(),
        line < line_count(s) ==> starts_line(s, line, line_start(s, line)),
        line == 0 ==> line_start(s, line) == 0,
        line == line_count(s) ==> line_start(s, line) == s.len(),
{
    if line < line_count(s) {
        lemma_starts_line_exists_upto(s, line, s.len() as int);
        let idx = choose|idx: int| 0 <= idx <= s.len() && starts_line(s, line, idx);
        assert(starts_line(s, line, idx));
        if line == 0 {
            assert(starts_line(s, 0, 0));
            lemma_starts_line_unique(s, 0, 0, line_start(s, line));
        }
    }
}

/// An index that starts a line is that line's `line_start`.
pub proof fn lemma_line_start_is(s: Seq<char>, line: int, idx: int)
    requires
        starts_line(s, line, idx),
    ensures
        line_start(s, line) == idx,
        0 <= line < line_count(s),
{
    lemma_breaks_monotone(s, idx, s.len() as int);
    lemma_starts_line_unique(s, line, idx, line_start(s, line));
}

/// Later lines start later.
pub proof fn lemma_line_start_monotone(s: Seq<char>, a: int, b: int)
    requires
        0 <= a <= b <= line_count(s),
    ensures
        line_start(s, a) <= line_start(s, b),
{
    lemma_line_start(s, a);
    lemma_line_start(s, b);
    if b < line_count(s) && line_start(s, b) < line_start(s, a) {
        lemma_breaks_monotone(s, line_start(s, b), line_start(s, a));
    }
}

/// A char index lies on a line of the text, at or after that line's start and
/// before the start of the next line (or at the very end of the text).
pub proof fn lemma_line_of_bounds(s: Seq<char>, idx: int)
    requires
        0 <= idx <= s.len(),
    ensures
        0 <= line_of(s, idx) < line_count(s),
        0 <= line_start(s, line_of(s, idx)) <= idx,
        idx <= line_start(s, line_of(s, idx) + 1) <= s.len(),
        idx < s.len() ==> idx < line_start(s, line_of(s, idx) + 1),
{
    let line = line_of(s, idx);
    lemma_breaks_monotone(s, idx, s.len() as int);
    lemma_line_start(s, line);
    lemma_line_start(s, line + 1);
    let a = line_start(s, line);
    if a > idx {
        lemma_breaks_monotone(s, idx, a - 1);
    }
    if line + 1 < line_count(s) {
        let b = line_start(s, line + 1);
        if b <= idx {
            lemma_breaks_monotone(s, b, idx);
        }
    }
}

/// The start of a line lies on that line.
pub proof fn lemma_line_of_line_start(s: Seq<char>, line: int)
    requires
        0 <= line < line_count(s),
    ensures
        line_of(s, line_start(s, line)) == line,
{
    lemma_line_start(s, line);
}

/// An index from the start of a line up to the start of the next lies on
/// that line; on the last line this holds up to the end of the text.
pub proof fn lemma_line_of_within(s: Seq<char>, line: int, idx: int)
    requires
        0 <= line < line_count(s),
        line_start(s, line) <= idx,
        idx < line_start(s, line + 1) || (line == line_count(s) - 1 && idx <= s.len()),
    ensures
        line_of(s, idx) == line,
{
    lemma_line_start(s, line);
    lemma_line_start(s, line + 1);
    lemma_breaks_monotone(s, line_start(s, line), idx);
    if line + 1 < line_count(s) {
        lemma_breaks_monotone(s, idx, line_start(s, line + 1) - 1);
    } else {
        lemma_breaks_monotone(s, idx, s.len() as int);
    }
}

/// Every line but the first starts behind a line break, which belongs to
/// the line before.
pub proof fn lemma_break_width_before(s: Seq<char>, line: int)
    requires
        1 <= line < line_count(s),
    ensures
        1 <= break_width_before(s, line) <= 2,
        break_width_before(s, line) <= line_len(s, line - 1),
{
    lemma_line_start(s, line);
    lemma_line_start(s, line - 1);
    let at = line_start(s, line);
    let before = line_start(s, line - 1);
    if before >= at {
        lemma_breaks_monotone(s, at, before);
    }
    if break_width_before(s, line) == 2 {
        // The CR of the pair is no break of its own, so the line before
        // cannot start between the CR and the LF.
        if before == at - 1 {
            assert(!ends_break(s, at - 2));
            lemma_breaks_monotone(s, 0, before);
        }
    }
}

} // verus!
