//! The sequence store: the document's characters in a rope, with char-indexed
//! edits and conversions between char indices and lines.

use crate::classify::is_linebreak;
use crate::lines::{
    break_width_before, crlf, lemma_line_of_bounds, lemma_line_start_is,
    lemma_line_start_monotone, line_count, line_len, line_of, line_start, sees, sees_before,
    starts_line,
};
use ropey::Rope;
use vstd::prelude::*;
use vstd::string::StrSliceExecFns;

verus! {

/// The rope of the `ropey` crate: a value that is carried through, with
/// nothing known of it but what `rope_text` names.
#[verifier::external_type_specification]
#[verifier::external_body]
pub struct ExRope(ropey::Rope);

/// The characters that a rope holds, in order.
pub uninterp spec fn rope_text(rope: Rope) -> Seq<char>;

/// Calls `Rope::from_str`: the new rope holds the chars of `text`.
#[verifier::external_body]
fn rope_from_str(text: &str) -> (rope: Rope)
    ensures
        rope_text(rope) == text@,
{
    Rope::from_str(text)
}

/// Calls `Rope::len_chars`: the number of chars in the rope.
#[verifier::external_body]
fn rope_len_chars(rope: &Rope) -> (n: usize)
    ensures
        n == rope_text(*rope).len(),
{
    rope.len_chars()
}

/// Calls `Rope::len_lines`: the number of line breaks in the rope plus one,
/// where the crate's default build recognises LF, CR, VT, FF, NEL, LS and PS
/// and takes CRLF as one break.
#[verifier::external_body]
fn rope_len_lines(rope: &Rope) -> (n: usize)
    ensures
        n == line_count(rope_text(*rope)),
{
    rope.len_lines()
}

/// Calls `Rope::char`, which panics past the end: the char at `idx`.
#[verifier::external_body]
fn rope_char(rope: &Rope, idx: usize) -> (c: char)
    requires
        idx < rope_text(*rope).len(),
    ensures
        c == rope_text(*rope)[idx as int],
{
    rope.char(idx)
}

/// Calls `Rope::char_to_line`, which panics for an index beyond the length:
/// the number of line breaks that end before `idx`, where an index between
/// the CR and the LF of a pair still lies on the line that the pair ends.
#[verifier::external_body]
fn rope_char_to_line(rope: &Rope, idx: usize) -> (line: usize)
    requires
        idx <= rope_text(*rope).len(),
    ensures
        line == line_of(rope_text(*rope), idx as int),
{
    rope.char_to_line(idx)
}

/// Calls `Rope::line_to_char`, which panics for a line beyond one past the
/// last: the index of the first char of the line, which is the start of the
/// text or directly follows a line break; for the line one past the last,
/// the length of the text.
#[verifier::external_body]
fn rope_line_to_char(rope: &Rope, line: usize) -> (idx: usize)
    requires
        line <= line_count(rope_text(*rope)),
    ensures
        idx <= rope_text(*rope).len(),
        line < line_count(rope_text(*rope)) ==> starts_line(
            rope_text(*rope),
            line as int,
            idx as int,
        ),
        line == line_count(rope_text(*rope)) ==> idx == rope_text(*rope).len(),
{
    rope.line_to_char(line)
}

/// Calls `Rope::insert`, which panics for an index beyond the length: `text`
/// is put in before the char at `idx`.
#[verifier::external_body]
fn rope_insert(rope: &mut Rope, idx: usize, text: &str)
    requires
        idx <= rope_text(*old(rope)).len(),
    ensures
        rope_text(*final(rope)) == text_insert(rope_text(*old(rope)), idx as int, text@),
{
    rope.insert(idx, text)
}

/// Calls `Rope::remove` with the range `start..end`, which panics where the
/// range is reversed or ends beyond the length: the chars in the range leave.
#[verifier::external_body]
fn rope_remove(rope: &mut Rope, start: usize, end: usize)
    requires
        start <= end <= rope_text(*old(rope)).len(),
    ensures
        rope_text(*final(rope)) == text_remove(rope_text(*old(rope)), start as int, end as int),
{
    rope.remove(start..end)
}

/// Calls `Rope::slice` with the range `start..end`, which panics where the
/// range is reversed or ends beyond the length, and collects the slice's
/// chars into a `String`.
#[verifier::external_body]
fn rope_slice_string(rope: &Rope, start: usize, end: usize) -> (text: String)
    requires
        start <= end <= rope_text(*rope).len(),
    ensures
        text@ == rope_text(*rope).subrange(start as int, end as int),
{
    String::from(rope.slice(start..end))
}

/// `s` with `ins` put in before index `at`.
pub open spec fn text_insert(s: Seq<char>, at: int, ins: Seq<char>) -> Seq<char> {
    s.subrange(0, at) + ins + s.subrange(at, s.len() as int)
}

/// `s` without the chars in `start..end`.
pub open spec fn text_remove(s: Seq<char>, start: int, end: int) -> Seq<char> {
    s.subrange(0, start) + s.subrange(end, s.len() as int)
}

/// Why a store operation was refused.
#[derive(Clone, Copy, PartialEq, Eq, Structural, Debug)]
pub enum StoreError {
    /// An index lies beyond the text, or a range is reversed.
    OutOfRange,
}

/// The document's text. Its view is the sequence of its chars.
pub struct SequenceStore {
    rope: Rope,
}

impl View for SequenceStore {
    type V = Seq<char>;

    closed spec fn view(&self) -> Seq<char> {
        rope_text(self.rope)
    }
}

impl SequenceStore {
    /// A store that holds `text`.
    pub fn from_str(text: &str) -> (store: Self)
        ensures
            store@ == text@,
    {
        SequenceStore { rope: rope_from_str(text) }
    }

    /// The number of chars.
    pub fn len_chars(&self) -> (n: usize)
        ensures
            n == self@.len(),
    {
        rope_len_chars(&self.rope)
    }

    /// The number of lines, which is at least one.
    pub fn len_lines(&self) -> (n: usize)
        ensures
            n == line_count(self@),
            n >= 1,
    {
        rope_len_lines(&self.rope)
    }

    /// The char at `idx`, which lies within the text.
    pub(crate) fn char(&self, idx: usize) -> (c: char)
        requires
            idx < self@.len(),
        ensures
            c == self@[idx as int],
    {
        rope_char(&self.rope, idx)
    }

    /// The line that `idx` lies on, for an index up to the length.
    pub(crate) fn line_of_char(&self, idx: usize) -> (line: usize)
        requires
            idx <= self@.len(),
        ensures
            line == line_of(self@, idx as int),
            line < line_count(self@),
            line_start(self@, line as int) <= idx,
    {
        proof {
            lemma_line_of_bounds(self@, idx as int);
        }
        rope_char_to_line(&self.rope, idx)
    }

    /// Where line `line` starts, for a line up to one past the last.
    pub(crate) fn start_of_line(&self, line: usize) -> (idx: usize)
        requires
            line <= line_count(self@),
        ensures
            idx == line_start(self@, line as int),
            idx <= self@.len(),
    {
        let idx: usize = rope_line_to_char(&self.rope, line);
        proof {
            if line < line_count(self@) {
                lemma_line_start_is(self@, line as int, idx as int);
            }
        }
        idx
    }

    /// The length of line `line`, its line break included.
    pub(crate) fn length_of_line(&self, line: usize) -> (n: usize)
        requires
            line < line_count(self@),
        ensures
            n == line_len(self@, line as int),
            line_start(self@, line as int) + n <= self@.len(),
    {
        let lines: usize = self.len_lines();
        let from: usize = self.start_of_line(line);
        let to: usize = self.start_of_line(line + 1);
        proof {
            lemma_line_start_monotone(self@, line as int, line + 1);
        }
        to - from
    }

    /// Puts `text` in before index `at`, which is at most the length.
    pub(crate) fn insert_str(&mut self, at: usize, text: &str)
        requires
            at <= old(self)@.len(),
        ensures
            final(self)@ == text_insert(old(self)@, at as int, text@),
    {
        rope_insert(&mut self.rope, at, text);
    }

    /// Takes out the chars in `start..end`, a range within the text.
    pub(crate) fn remove_range(&mut self, start: usize, end: usize)
        requires
            start <= end <= old(self)@.len(),
        ensures
            final(self)@ == text_remove(old(self)@, start as int, end as int),
    {
        rope_remove(&mut self.rope, start, end);
    }

    /// The chars in `start..end`, a range within the text.
    pub(crate) fn text_of(&self, start: usize, end: usize) -> (text: String)
        requires
            start <= end <= self@.len(),
        ensures
            text@ == self@.subrange(start as int, end as int),
    {
        rope_slice_string(&self.rope, start, end)
    }

    /// Whether the text has `string` at index `at`.
    pub fn see_chars_at(&self, at: usize, string: &str) -> (found: bool)
        ensures
            found == sees(self@, at as int, string@),
    {
        let n: usize = string.unicode_len();
        let len: usize = self.len_chars();
        if at > len || n > len - at {
            return false;
        }
        let ghost window = self@.subrange(at as int, at + n);
        let mut i: usize = 0;
        while i < n
            invariant
                i <= n,
                n == string@.len(),
                at + n <= self@.len(),
                len == self@.len(),
                window == self@.subrange(at as int, at + n),
                forall|j: int| 0 <= j < i ==> window[j] == string@[j],
            decreases n - i,
        {
            if self.char(at + i) != string.get_char(i) {
                assert(window[i as int] != string@[i as int]);
                return false;
            }
            i = i + 1;
        }
        assert(window =~= string@);
        true
    }

    /// Whether the text has `string` directly before index `at`.
    pub fn see_prev_chars_at(&self, at: usize, string: &str) -> (found: bool)
        ensures
            found == sees_before(self@, at as int, string@),
    {
        let n: usize = string.unicode_len();
        if n > at || at > self.len_chars() {
            return false;
        }
        self.see_chars_at(at - n, string)
    }

    /// Whether a CRLF pair starts at index `pos`.
    pub fn is_crlf_at(&self, pos: usize) -> (found: bool)
        ensures
            found == sees(self@, pos as int, crlf()),
    {
        proof {
            reveal_strlit("\r\n");
            assert("\r\n"@ =~= crlf());
        }
        self.see_chars_at(pos, "\r\n")
    }

    /// Whether a CRLF pair ends directly before index `pos`.
    pub fn is_crlf_before(&self, pos: usize) -> (found: bool)
        ensures
            found == sees_before(self@, pos as int, crlf()),
    {
        proof {
            reveal_strlit("\r\n");
            assert("\r\n"@ =~= crlf());
        }
        self.see_prev_chars_at(pos, "\r\n")
    }

    /// The width of the line break that ends directly before `line`: 2 for a
    /// CRLF pair, 1 for any single break, 0 at the start of the text. A line
    /// beyond the last counts as starting at the end of the text.
    pub fn linebreak_width_before(&self, line: usize) -> (width: usize)
        ensures
            width == break_width_before(self@, line as int),
            width <= 2,
    {
        let lines: usize = self.len_lines();
        let at: usize = if line <= lines {
            self.start_of_line(line)
        } else {
            self.len_chars()
        };
        if at == 0 {
            return 0;
        }
        let last: char = self.char(at - 1);
        if last == '\n' {
            if at >= 2 && self.char(at - 2) == '\r' {
                2
            } else {
                1
            }
        } else if is_linebreak(last) {
            1
        } else {
            0
        }
    }

    /// The char at `idx`, or `OutOfRange` where `idx` is not within the text.
    pub fn char_at(&self, idx: usize) -> (r: Result<char, StoreError>)
        ensures
            idx < self@.len() ==> r == Ok::<char, StoreError>(self@[idx as int]),
            idx >= self@.len() ==> r == Err::<char, StoreError>(StoreError::OutOfRange),
    {
        if idx < self.len_chars() {
            Ok(self.char(idx))
        } else {
            Err(StoreError::OutOfRange)
        }
    }

    /// The line that `idx` lies on, or `OutOfRange` where `idx` is beyond the length.
    pub fn char_to_line(&self, idx: usize) -> (r: Result<usize, StoreError>)
        ensures
            idx <= self@.len() ==> r is Ok && r->Ok_0 == line_of(self@, idx as int),
            idx > self@.len() ==> r == Err::<usize, StoreError>(StoreError::OutOfRange),
    {
        if idx <= self.len_chars() {
            Ok(self.line_of_char(idx))
        } else {
            Err(StoreError::OutOfRange)
        }
    }

    /// Where line `line` starts, the line one past the last starting at the
    /// end of the text, or `OutOfRange` for a line beyond that.
    pub fn line_to_char(&self, line: usize) -> (r: Result<usize, StoreError>)
        ensures
            line <= line_count(self@) ==> r is Ok && r->Ok_0 == line_start(self@, line as int),
            line > line_count(self@) ==> r == Err::<usize, StoreError>(StoreError::OutOfRange),
    {
        if line <= self.len_lines() {
            Ok(self.start_of_line(line))
        } else {
            Err(StoreError::OutOfRange)
        }
    }

    /// The length of line `line` with its line break, or `OutOfRange` where
    /// the text has no such line.
    pub fn line_len_chars(&self, line: usize) -> (r: Result<usize, StoreError>)
        ensures
            line < line_count(self@) ==> r is Ok && r->Ok_0 == line_len(self@, line as int),
            line >= line_count(self@) ==> r == Err::<usize, StoreError>(StoreError::OutOfRange),
    {
        if line < self.len_lines() {
            Ok(self.length_of_line(line))
        } else {
            Err(StoreError::OutOfRange)
        }
    }

    /// Puts `text` in before index `at`. Fails with `OutOfRange`, and changes
    /// nothing, where `at` is beyond the length.
    pub fn insert(&mut self, at: usize, text: &str) -> (r: Result<(), StoreError>)
        ensures
            at <= old(self)@.len() ==> r is Ok && final(self)@ == text_insert(
                old(self)@,
                at as int,
                text@,
            ),
            at > old(self)@.len() ==> r == Err::<(), StoreError>(StoreError::OutOfRange)
                && final(self)@ == old(self)@,
    {
        if at <= self.len_chars() {
            self.insert_str(at, text);
            Ok(())
        } else {
            Err(StoreError::OutOfRange)
        }
    }

    /// Takes out the chars in `start..end`. Fails with `OutOfRange`, and
    /// changes nothing, where the range is reversed or ends beyond the length.
    pub fn remove(&mut self, start: usize, end: usize) -> (r: Result<(), StoreError>)
        ensures
            start <= end <= old(self)@.len() ==> r is Ok && final(self)@ == text_remove(
                old(self)@,
                start as int,
                end as int,
            ),
            !(start <= end <= old(self)@.len()) ==> r == Err::<(), StoreError>(
                StoreError::OutOfRange,
            ) && final(self)@ == old(self)@,
    {
        if start <= end && end <= self.len_chars() {
            self.remove_range(start, end);
            Ok(())
        } else {
            Err(StoreError::OutOfRange)
        }
    }

    /// The chars in `start..end`, or `OutOfRange` where the range is reversed
    /// or ends beyond the length.
    pub fn slice(&self, start: usize, end: usize) -> (r: Result<String, StoreError>)
        ensures
            start <= end <= self@.len() ==> r is Ok && r->Ok_0@ == self@.subrange(
                start as int,
                end as int,
            ),
            !(start <= end <= self@.len()) ==> r is Err && r->Err_0 == StoreError::OutOfRange,
    {
        if start <= end && end <= self.len_chars() {
            Ok(self.text_of(start, end))
        } else {
            Err(StoreError::OutOfRange)
        }
    }
}

/// Putting text in and taking the same range out again gives the text back.
pub proof fn lemma_insert_then_remove(s: Seq<char>, at: int, ins: Seq<char>)
    requires
        0 <= at <= s.len(),
    ensures
        text_remove(text_insert(s, at, ins), at, at + ins.len()) == s,
{
    assert(text_remove(text_insert(s, at, ins), at, at + ins.len()) =~= s);
}

} // verus!
