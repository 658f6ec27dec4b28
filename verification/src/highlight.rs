//! Semantic highlight tokens in their delta-encoded stream form, and the two
//! local corrections that keep them close to right between server responses.
//!
//! A stream is a flat sequence of five numbers per token: the line, relative
//! to the token before; the start column, relative to the token before when
//! both lie on one line; the length; a type; and modifier bits.

use vstd::prelude::*;

verus! {

/// One highlighted stretch of the visible text: where it starts, counted in
/// chars from the start of the first visible line, how long it is, and the
/// token's type and modifier bits as the server sent them.
#[derive(Clone, Copy, PartialEq, Eq, Structural, Debug)]
pub struct Highlight {
    pub start: usize,
    pub length: u32,
    pub token_type: u32,
    pub modifiers: u32,
}

/// The number of whole tokens in the stream.
pub open spec fn token_count(t: Seq<u32>) -> int {
    t.len() as int / 5
}

/// The line of token `k`: the sum of the line deltas up to and including it.
pub open spec fn token_line(t: Seq<u32>, k: int) -> int
    decreases k + 1,
{
    if k < 0 {
        0
    } else {
        token_line(t, k - 1) + t[5 * k]
    }
}

/// The start column of token `k`: its own start delta where it opens a new
/// line, else the start of the token before plus its start delta.
pub open spec fn token_start(t: Seq<u32>, k: int) -> int
    decreases k + 1,
{
    if k < 0 {
        0
    } else if t[5 * k] != 0 {
        t[5 * k + 1] as int
    } else {
        token_start(t, k - 1) + t[5 * k + 1]
    }
}

/// The length of token `k`.
pub open spec fn token_length(t: Seq<u32>, k: int) -> int {
    t[5 * k + 2] as int
}

/// The first token at or after `from` whose line is greater than `line`, or
/// the number of tokens where there is none.
pub open spec fn first_token_beyond(t: Seq<u32>, line: int, from: int) -> int
    decreases token_count(t) - from,
{
    if from >= token_count(t) {
        token_count(t)
    } else if token_line(t, from) > line {
        from
    } else {
        first_token_beyond(t, line, from + 1)
    }
}

/// The first token at or after `from` that lies on `line` and ends at column
/// `column`, or the number of tokens where there is none.
pub open spec fn first_token_ending_at(t: Seq<u32>, line: int, column: int, from: int) -> int
    decreases token_count(t) - from,
{
    if from >= token_count(t) {
        token_count(t)
    } else if token_line(t, from) == line && token_start(t, from) + token_length(t, from)
        == column {
        from
    } else {
        first_token_ending_at(t, line, column, from + 1)
    }
}

/// `a + b`, held at the largest `u32`.
pub open spec fn saturating_add_u32(a: u32, b: int) -> u32 {
    if a + b > u32::MAX {
        u32::MAX
    } else {
        (a + b) as u32
    }
}

/// `a - b`, held at zero.
pub open spec fn saturating_sub_u32(a: u32, b: int) -> u32 {
    if a - b < 0 {
        0
    } else {
        (a - b) as u32
    }
}

/// The stream after an edit that moved the caret from line `before` to line
/// `after`: the line delta of the first token below line `before` grows or
/// shrinks by the difference, held within `u32`. Because the lines are
/// relative, every later token moves with it. The stream is unchanged where
/// the two lines are equal or no token lies below.
pub open spec fn shift_lines_spec(t: Seq<u32>, before: int, after: int) -> Seq<u32> {
    let k = first_token_beyond(t, before, 0);
    if after == before || k >= token_count(t) {
        t
    } else if after > before {
        t.update(5 * k, saturating_add_u32(t[5 * k], after - before))
    } else {
        t.update(5 * k, saturating_sub_u32(t[5 * k], before - after))
    }
}

/// The stream after one char was typed at `column` of `line`: the first token
/// on that line that ends exactly there grows by one, held within `u32`.
pub open spec fn grow_token_spec(t: Seq<u32>, line: int, column: int) -> Seq<u32> {
    let k = first_token_ending_at(t, line, column, 0);
    if k >= token_count(t) {
        t
    } else {
        t.update(5 * k + 2, saturating_add_u32(t[5 * k + 2], 1))
    }
}

/// A stream is decodable when it holds whole tokens only.
pub open spec fn well_formed(t: Seq<u32>) -> bool {
    t.len() % 5 == 0
}

/// Token lines never decrease along the stream.
pub proof fn lemma_token_line_monotone(t: Seq<u32>, a: int, b: int)
    requires
        -1 <= a <= b,
    ensures
        0 <= token_line(t, a) <= token_line(t, b),
    decreases b - a,
{
    if a < b {
        lemma_token_line_monotone(t, a, b - 1);
    } else {
        lemma_token_line_nonnegative(t, a);
    }
}

proof fn lemma_token_line_nonnegative(t: Seq<u32>, k: int)
    ensures
        0 <= token_line(t, k),
    decreases k + 1,
{
    if k >= 0 {
        lemma_token_line_nonnegative(t, k - 1);
    }
}

/// Every token before the one that `first_token_beyond` finds lies at or
/// above `line`, and the one found lies below it.
pub proof fn lemma_first_token_beyond(t: Seq<u32>, line: int, from: int)
    requires
        0 <= from <= token_count(t),
    ensures
        from <= first_token_beyond(t, line, from) <= token_count(t),
        first_token_beyond(t, line, from) < token_count(t) ==> token_line(
            t,
            first_token_beyond(t, line, from),
        ) > line,
        forall|k: int|
            from <= k < first_token_beyond(t, line, from) ==> #[trigger] token_line(t, k) <= line,
    decreases token_count(t) - from,
{
    if from < token_count(t) && token_line(t, from) <= line {
        lemma_first_token_beyond(t, line, from + 1);
    }
}

/// Both corrections leave the stream as long as it was, so whole tokens
/// stay whole tokens.
pub proof fn lemma_corrections_keep_the_length(t: Seq<u32>, a: int, b: int)
    requires
        well_formed(t),
    ensures
        shift_lines_spec(t, a, b).len() == t.len(),
        grow_token_spec(t, a, b).len() == t.len(),
        well_formed(shift_lines_spec(t, a, b)),
        well_formed(grow_token_spec(t, a, b)),
{
    lemma_first_token_beyond(t, a, 0);
    lemma_first_token_ending_at(t, a, b, 0);
    let first = first_token_beyond(t, a, 0);
    if first < token_count(t) {
        assert(5 * first + 4 < t.len());
    }
    let found = first_token_ending_at(t, a, b, 0);
    if found < token_count(t) {
        assert(5 * found + 4 < t.len());
    }
}

/// One correction of a line delta carries through the stream: after
/// `shift_lines_spec`, every token from the first one below line `before` on
/// lies `after - before` lines further down (or up), and every token before
/// it lies where it lay. This holds where the corrected delta fits `u32`
/// without being held at either end.
pub proof fn lemma_shift_lines_moves_the_tokens_below(
    t: Seq<u32>,
    before: int,
    after: int,
    k: int,
)
    requires
        well_formed(t),
        0 <= k < token_count(t),
        first_token_beyond(t, before, 0) < token_count(t) ==> 0 <= t[5 * first_token_beyond(
            t,
            before,
            0,
        )] + (after - before) <= u32::MAX,
    ensures
        k < first_token_beyond(t, before, 0) ==> token_line(shift_lines_spec(t, before, after), k)
            == token_line(t, k),
        k >= first_token_beyond(t, before, 0) ==> token_line(
            shift_lines_spec(t, before, after),
            k,
        ) == token_line(t, k) + (after - before),
    decreases k,
{
    let first = first_token_beyond(t, before, 0);
    let shifted = shift_lines_spec(t, before, after);
    lemma_first_token_beyond(t, before, 0);
    if k > 0 {
        lemma_shift_lines_moves_the_tokens_below(t, before, after, k - 1);
    }
    assert(5 * k + 4 < t.len());
    assert(token_line(t, -1) == 0 && token_line(shifted, -1) == 0);
    assert(token_line(t, k) == token_line(t, k - 1) + t[5 * k]);
    assert(token_line(shifted, k) == token_line(shifted, k - 1) + shifted[5 * k]);
    if after != before && first < token_count(t) {
        assert(5 * first + 4 < t.len());
        if k == first {
            assert(shifted[5 * k] == t[5 * k] + (after - before));
        } else {
            assert(shifted[5 * k] == t[5 * k]);
        }
    } else {
        assert(shifted == t);
    }
}

/// Growing a token changes no position: after `grow_token_spec` every token
/// lies on its line and starts at its column as before, and every token but
/// the one that grew has its length.
pub proof fn lemma_grow_token_keeps_the_positions(t: Seq<u32>, line: int, column: int, k: int)
    requires
        well_formed(t),
        0 <= k < token_count(t),
    ensures
        token_line(grow_token_spec(t, line, column), k) == token_line(t, k),
        token_start(grow_token_spec(t, line, column), k) == token_start(t, k),
        k != first_token_ending_at(t, line, column, 0) ==> token_length(
            grow_token_spec(t, line, column),
            k,
        ) == token_length(t, k),
        k == first_token_ending_at(t, line, column, 0) ==> token_length(
            grow_token_spec(t, line, column),
            k,
        ) == saturating_add_u32(t[5 * k + 2], 1),
    decreases k,
{
    let first = first_token_ending_at(t, line, column, 0);
    let grown = grow_token_spec(t, line, column);
    lemma_first_token_ending_at(t, line, column, 0);
    if k > 0 {
        lemma_grow_token_keeps_the_positions(t, line, column, k - 1);
    }
    assert(5 * k + 4 < t.len());
    assert(token_line(t, -1) == 0 && token_line(grown, -1) == 0);
    assert(token_start(t, -1) == 0 && token_start(grown, -1) == 0);
    assert(token_line(t, k) == token_line(t, k - 1) + t[5 * k]);
    assert(token_line(grown, k) == token_line(grown, k - 1) + grown[5 * k]);
    if first < token_count(t) {
        assert(5 * first + 4 < t.len());
        assert(grown[5 * k] == t[5 * k]);
        assert(grown[5 * k + 1] == t[5 * k + 1]);
        if k != first {
            assert(grown[5 * k + 2] == t[5 * k + 2]);
        }
    } else {
        assert(grown == t);
    }
}

/// The token that `first_token_ending_at` finds lies on `line` and ends at
/// `column`, and no token before it does.
pub proof fn lemma_first_token_ending_at(t: Seq<u32>, line: int, column: int, from: int)
    requires
        0 <= from <= token_count(t),
    ensures
        from <= first_token_ending_at(t, line, column, from) <= token_count(t),
        first_token_ending_at(t, line, column, from) < token_count(t) ==> token_line(
            t,
            first_token_ending_at(t, line, column, from),
        ) == line && token_start(t, first_token_ending_at(t, line, column, from)) + token_length(
            t,
            first_token_ending_at(t, line, column, from),
        ) == column,
        forall|k: int|
            from <= k < first_token_ending_at(t, line, column, from) ==> !(#[trigger] token_line(
                t,
                k,
            ) == line && token_start(t, k) + token_length(t, k) == column),
    decreases token_count(t) - from,
{
    if from < token_count(t) && !(token_line(t, from) == line && token_start(t, from)
        + token_length(t, from) == column) {
        lemma_first_token_ending_at(t, line, column, from + 1);
    }
}

/// Adds `amount` to `value` without leaving `u32`.
fn add_held(value: u32, amount: usize) -> (r: u32)
    ensures
        r == saturating_add_u32(value, amount as int),
{
    if amount > (u32::MAX - value) as usize {
        u32::MAX
    } else {
        value + amount as u32
    }
}

/// Takes `amount` from `value` without leaving `u32`.
fn sub_held(value: u32, amount: usize) -> (r: u32)
    ensures
        r == saturating_sub_u32(value, amount as int),
{
    if amount > value as usize {
        0
    } else {
        value - amount as u32
    }
}

/// Corrects the stream for an edit that moved the caret from line
/// `line_before_edit` to line `line_after_edit`.
pub fn shift_lines(tokens: &mut Vec<u32>, line_before_edit: usize, line_after_edit: usize)
    requires
        well_formed(old(tokens)@),
    ensures
        final(tokens)@ == shift_lines_spec(
            old(tokens)@,
            line_before_edit as int,
            line_after_edit as int,
        ),
        well_formed(final(tokens)@),
{
    if line_after_edit == line_before_edit {
        return ;
    }
    let ghost t = tokens@;
    let mut i: usize = 0;
    let mut line: u128 = 0;
    let ghost mut k: int = 0;
    while i < tokens.len()
        invariant
            tokens@ == t,
            t == old(tokens)@,
            t.len() % 5 == 0,
            i == 5 * k,
            0 <= k <= token_count(t),
            line == token_line(t, k - 1),
            line <= k * 0xFFFF_FFFF,
            first_token_beyond(t, line_before_edit as int, 0) == first_token_beyond(
                t,
                line_before_edit as int,
                k,
            ),
        decreases tokens.len() - i,
    {
        let delta_line: u32 = tokens[i];
        line = line + delta_line as u128;
        if line > line_before_edit as u128 {
            let changed: u32 = if line_after_edit > line_before_edit {
                add_held(delta_line, line_after_edit - line_before_edit)
            } else {
                sub_held(delta_line, line_before_edit - line_after_edit)
            };
            tokens.set(i, changed);
            assert(tokens@ =~= shift_lines_spec(
                t,
                line_before_edit as int,
                line_after_edit as int,
            ));
            return ;
        }
        i = i + 5;
        proof {
            k = k + 1;
        }
    }
}

/// Corrects the stream for one char typed at `char_pos_in_line` of line
/// `line_pos`, so that a token that ended there takes the new char in.
pub fn grow_token_at_insert(tokens: &mut Vec<u32>, line_pos: usize, char_pos_in_line: usize)
    requires
        well_formed(old(tokens)@),
    ensures
        final(tokens)@ == grow_token_spec(old(tokens)@, line_pos as int, char_pos_in_line as int),
        well_formed(final(tokens)@),
{
    let ghost t = tokens@;
    let mut i: usize = 0;
    let mut line: u128 = 0;
    let mut start: u128 = 0;
    let ghost mut k: int = 0;
    while i < tokens.len()
        invariant
            tokens@ == t,
            t == old(tokens)@,
            t.len() % 5 == 0,
            i == 5 * k,
            0 <= k <= token_count(t),
            line == token_line(t, k - 1),
            start == token_start(t, k - 1),
            line <= k * 0xFFFF_FFFF,
            start <= k * 0xFFFF_FFFF,
            first_token_ending_at(t, line_pos as int, char_pos_in_line as int, 0)
                == first_token_ending_at(t, line_pos as int, char_pos_in_line as int, k),
        decreases tokens.len() - i,
    {
        let delta_line: u32 = tokens[i];
        line = line + delta_line as u128;
        let delta_start: u32 = tokens[i + 1];
        if delta_line == 0 {
            start = start + delta_start as u128;
        } else {
            start = delta_start as u128;
        }
        let length: u32 = tokens[i + 2];
        if line == line_pos as u128 && start + length as u128 == char_pos_in_line as u128 {
            tokens.set(i + 2, add_held(length, 1));
            assert(tokens@ =~= grow_token_spec(t, line_pos as int, char_pos_in_line as int));
            return ;
        }
        i = i + 5;
        proof {
            k = k + 1;
        }
    }
}

} // verus!
