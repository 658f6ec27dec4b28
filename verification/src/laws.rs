//! Properties of the buffer model that relate several steps.

use crate::lines::{
    break_width_before, crlf, lemma_break_width_before, lemma_breaks_monotone,
    lemma_line_of_bounds, lemma_line_of_within, lemma_line_start, lemma_line_start_monotone,
    line_count, line_len, line_of, line_start, sees,
};
use crate::store::{text_insert, text_remove};
use crate::classify::{char_type_spec, CharType};
use crate::highlight::lemma_corrections_keep_the_length;
use crate::model::{held, run_backward, run_forward, BufferState, HitTest};
use vstd::math::{max, min};
use vstd::prelude::*;

verus! {

/// Motion keeps a state valid: after any move of the caret, by keys or by
/// the mouse, the caret and the anchor lie within the text, and the caret is
/// not trailing at the end of the text.
pub proof fn lemma_motion_keeps_valid(
    v: BufferState,
    count: int,
    down: bool,
    extend: bool,
    hit: HitTest,
)
    requires
        v.valid(),
        0 <= count,
    ensures
        v.moved_left(count, extend).valid(),
        v.moved_right(count, extend).valid(),
        v.stepped_left(extend).valid(),
        v.stepped_right(extend).valid(),
        v.moved_left_by_word(extend).valid(),
        v.moved_right_by_word(extend).valid(),
        v.moved_vertically(down, extend).valid(),
        v.placed_at(hit).valid(),
        v.clicked(hit, extend).valid(),
        v.dragged(hit).valid(),
        v.double_clicked(hit).valid(),
        v.released().valid(),
        v.all_selected().valid(),
{
    lemma_vertical_move_lands_on_the_next_line(v, down, extend);
    lemma_line_of_bounds(v.text, v.caret());
    lemma_word_runs_stay_within(v);
    lemma_word_runs_stay_within(v.moved_left(1, extend));
    lemma_word_runs_stay_within(v.placed_at(hit));
}

/// A run of chars of one class ends within the text: the run ahead of the
/// caret is at most as long as the text behind the caret, and the run behind
/// the caret's position at most as long as the text before it.
pub proof fn lemma_word_runs_stay_within(v: BufferState)
    requires
        v.valid(),
    ensures
        0 <= v.word_run_forward() <= v.text.len() - v.caret(),
        0 <= v.word_run_backward() <= v.position,
{
    if v.position < v.text.len() {
        let class = char_type_spec(v.text[v.position]);
        lemma_run_forward_bound(v.text, v.caret(), class);
        lemma_run_backward_bound(v.text, v.position, class);
    }
}

proof fn lemma_run_forward_bound(s: Seq<char>, from: int, class: CharType)
    requires
        0 <= from <= s.len(),
    ensures
        0 <= run_forward(s, from, class) <= s.len() - from,
    decreases s.len() - from,
{
    if from < s.len() && char_type_spec(s[from]) == class {
        lemma_run_forward_bound(s, from + 1, class);
    }
}

proof fn lemma_run_backward_bound(s: Seq<char>, from: int, class: CharType)
    requires
        0 <= from <= s.len(),
    ensures
        0 <= run_backward(s, from, class) <= from,
    decreases from,
{
    if 0 < from && char_type_spec(s[from - 1]) == class {
        lemma_run_backward_bound(s, from - 1, class);
    }
}

/// Scrolling and the upkeep of the viewport keep a state valid.
pub proof fn lemma_viewport_steps_keep_valid(
    v: BufferState,
    n: int,
    max_lines: int,
    max_columns: int,
)
    requires
        v.valid(),
        0 <= n,
        0 <= max_lines,
        0 <= max_columns,
    ensures
        v.scrolled_down(n).valid(),
        v.scrolled_up(n).valid(),
        v.scrolled_left(n).valid(),
        v.scrolled_right(n).valid(),
        v.view_updated().valid(),
        v.column_tracked().valid(),
        v.window_refreshed().valid(),
        v.after_action().valid(),
        v.resized(max_lines, max_columns).valid(),
{
    lemma_line_of_bounds(v.text, v.caret());
    lemma_refreshed_window_is_consistent(v);
    lemma_refreshed_window_is_consistent(v.column_tracked());
    lemma_refreshed_window_is_consistent(
        BufferState {
            max_lines,
            max_columns,
            visible_lines: min(line_count(v.text), max_lines),
            ..v
        }.column_tracked(),
    );
}

/// Deleting the selection keeps a state valid, and leaves no selection.
pub proof fn lemma_selection_deleted_keeps_valid(v: BufferState)
    requires
        v.valid(),
    ensures
        v.selection_deleted().valid(),
        v.selection_deleted().text.len() <= v.text.len(),
        !v.selection_deleted().has_selection(),
        v.selection_deleted().version == v.version,
{
    if v.has_selection() {
        let lo = v.selection_start();
        let text = text_remove(v.text, lo, v.selection_end());
        assert(text.len() == v.text.len() - (v.selection_end() - lo));
        lemma_line_of_bounds(text, lo);
        lemma_corrections_keep_the_length(v.tokens, v.caret_line(), line_of(text, lo));
    }
}

/// Typing or pasting keeps a state valid, as long as the text still fits
/// the machine's index range.
pub proof fn lemma_insertion_keeps_valid(v: BufferState, ins: Seq<char>, c: char)
    requires
        v.valid(),
        v.text.len() + ins.len() <= usize::MAX,
        v.text.len() + 1 <= usize::MAX,
    ensures
        v.inserted(ins).valid(),
        v.inserted(ins).text.len() == v.selection_deleted().text.len() + ins.len(),
        v.inserted(ins).caret() == v.selection_start() + ins.len(),
        !v.inserted(ins).has_selection(),
        v.char_inserted(c).valid(),
        !v.char_inserted(c).has_selection(),
{
    lemma_selection_deleted_keeps_valid(v);
    let d = v.selection_deleted();
    let text = text_insert(d.text, d.caret(), ins);
    assert(text.len() == d.text.len() + ins.len());
    lemma_corrections_keep_the_length(
        d.tokens,
        d.caret_line(),
        line_of(text, d.caret() + ins.len()),
    );
    let one = text_insert(d.text, d.caret(), seq![c]);
    assert(one.len() == d.text.len() + 1);
    lemma_corrections_keep_the_length(d.tokens, d.caret_line(), d.caret_column());
}

/// A press of the return key keeps a state valid, as long as the text still
/// fits the machine's index range.
pub proof fn lemma_newline_keeps_valid(v: BufferState)
    requires
        v.valid(),
        v.text.len() + v.newline_text().len() <= usize::MAX,
    ensures
        v.newline_inserted().valid(),
{
    lemma_insertion_keeps_valid(v, v.newline_text(), ' ');
}

/// Deleting to the left or to the right of the caret, by a char or by a
/// word, and cutting keep a state valid.
pub proof fn lemma_deletion_keeps_valid(v: BufferState)
    requires
        v.valid(),
    ensures
        v.deleted_left().valid(),
        v.deleted_right().valid(),
        v.deleted_left_by_word().valid(),
        v.deleted_right_by_word().valid(),
        v.cut().valid(),
{
    lemma_selection_deleted_keeps_valid(v);
    lemma_line_of_bounds(v.text, v.caret());
    if !v.has_selection() {
        let p = v.caret();
        let line = v.caret_line();
        let previous = max(p - v.delete_left_width(), 0);
        let left = text_remove(v.text, previous, p);
        assert(left.len() == v.text.len() - (p - previous));
        lemma_corrections_keep_the_length(v.tokens, line, line_of(left, previous));
        let next = min(p + v.delete_right_width(), v.text.len() as int);
        if next >= p {
            let right = text_remove(v.text, p, next);
            assert(right.len() == v.text.len() - (next - p));
        }
        lemma_corrections_keep_the_length(v.tokens, line, max(line - 1, 0));
        lemma_word_runs_stay_within(v);
        lemma_word_runs_stay_within(v.moved_left(1, true));
        lemma_selection_deleted_keeps_valid(v.moved_right_by_word(true));
        lemma_selection_deleted_keeps_valid(v.moved_left_by_word(true));
        lemma_line_start(v.text, line);
        lemma_line_start(v.text, line + 1);
        lemma_line_start_monotone(v.text, line, line + 1);
        let from = line_start(v.text, line);
        let cut = text_remove(v.text, from, from + line_len(v.text, line));
        assert(cut.len() == v.text.len() - line_len(v.text, line));
    }
}

/// Fresh tokens and a new version keep a state valid.
pub proof fn lemma_tokens_and_version_keep_valid(v: BufferState, data: Seq<u32>)
    requires
        v.valid(),
    ensures
        v.tokens_replaced(data).valid(),
        v.version_bumped().valid(),
{
}

/// Moving the caret one char to the right and then one char to the left
/// brings it back to where it was, unless it stood at the end of the text,
/// where moving right does nothing. The anchor ends at the caret; so it is
/// restored too where nothing was selected.
pub proof fn lemma_right_then_left_restores(v: BufferState)
    requires
        v.valid(),
        v.caret() < v.text.len(),
    ensures
        v.moved_right(1, false).moved_left(1, false).caret() == v.caret(),
        v.moved_right(1, false).moved_left(1, false).anchor == v.caret(),
        !v.has_selection() ==> v.moved_right(1, false).moved_left(1, false).anchor == v.anchor,
        v.moved_right(1, false).moved_left(1, false).text == v.text,
{
}

/// A step to the right and a step back to the left, each taking a CRLF pair
/// as one, bring the caret back to where it was, unless it stood at the end
/// of the text or between the CR and the LF of a pair.
pub proof fn lemma_step_right_then_left_restores(v: BufferState)
    requires
        v.valid(),
        v.caret() < v.text.len(),
        !sees(v.text, v.caret() - 1, crlf()),
    ensures
        v.stepped_right(false).stepped_left(false).caret() == v.caret(),
        v.stepped_right(false).stepped_left(false).anchor == v.caret(),
        v.stepped_right(false).stepped_left(false).text == v.text,
{
    let p = v.caret();
    if sees(v.text, p, crlf()) {
        assert(v.text.subrange(p, p + 2) == crlf());
    } else {
        assert(v.stepped_right(false).caret() == p + 1);
    }
}

/// A CRLF pair is never entered: a caret that does not stand between the CR
/// and the LF of a pair does not stand between those of any pair after a
/// step to the left or to the right.
pub proof fn lemma_steps_keep_out_of_crlf(v: BufferState, extend: bool)
    requires
        v.valid(),
        !sees(v.text, v.caret() - 1, crlf()),
    ensures
        !sees(v.text, v.stepped_right(extend).caret() - 1, crlf()),
        !sees(v.text, v.stepped_left(extend).caret() - 1, crlf()),
{
    let p = v.caret();
    let s = v.text;
    if sees(s, p, crlf()) {
        assert(s.subrange(p, p + 2)[1] == '\n');
        if sees(s, p + 1, crlf()) {
            assert(s.subrange(p + 1, p + 3)[0] == '\r');
        }
    }
    if sees(s, p - 2, crlf()) {
        assert(s.subrange(p - 2, p)[0] == '\r');
        if sees(s, p - 3, crlf()) {
            assert(s.subrange(p - 3, p - 1)[1] == '\n');
        }
    }
}

/// Typing `ins` at the caret of a state without a selection, selecting back
/// over what was typed and deleting the selection gives back the text, and
/// leaves the caret and the anchor where the caret was.
pub proof fn lemma_insert_then_delete_restores(v: BufferState, ins: Seq<char>)
    requires
        v.valid(),
        !v.has_selection(),
    ensures
        v.inserted(ins).moved_left(ins.len() as int, true).selection_deleted().text == v.text,
        v.inserted(ins).moved_left(ins.len() as int, true).selection_deleted().caret()
            == v.caret(),
        v.inserted(ins).moved_left(ins.len() as int, true).selection_deleted().anchor
            == v.caret(),
{
    let a = v.inserted(ins);
    let b = a.moved_left(ins.len() as int, true);
    assert(a.text.len() == v.text.len() + ins.len());
    crate::store::lemma_insert_then_remove(v.text, v.caret(), ins);
    if ins.len() > 0 {
        assert(b.has_selection());
        assert(b.selection_start() == v.caret());
        assert(b.selection_end() == v.caret() + ins.len());
    } else {
        assert(a.text =~= v.text);
    }
}

/// Deleting the selection twice is the same as deleting it once.
pub proof fn lemma_delete_selection_idempotent(v: BufferState)
    requires
        v.valid(),
    ensures
        v.selection_deleted().selection_deleted() == v.selection_deleted(),
{
}

/// Once `update_view` has run and the window is recomputed, the caret's line
/// is one of the visible lines. This needs that the caret did not lie in a
/// stale part of the window: where its line was between the first and the
/// last visible line as recorded, it was also within the number of lines
/// shown from the first. Every recomputed window is such.
pub proof fn lemma_view_contains_caret(v: BufferState)
    requires
        v.valid(),
        v.top_line <= v.caret_line() <= v.bot_line ==> v.caret_line() <= held(
            v.top_line + max(v.visible_lines - 1, 0),
        ),
    ensures
        v.view_updated().window_refreshed().top_line <= v.caret_line(),
        v.caret_line() <= v.view_updated().window_refreshed().bot_line,
        v.view_updated().window_refreshed().caret_line() == v.caret_line(),
{
    lemma_line_of_bounds(v.text, v.caret());
    lemma_breaks_monotone(v.text, 0, v.caret());
}

/// A recomputed window has no stale part: `lemma_view_contains_caret` holds
/// of every state that `window_refreshed` gives.
pub proof fn lemma_refreshed_window_is_consistent(v: BufferState)
    requires
        v.valid(),
    ensures
        v.window_refreshed().valid(),
        v.window_refreshed().bot_line == held(
            v.window_refreshed().top_line + max(v.window_refreshed().visible_lines - 1, 0),
        ),
        v.window_refreshed().top_line < line_count(v.text),
{
    let lines = line_count(v.text);
    crate::lines::lemma_line_start(v.text, v.window_refreshed().top_line);
    if v.window_refreshed().bot_line < lines {
        crate::lines::lemma_line_start(v.text, v.window_refreshed().bot_line + 1);
    }
}

/// The document version never decreases: each editing step raises it by one.
pub proof fn lemma_edits_raise_version(v: BufferState, ins: Seq<char>, c: char)
    requires
        v.valid(),
    ensures
        v.inserted(ins).version == v.version + 1,
        v.char_inserted(c).version == v.version + 1,
        v.newline_inserted().version == v.version + 1,
        v.deleted_left().version == v.version + 1,
        v.deleted_right().version == v.version + 1,
        v.deleted_left_by_word().version == v.version + 1,
        v.deleted_right_by_word().version == v.version + 1,
        v.cut().version == v.version + 1,
{
}

/// The column on which a move up or down lands: the larger of the caret's
/// column and the remembered column, but at most the length of the target
/// line less the width of the line break between the two lines.
pub open spec fn landing_column(v: BufferState, down: bool) -> int {
    let target = if down {
        v.caret_line() + 1
    } else {
        v.caret_line() - 1
    };
    min(
        max(line_len(v.text, target) - break_width_before(v.text, max(v.caret_line(), target)), 0),
        max(v.column_memory, v.caret_column()),
    )
}

/// Moving up or down changes the caret's line by exactly one, except on the
/// first line when moving up and on the last when moving down, where nothing
/// changes. The caret lands on the column that it aimed for, the larger of
/// its column and the remembered one, or on the last column that the target
/// line offers, and remembers the column that it aimed for.
pub proof fn lemma_vertical_move_lands_on_the_next_line(v: BufferState, down: bool, extend: bool)
    requires
        v.valid(),
    ensures
        (!down && v.caret_line() == 0) || (down && v.caret_line() == line_count(v.text) - 1)
            ==> v.moved_vertically(down, extend) == v,
        !down && v.caret_line() > 0 ==> v.moved_vertically(down, extend).caret_line()
            == v.caret_line() - 1,
        down && v.caret_line() < line_count(v.text) - 1 ==> v.moved_vertically(
            down,
            extend,
        ).caret_line() == v.caret_line() + 1,
        v.moved_vertically(down, extend).caret_line() != v.caret_line() ==> v.moved_vertically(
            down,
            extend,
        ).caret_column() == landing_column(v, down) && v.moved_vertically(
            down,
            extend,
        ).column_memory == max(v.column_memory, v.caret_column()),
        0 <= v.moved_vertically(down, extend).caret() <= v.text.len(),
{
    let line = v.caret_line();
    lemma_line_of_bounds(v.text, v.caret());
    if !((!down && line == 0) || (down && line == line_count(v.text) - 1)) {
        let target = if down {
            line + 1
        } else {
            line - 1
        };
        let moved = v.moved_vertically(down, extend);
        lemma_line_start(v.text, target);
        lemma_line_start(v.text, target + 1);
        lemma_break_width_before(v.text, max(line, target));
        if target >= 1 {
            lemma_break_width_before(v.text, target);
        }
        lemma_line_start_monotone(v.text, target, target + 1);
        lemma_line_of_within(v.text, target, moved.caret());
    }
}

} // verus!
