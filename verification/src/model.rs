//! The mathematical model of a text buffer: its state as plain values, and
//! each editing and navigation step as a function from state to state.

use crate::classify::{char_type_spec, CharType};
use crate::digits::decimal_text;
use crate::events::{
    delete_event, full_event, insert_event, position_at, ChangeEventView, NotificationView,
    Position,
};
use crate::highlight::{
    grow_token_spec, lemma_token_line_monotone, shift_lines_spec, token_count, token_line,
    token_start, well_formed, Highlight,
};
use crate::lines::{
    break_width_before, column_of, crlf, line_count, line_len, line_of, line_start, sees,
    sees_before,
};
use crate::settings::{BracketPair, Language};
use crate::store::{text_insert, text_remove};
use vstd::math::{max, min};
use vstd::prelude::*;

verus! {

/// What a hit test of the text layout reports for a point: the char of the
/// visible text that the point falls on, counted from the first visible char,
/// whether the point lies on the trailing half of that char, and whether it
/// lies inside the text at all.
#[derive(Clone, Copy, PartialEq, Eq, Structural, Debug)]
pub struct HitTest {
    pub text_position: usize,
    pub is_trailing: bool,
    pub is_inside: bool,
}

/// A stretch of the visible text: where it starts, counted in chars from the
/// first visible char, and how long it is.
#[derive(Clone, Copy, PartialEq, Eq, Structural, Debug)]
pub struct TextRange {
    pub start: usize,
    pub length: usize,
}

/// The text of the line numbers of the lines from `first` to `last`: for
/// each line its number, counted from one, and a CRLF.
pub open spec fn line_numbers_text(first: int, last: int) -> Seq<char>
    decreases last - first + 1,
{
    if first > last {
        Seq::empty()
    } else {
        line_numbers_text(first, last - 1) + decimal_text((last + 1) as nat) + crlf()
    }
}

/// `x`, held at the largest index of the machine.
pub open spec fn held(x: int) -> int {
    min(x, usize::MAX as int)
}

/// `n` spaces.
pub open spec fn spaces(n: int) -> Seq<char> {
    Seq::new(max(n, 0) as nat, |i: int| ' ')
}

/// The number of chars from index `from` on that all have class `class`.
pub open spec fn run_forward(s: Seq<char>, from: int, class: CharType) -> int
    decreases s.len() - from,
{
    if 0 <= from < s.len() && char_type_spec(s[from]) == class {
        1 + run_forward(s, from + 1, class)
    } else {
        0
    }
}

/// The number of chars directly before index `from` that all have class `class`.
pub open spec fn run_backward(s: Seq<char>, from: int, class: CharType) -> int
    decreases from,
{
    if 0 < from <= s.len() && char_type_spec(s[from - 1]) == class {
        1 + run_backward(s, from - 1, class)
    } else {
        0
    }
}

/// The width of the white space that the text has from index `from` on,
/// where a space counts 1 and a tab `tab_width`.
pub open spec fn leading_whitespace(s: Seq<char>, from: int, tab_width: int) -> int
    decreases s.len() - from,
{
    if 0 <= from < s.len() && s[from] == ' ' {
        1 + leading_whitespace(s, from + 1, tab_width)
    } else if 0 <= from < s.len() && s[from] == '\t' {
        tab_width + leading_whitespace(s, from + 1, tab_width)
    } else {
        0
    }
}

/// The first pair at or after index `from` of `brackets` that `c` opens, or
/// the number of pairs where there is none.
pub open spec fn first_bracket(brackets: Seq<BracketPair>, c: char, from: int) -> int
    decreases brackets.len() - from,
{
    if from < 0 || from >= brackets.len() {
        brackets.len() as int
    } else if brackets[from].open == c {
        from
    } else {
        first_bracket(brackets, c, from + 1)
    }
}

/// The state of a text buffer.
pub struct BufferState {
    /// The document.
    pub text: Seq<char>,
    /// The char that the caret is at.
    pub position: int,
    /// Whether the caret sits on the trailing edge of that char.
    pub trailing: bool,
    /// The other end of the selection.
    pub anchor: int,
    /// The column that vertical motion aims for.
    pub column_memory: int,
    /// Whether a mouse drag is selecting.
    pub selecting: bool,
    /// The first visible line.
    pub top_line: int,
    /// The last visible line.
    pub bot_line: int,
    /// The first visible char.
    pub char_start: int,
    /// The end of the visible chars.
    pub char_end: int,
    /// The first visible column.
    pub column_offset: int,
    /// The number of lines shown.
    pub visible_lines: int,
    /// The number of lines that fit the text region.
    pub max_lines: int,
    /// The number of columns that fit the text region.
    pub max_columns: int,
    /// The version of the document.
    pub version: int,
    /// The semantic tokens last received, locally corrected.
    pub tokens: Seq<u32>,
    /// The width of a tab stop in spaces.
    pub tab_width: int,
    /// The brackets that are closed automatically.
    pub brackets: Seq<BracketPair>,
    /// The name of the document.
    pub uri: Seq<char>,
    /// The language of the document.
    pub language: Language,
}

impl BufferState {
    /// The state of a buffer that was just opened on `text`: caret and anchor
    /// at the start, version 1, no tokens, and nothing shown yet.
    pub open spec fn opened(
        text: Seq<char>,
        uri: Seq<char>,
        language: Language,
        tab_width: int,
        brackets: Seq<BracketPair>,
    ) -> BufferState {
        BufferState {
            text,
            position: 0,
            trailing: false,
            anchor: 0,
            column_memory: 0,
            selecting: false,
            top_line: 0,
            bot_line: 0,
            char_start: 0,
            char_end: 0,
            column_offset: 0,
            visible_lines: 0,
            max_lines: 0,
            max_columns: 0,
            version: 1,
            tokens: Seq::empty(),
            tab_width,
            brackets,
            uri,
            language,
        }
    }

    /// The state after the mouse button was released: no drag is selecting.
    pub open spec fn released(self) -> BufferState {
        BufferState { selecting: false, ..self }
    }

    /// The state after the mouse moved: the caret is placed while a drag is
    /// selecting, and nothing changes otherwise.
    pub open spec fn dragged(self, hit: HitTest) -> BufferState {
        if self.selecting {
            self.placed_at(hit)
        } else {
            self
        }
    }

    /// The char index of the caret: its position, one further on where it
    /// sits on the trailing edge.
    pub open spec fn caret(self) -> int {
        self.position + if self.trailing {
            1int
        } else {
            0int
        }
    }

    /// The text fits the machine's index range, the caret and the anchor lie
    /// within the text, the token stream holds whole tokens, and the counters
    /// are not negative.
    pub open spec fn valid(self) -> bool {
        &&& self.text.len() <= usize::MAX
        &&& 0 <= self.position
        &&& self.caret() <= self.text.len()
        &&& 0 <= self.anchor <= self.text.len()
        &&& well_formed(self.tokens)
        &&& 1 <= self.version
        &&& 0 <= self.column_memory
        &&& 0 <= self.top_line
        &&& 0 <= self.bot_line
        &&& 0 <= self.char_start
        &&& 0 <= self.char_end
        &&& 0 <= self.column_offset
        &&& 0 <= self.visible_lines
        &&& 0 <= self.max_lines
        &&& 0 <= self.max_columns
        &&& 0 <= self.tab_width
    }

    /// Whether any text is selected.
    pub open spec fn has_selection(self) -> bool {
        self.caret() != self.anchor
    }

    /// Where the selection starts.
    pub open spec fn selection_start(self) -> int {
        min(self.caret(), self.anchor)
    }

    /// Where the selection ends.
    pub open spec fn selection_end(self) -> int {
        max(self.caret(), self.anchor)
    }

    /// The line that the caret is on.
    pub open spec fn caret_line(self) -> int {
        line_of(self.text, self.caret())
    }

    /// The column of the caret within its line.
    pub open spec fn caret_column(self) -> int {
        column_of(self.text, self.caret())
    }

    /// The caret moved `count` chars to the left, stopping at the start of the
    /// text. The trailing bit and the column memory are cleared; the anchor
    /// follows unless the selection is extended.
    pub open spec fn moved_left(self, count: int, extend: bool) -> BufferState {
        let p = max(self.caret() - count, 0);
        BufferState {
            position: p,
            trailing: false,
            column_memory: 0,
            anchor: if extend {
                self.anchor
            } else {
                p
            },
            ..self
        }
    }

    /// The caret moved `count` chars to the right, stopping at the end of the
    /// text. The trailing bit and the column memory are cleared; the anchor
    /// follows unless the selection is extended.
    pub open spec fn moved_right(self, count: int, extend: bool) -> BufferState {
        let p = min(self.caret() + count, self.text.len() as int);
        BufferState {
            position: p,
            trailing: false,
            column_memory: 0,
            anchor: if extend {
                self.anchor
            } else {
                p
            },
            ..self
        }
    }

    /// The caret moved one char to the left, or over both chars of a CRLF
    /// pair that ends at the caret.
    pub open spec fn stepped_left(self, extend: bool) -> BufferState {
        self.moved_left(
            if sees_before(self.text, self.caret(), crlf()) {
                2
            } else {
                1
            },
            extend,
        )
    }

    /// The caret moved one char to the right, or over both chars of a CRLF
    /// pair that starts at the caret.
    pub open spec fn stepped_right(self, extend: bool) -> BufferState {
        self.moved_right(
            if sees(self.text, self.caret(), crlf()) {
                2
            } else {
                1
            },
            extend,
        )
    }

    /// The caret moved to the right edge of the run of chars of one class
    /// that it stands in.
    pub open spec fn moved_right_by_word(self, extend: bool) -> BufferState {
        self.moved_right(self.word_run_forward(), extend)
    }

    /// The first visible line moved down by `n`, stopping at the last line.
    pub open spec fn scrolled_down(self, n: int) -> BufferState {
        BufferState {
            top_line: if self.top_line + n >= line_count(self.text) {
                line_count(self.text) - 1
            } else {
                self.top_line + n
            },
            ..self
        }
    }

    /// The first visible line moved up by `n`, stopping at the first line.
    pub open spec fn scrolled_up(self, n: int) -> BufferState {
        BufferState { top_line: max(self.top_line - n, 0), ..self }
    }

    /// The first visible column moved left by `n`, stopping at the first column.
    pub open spec fn scrolled_left(self, n: int) -> BufferState {
        BufferState { column_offset: max(self.column_offset - n, 0), ..self }
    }

    /// The first visible column moved right by `n`, as far as the caret's
    /// line reaches beyond the visible columns, and not at all where the
    /// line fits.
    pub open spec fn scrolled_right(self, n: int) -> BufferState {
        let length = line_len(self.text, self.caret_line());
        if length > self.max_columns {
            BufferState {
                column_offset: min(self.column_offset + n, length - self.max_columns),
                ..self
            }
        } else {
            self
        }
    }

    /// The caret moved one line up (`down` false) or down (`down` true). On
    /// the first line moving up changes nothing, and so does moving down on
    /// the last. Otherwise the caret aims for the larger of its column and
    /// the remembered column, which it then remembers, and lands on that
    /// column of the target line or at the end of the line's content. Where
    /// the target line lies outside the visible lines, the view scrolls one
    /// line towards it.
    pub open spec fn moved_vertically(self, down: bool, extend: bool) -> BufferState {
        let p = self.caret();
        let line = line_of(self.text, p);
        if (!down && line == 0) || (down && line == line_count(self.text) - 1) {
            self
        } else {
            let target = if down {
                line + 1
            } else {
                line - 1
            };
            let width = break_width_before(
                self.text,
                if down {
                    target
                } else {
                    line
                },
            );
            let target_length = max(line_len(self.text, target) - width, 0);
            let desired = max(self.column_memory, p - line_start(self.text, line));
            let q = line_start(self.text, target) + min(target_length, desired);
            let scrolled = if target > self.bot_line {
                self.scrolled_down(1)
            } else if target < self.top_line {
                self.scrolled_up(1)
            } else {
                self
            };
            BufferState {
                position: q,
                trailing: false,
                column_memory: desired,
                anchor: if extend {
                    self.anchor
                } else {
                    q
                },
                ..scrolled
            }
        }
    }

    /// The number of chars from the caret on that have the class of the char
    /// at the caret's position; 0 at the end of the text.
    pub open spec fn word_run_forward(self) -> int {
        if self.caret() >= self.text.len() {
            0
        } else {
            run_forward(self.text, self.caret(), char_type_spec(self.text[self.position]))
        }
    }

    /// The number of chars directly before the caret's position that have the
    /// class of the char at that position; 0 at the start and at the end of
    /// the text.
    pub open spec fn word_run_backward(self) -> int {
        if self.caret() == 0 || self.position >= self.text.len() {
            0
        } else {
            run_backward(self.text, self.position, char_type_spec(self.text[self.position]))
        }
    }

    /// The caret placed where a hit test found the mouse: at the hit char of
    /// the visible text, at most at the end of the text, where it cannot be
    /// trailing.
    pub open spec fn placed_at(self, hit: HitTest) -> BufferState {
        let p = min(self.char_start + hit.text_position, self.text.len() as int);
        BufferState { position: p, trailing: hit.is_trailing && p < self.text.len(), ..self }
    }

    /// The state after a click: the caret is placed, the anchor follows it
    /// unless the selection is extended, a drag begins and the column memory
    /// is cleared.
    pub open spec fn clicked(self, hit: HitTest, extend: bool) -> BufferState {
        let placed = self.placed_at(hit);
        BufferState {
            anchor: if extend {
                placed.anchor
            } else {
                placed.caret()
            },
            selecting: true,
            column_memory: 0,
            ..placed
        }
    }

    /// The state after a double click: the caret is placed, then the run of
    /// chars of one class around it is selected, anchor at its left edge and
    /// caret at its right.
    pub open spec fn double_clicked(self, hit: HitTest) -> BufferState {
        let placed = self.placed_at(hit);
        BufferState {
            position: placed.position + placed.word_run_forward(),
            anchor: placed.position - placed.word_run_backward(),
            ..placed
        }
    }

    /// The whole text selected, anchor at the start and caret at the end.
    pub open spec fn all_selected(self) -> BufferState {
        BufferState { anchor: 0, trailing: false, position: self.text.len() as int, ..self }
    }

    /// The view after `update_view`: where the caret's line lies outside the
    /// visible lines, it becomes the first visible line.
    pub open spec fn view_updated(self) -> BufferState {
        let line = self.caret_line();
        if line > self.bot_line || line < self.top_line {
            BufferState { top_line: line, ..self }
        } else {
            self
        }
    }

    /// The first visible column after it has followed the caret: raised just
    /// enough to keep the caret's column within the visible columns, lowered
    /// to the caret's column where the caret is left of it.
    pub open spec fn column_tracked(self) -> BufferState {
        let column = self.caret_column();
        if column > self.max_columns && self.column_offset < column - self.max_columns {
            BufferState { column_offset: column - self.max_columns, ..self }
        } else if self.column_offset > column {
            BufferState { column_offset: column, ..self }
        } else {
            self
        }
    }

    /// The window recomputed from the first visible line: that line is held
    /// within the document, the last visible line follows from the number of
    /// lines shown (held within the machine's index range), and the visible
    /// chars run from the start of the first visible line to the end of the
    /// last, or to the end of the document.
    pub open spec fn window_refreshed(self) -> BufferState {
        let lines = line_count(self.text);
        let top = if lines < self.top_line + 1 {
            lines - 1
        } else {
            self.top_line
        };
        let bot = held(top + max(self.visible_lines - 1, 0));
        BufferState {
            top_line: top,
            bot_line: bot,
            char_start: line_start(self.text, top),
            char_end: if bot >= lines {
                self.text.len() as int
            } else {
                line_start(self.text, bot + 1)
            },
            ..self
        }
    }

    /// The state after any action: the first visible column follows the
    /// caret, then the window is recomputed.
    pub open spec fn after_action(self) -> BufferState {
        self.column_tracked().window_refreshed()
    }

    /// The state after the text region changed to fit `max_lines` lines and
    /// `max_columns` columns.
    pub open spec fn resized(self, max_lines: int, max_columns: int) -> BufferState {
        BufferState {
            max_lines,
            max_columns,
            visible_lines: min(line_count(self.text), max_lines),
            ..self
        }.after_action()
    }

    /// The state with the next document version.
    pub open spec fn version_bumped(self) -> BufferState {
        BufferState { version: self.version + 1, ..self }
    }

    /// The state after the selected text was deleted: the caret and the
    /// anchor are at the start of what was selected, the tokens below the
    /// caret's old line move with the text, and the view follows the caret.
    /// Without a selection nothing changes.
    pub open spec fn selection_deleted(self) -> BufferState {
        if !self.has_selection() {
            self
        } else {
            let lo = self.selection_start();
            let text = text_remove(self.text, lo, self.selection_end());
            BufferState {
                text,
                position: lo,
                anchor: lo,
                trailing: false,
                tokens: shift_lines_spec(self.tokens, self.caret_line(), line_of(text, lo)),
                ..self
            }.view_updated()
        }
    }

    /// The state after `ins` was put in at the caret of a state without a
    /// selection: the caret and the anchor are behind the new text, and the
    /// tokens are corrected by `tokens`.
    pub open spec fn text_put_in(self, ins: Seq<char>, tokens: Seq<u32>) -> BufferState {
        let text = text_insert(self.text, self.caret(), ins);
        BufferState { text, tokens, ..self }.moved_right(ins.len() as int, false)
    }

    /// The state after `ins` was typed or pasted: the selection, if any, is
    /// deleted, `ins` is put in at the caret, the caret and the anchor are
    /// behind it, the tokens below the caret's old line move by the lines
    /// that came in, and the version is the next one.
    pub open spec fn inserted(self, ins: Seq<char>) -> BufferState {
        let d = self.selection_deleted();
        let text = text_insert(d.text, d.caret(), ins);
        d.text_put_in(
            ins,
            shift_lines_spec(d.tokens, d.caret_line(), line_of(text, d.caret() + ins.len())),
        ).version_bumped()
    }

    /// The state after the single char `c` was typed: as `inserted`, but the
    /// token that ended at the caret grows by one instead.
    pub open spec fn char_inserted(self, c: char) -> BufferState {
        let d = self.selection_deleted();
        d.text_put_in(
            seq![c],
            grow_token_spec(d.tokens, d.caret_line(), d.caret_column()),
        ).version_bumped()
    }

    /// The white space that a new line below the caret's line starts with.
    pub open spec fn indentation(self) -> Seq<char> {
        spaces(
            leading_whitespace(self.text, line_start(self.text, self.caret_line()), self.tab_width),
        )
    }

    /// The index in the bracket table of the pair that the char before the
    /// caret opens, or the size of the table where there is none.
    pub open spec fn bracket_before_caret(self) -> int {
        if self.caret() == 0 {
            self.brackets.len() as int
        } else {
            first_bracket(self.brackets, self.text[self.caret() - 1], 0)
        }
    }

    /// The text that a press of the return key puts in: a line break and the
    /// indentation; behind an opening bracket also one more tab stop, and
    /// then a second line break, the indentation and the closing bracket.
    pub open spec fn newline_text(self) -> Seq<char> {
        let k = self.bracket_before_caret();
        if k < self.brackets.len() {
            crlf() + self.indentation() + spaces(self.tab_width) + crlf() + self.indentation()
                + seq![self.brackets[k].close]
        } else {
            crlf() + self.indentation()
        }
    }

    /// The state after a press of the return key: `newline_text` is inserted,
    /// and behind an opening bracket the caret goes back to the end of the
    /// indented line in the middle.
    pub open spec fn newline_inserted(self) -> BufferState {
        let after = self.inserted(self.newline_text());
        if self.bracket_before_caret() < self.brackets.len() {
            after.moved_left(self.indentation().len() as int + 3, false)
        } else {
            after
        }
    }

    /// How many chars a deletion to the right of the caret takes: 2 for a
    /// CRLF pair, a tab stop for a run of spaces of that width, else 1.
    pub open spec fn delete_right_width(self) -> int {
        if sees(self.text, self.caret(), crlf()) {
            2
        } else if sees(self.text, self.caret(), spaces(self.tab_width)) {
            self.tab_width
        } else {
            1
        }
    }

    /// How many chars a deletion to the left of the caret takes: 2 for a CRLF
    /// pair, a tab stop for a run of spaces of that width, else 1.
    pub open spec fn delete_left_width(self) -> int {
        if sees_before(self.text, self.caret(), crlf()) {
            2
        } else if sees_before(self.text, self.caret(), spaces(self.tab_width)) {
            self.tab_width
        } else {
            1
        }
    }

    /// The state after the delete key: a selection is deleted; without one
    /// the chars to the right of the caret go, as many as
    /// `delete_right_width` says and the text has, and where a line break
    /// went, the tokens below the caret's line move up by one. The version
    /// is the next one.
    pub open spec fn deleted_right(self) -> BufferState {
        if self.has_selection() {
            self.selection_deleted().version_bumped()
        } else {
            let p = self.caret();
            let next = min(p + self.delete_right_width(), self.text.len() as int);
            let line = self.caret_line();
            BufferState {
                text: text_remove(self.text, p, next),
                tokens: if line_of(self.text, next) > line {
                    shift_lines_spec(self.tokens, line, max(line - 1, 0))
                } else {
                    self.tokens
                },
                ..self
            }.version_bumped()
        }
    }

    /// The state after the backspace key: a selection is deleted; without
    /// one the chars to the left of the caret go, as many as
    /// `delete_left_width` says and the text has, the caret and the anchor
    /// are where they began, and the tokens below the caret's old line move
    /// with the text. The version is the next one.
    pub open spec fn deleted_left(self) -> BufferState {
        if self.has_selection() {
            self.selection_deleted().version_bumped()
        } else {
            let p = self.caret();
            let previous = max(p - self.delete_left_width(), 0);
            let text = text_remove(self.text, previous, p);
            BufferState {
                text,
                position: previous,
                anchor: previous,
                trailing: false,
                column_memory: 0,
                tokens: shift_lines_spec(self.tokens, self.caret_line(), line_of(text, previous)),
                ..self
            }.version_bumped()
        }
    }

    /// The state after the word to the right of the caret was deleted: a
    /// selection is deleted; without one the run of chars of one class from
    /// the caret on is selected and deleted. The version is the next one.
    pub open spec fn deleted_right_by_word(self) -> BufferState {
        if self.has_selection() {
            self.selection_deleted().version_bumped()
        } else {
            self.moved_right_by_word(true).selection_deleted().version_bumped()
        }
    }

    /// The caret moved one char to the left and then on to the left edge of
    /// the run of chars of one class that it then stands in.
    pub open spec fn moved_left_by_word(self, extend: bool) -> BufferState {
        let stepped = self.moved_left(1, extend);
        stepped.moved_left(stepped.word_run_backward(), extend)
    }

    /// The state after the word to the left of the caret was deleted: a
    /// selection is deleted; without one the caret moves left by a word,
    /// selecting, and the selection is deleted. The version is the next one.
    pub open spec fn deleted_left_by_word(self) -> BufferState {
        if self.has_selection() {
            self.selection_deleted().version_bumped()
        } else {
            self.moved_left_by_word(true).selection_deleted().version_bumped()
        }
    }

    /// The state after a cut: a selection is deleted; without one the
    /// caret's whole line goes, line break included, the caret and the
    /// anchor are at its start, and the tokens below it move up by one.
    /// The version is the next one.
    pub open spec fn cut(self) -> BufferState {
        if self.has_selection() {
            self.selection_deleted().version_bumped()
        } else {
            let line = self.caret_line();
            let from = line_start(self.text, line);
            BufferState {
                text: text_remove(self.text, from, from + line_len(self.text, line)),
                position: from,
                anchor: from,
                trailing: false,
                tokens: shift_lines_spec(self.tokens, line, max(line - 1, 0)),
                ..self
            }.version_bumped()
        }
    }

    /// The state with the tokens of a fresh server response: the response
    /// replaces the stream, and a response that does not hold whole tokens
    /// leaves no tokens at all.
    pub open spec fn tokens_replaced(self, data: Seq<u32>) -> BufferState {
        BufferState {
            tokens: if well_formed(data) {
                data
            } else {
                Seq::empty()
            },
            ..self
        }
    }

    /// The event of the deletion of the selected text: from the place of its
    /// start to the place of its end, both in the text before the deletion.
    pub open spec fn deletion_event(self) -> ChangeEventView {
        delete_event(
            position_at(self.text, self.selection_start()),
            position_at(self.text, self.selection_end()),
        )
    }

    /// The events of `inserted` and `char_inserted`: the deletion of the
    /// selection, where there is one, then the insertion of `ins` at the
    /// place that the caret has once the selection is gone.
    pub open spec fn insertion_events(self, ins: Seq<char>) -> Seq<ChangeEventView> {
        let d = self.selection_deleted();
        let put_in = insert_event(ins, position_at(d.text, d.caret()));
        if self.has_selection() {
            seq![self.deletion_event(), put_in]
        } else {
            seq![put_in]
        }
    }

    /// The event of `deleted_right`: the deletion of the selection, or else
    /// of what lay between the caret and the end of what was taken, both
    /// places in the text before the deletion.
    pub open spec fn delete_right_event(self) -> ChangeEventView {
        if self.has_selection() {
            self.deletion_event()
        } else {
            let p = self.caret();
            let next = min(p + self.delete_right_width(), self.text.len() as int);
            delete_event(position_at(self.text, p), position_at(self.text, next))
        }
    }

    /// The event of `deleted_left`: the deletion of the selection, or else of
    /// what lay between the new place of the caret, taken in the text after
    /// the deletion, and its old place, taken in the text before.
    pub open spec fn delete_left_event(self) -> ChangeEventView {
        if self.has_selection() {
            self.deletion_event()
        } else {
            let p = self.caret();
            let previous = max(p - self.delete_left_width(), 0);
            delete_event(
                position_at(text_remove(self.text, previous, p), previous),
                position_at(self.text, p),
            )
        }
    }

    /// The event of `deleted_right_by_word`.
    pub open spec fn delete_right_by_word_event(self) -> ChangeEventView {
        if self.has_selection() {
            self.deletion_event()
        } else {
            self.moved_right_by_word(true).deletion_event()
        }
    }

    /// The event of `deleted_left_by_word`.
    pub open spec fn delete_left_by_word_event(self) -> ChangeEventView {
        if self.has_selection() {
            self.deletion_event()
        } else {
            self.moved_left_by_word(true).deletion_event()
        }
    }

    /// The event of `cut`: the deletion of the selection, or else of the
    /// caret's line, from its start to the start of the next line.
    pub open spec fn cut_event(self) -> ChangeEventView {
        if self.has_selection() {
            self.deletion_event()
        } else {
            delete_event(
                Position { line: self.caret_line() as usize, character: 0 },
                Position { line: (self.caret_line() + 1) as usize, character: 0 },
            )
        }
    }

    /// The batch that announces `changes` under the version of this state.
    pub open spec fn notification(self, changes: Seq<ChangeEventView>) -> NotificationView {
        NotificationView { uri: self.uri, version: self.version, changes }
    }

    /// The batch that announces the whole text under the version of this state.
    pub open spec fn full_notification(self) -> NotificationView {
        self.notification(seq![full_event(self.text)])
    }

    /// The text that a copy or a cut puts on the clipboard: the selected text
    /// or the caret's line, and nothing where that is empty.
    pub open spec fn copied(self) -> Option<Seq<char>> {
        if self.selection_text().len() == 0 {
            None
        } else {
            Some(self.selection_text())
        }
    }

    /// The text that is selected, or the caret's whole line where nothing is.
    pub open spec fn selection_text(self) -> Seq<char> {
        if self.has_selection() {
            self.text.subrange(self.selection_start(), self.selection_end())
        } else {
            let from = line_start(self.text, self.caret_line());
            self.text.subrange(from, from + line_len(self.text, self.caret_line()))
        }
    }

    /// The selection as the renderer draws it: relative to the first visible
    /// char, held at zero and at the end of the visible chars; `None` where
    /// nothing is selected.
    pub open spec fn selection_range(self) -> Option<TextRange> {
        if !self.has_selection() {
            None
        } else {
            let a = max(self.anchor - self.char_start, 0);
            let c = max(self.caret() - self.char_start, 0);
            let begin = min(min(a, c), self.char_end);
            let end = min(max(a, c), self.char_end);
            Some(TextRange { start: begin as usize, length: (end - begin) as usize })
        }
    }

    /// The caret's position within the visible text; `None` where the caret
    /// lies before the first visible char.
    pub open spec fn caret_in_view(self) -> Option<usize> {
        if self.position < self.char_start {
            None
        } else {
            Some((self.position - self.char_start) as usize)
        }
    }

    /// The visible text: the chars from `char_start` to `char_end`, both held
    /// within the text.
    pub open spec fn visible_text(self) -> Seq<char> {
        let from = min(self.char_start, self.text.len() as int);
        let to = min(max(self.char_end, from), self.text.len() as int);
        self.text.subrange(from, to)
    }

    /// The first and the last line that are shown and exist.
    pub open spec fn visible_line_range(self) -> (int, int) {
        (self.top_line, min(line_count(self.text) - 1, self.bot_line))
    }

    /// The last line whose tokens are decoded.
    pub open spec fn highlight_limit(self) -> int {
        min(line_count(self.text), self.bot_line)
    }

    /// Whether token `k` lies on a line that is shown.
    pub open spec fn token_visible(self, k: int) -> bool {
        self.top_line <= token_line(self.tokens, k) <= self.highlight_limit()
    }

    /// Token `k`, which is visible, as a highlight: its start is the start of
    /// its line plus its start column (held within the machine's index
    /// range), counted from the start of the first visible line.
    pub open spec fn highlight_of(self, k: int) -> Highlight {
        Highlight {
            start: (held(
                line_start(self.text, token_line(self.tokens, k)) + token_start(self.tokens, k),
            ) - line_start(self.text, self.top_line)) as usize,
            length: self.tokens[5 * k + 2],
            token_type: self.tokens[5 * k + 3],
            modifiers: self.tokens[5 * k + 4],
        }
    }

    /// The highlights of the visible ones among the first `k` tokens, in order.
    pub open spec fn highlights_upto(self, k: int) -> Seq<Highlight>
        decreases k,
    {
        if k <= 0 {
            Seq::empty()
        } else if self.token_visible(k - 1) {
            self.highlights_upto(k - 1).push(self.highlight_of(k - 1))
        } else {
            self.highlights_upto(k - 1)
        }
    }

    /// The highlights of all visible tokens, in order; none for a document
    /// in a language without a server.
    pub open spec fn semantic_highlights(self) -> Seq<Highlight> {
        if self.language == Language::Plain {
            Seq::empty()
        } else {
            self.highlights_upto(token_count(self.tokens))
        }
    }

    /// Once a token lies below the last decoded line, so do all after it:
    /// none of them adds a highlight.
    pub proof fn lemma_highlights_end(self, k: int, n: int)
        requires
            0 <= k <= n,
            token_line(self.tokens, k) > self.highlight_limit(),
        ensures
            self.highlights_upto(n) == self.highlights_upto(k),
        decreases n - k,
    {
        if k < n {
            self.lemma_highlights_end(k, n - 1);
            lemma_token_line_monotone(self.tokens, k, n - 1);
        }
    }
}

} // verus!
