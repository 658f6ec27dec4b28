//! The text buffer: a document with its caret, selection, viewport and
//! semantic tokens, and the operations that edit and navigate it.

use crate::classify::{get_char_type, CharSearchDirection, CharType};
use crate::digits::{decimal_digits, decimal_string, string_push};
use crate::events::{
    events_view, position_at, ChangeEvent, DidChangeNotification, DidOpenNotification, Position,
};
use crate::highlight::{
    grow_token_at_insert, shift_lines, token_count, token_line, token_start, Highlight,
};
use crate::lines::{
    break_width_before, column_of, crlf, lemma_line_start_monotone, line_count, line_of,
    line_start, sees, sees_before,
};
use crate::model::{
    first_bracket, leading_whitespace, line_numbers_text, run_backward, run_forward, spaces,
    BufferState, HitTest, TextRange,
};
use crate::settings::{BracketPair, Language, Settings};
use crate::store::SequenceStore;
use vstd::prelude::*;
use vstd::string::StrSliceExecFns;
use vstd::string::StringExecFns;

verus! {

/// The direction of a caret motion.
#[derive(Clone, Copy, PartialEq, Eq, Structural, Debug)]
pub enum SelectionMode {
    Left,
    Right,
    Down,
    Up,
}

/// The kind of mouse event that places the caret.
#[derive(Clone, Copy, PartialEq, Eq, Structural, Debug)]
pub enum MouseSelectionMode {
    Click,
    Move,
}

/// A document with its caret, selection, viewport and semantic tokens.
pub struct TextBuffer {
    buffer: SequenceStore,
    language: Language,
    uri: String,
    version: u64,
    tab_width: usize,
    brackets: Vec<BracketPair>,
    text_visible_line_count: usize,
    text_column_offset: usize,
    max_lines: usize,
    max_columns: usize,
    currently_selecting: bool,
    top_line: usize,
    bot_line: usize,
    absolute_char_pos_start: usize,
    absolute_char_pos_end: usize,
    caret_char_anchor: usize,
    caret_char_pos: usize,
    caret_is_trailing: bool,
    cached_char_offset: usize,
    semantic_tokens: Vec<u32>,
}

impl View for TextBuffer {
    type V = BufferState;

    closed spec fn view(&self) -> BufferState {
        BufferState {
            text: self.buffer@,
            position: self.caret_char_pos as int,
            trailing: self.caret_is_trailing,
            anchor: self.caret_char_anchor as int,
            column_memory: self.cached_char_offset as int,
            selecting: self.currently_selecting,
            top_line: self.top_line as int,
            bot_line: self.bot_line as int,
            char_start: self.absolute_char_pos_start as int,
            char_end: self.absolute_char_pos_end as int,
            column_offset: self.text_column_offset as int,
            visible_lines: self.text_visible_line_count as int,
            max_lines: self.max_lines as int,
            max_columns: self.max_columns as int,
            version: self.version as int,
            tokens: self.semantic_tokens@,
            tab_width: self.tab_width as int,
            brackets: self.brackets@,
            uri: self.uri@,
            language: self.language,
        }
    }
}

/// A string of `n` spaces.
pub fn spaces_string(n: usize) -> (s: String)
    ensures
        s@ == spaces(n as int),
{
    let mut s = String::new();
    let mut i: usize = 0;
    proof {
        reveal_strlit(" ");
    }
    while i < n
        invariant
            i <= n,
            s@ == spaces(i as int),
            " "@ == seq![' '],
        decreases n - i,
    {
        s.append(" ");
        i = i + 1;
        assert(s@ =~= spaces(i as int));
    }
    s
}

impl TextBuffer {
    /// Whether the buffer is well formed: its state is valid.
    pub open spec fn wf(&self) -> bool {
        self@.valid()
    }

    /// The char index of the caret.
    pub fn get_caret_absolute_pos(&self) -> (pos: usize)
        requires
            self.wf(),
        ensures
            pos == self@.caret(),
            pos <= self@.text.len(),
    {
        if self.caret_is_trailing {
            self.caret_char_pos + 1
        } else {
            self.caret_char_pos
        }
    }

    /// Scrolls down by `lines_per_roll` lines, at most to the last line.
    pub fn scroll_down(&mut self, lines_per_roll: usize)
        requires
            old(self).wf(),
        ensures
            final(self).wf(),
            final(self)@ == old(self)@.scrolled_down(lines_per_roll as int),
    {
        let lines: usize = self.buffer.len_lines();
        if lines_per_roll >= lines || self.top_line >= lines - lines_per_roll {
            self.top_line = lines - 1;
        } else {
            self.top_line = self.top_line + lines_per_roll;
        }
    }

    /// Scrolls up by `lines_per_roll` lines, at most to the first line.
    pub fn scroll_up(&mut self, lines_per_roll: usize)
        requires
            old(self).wf(),
        ensures
            final(self).wf(),
            final(self)@ == old(self)@.scrolled_up(lines_per_roll as int),
    {
        if self.top_line >= lines_per_roll {
            self.top_line = self.top_line - lines_per_roll;
        } else {
            self.top_line = 0;
        }
    }

    /// Scrolls left by `lines_per_roll` columns, at most to the first column.
    pub fn scroll_left(&mut self, lines_per_roll: usize)
        requires
            old(self).wf(),
        ensures
            final(self).wf(),
            final(self)@ == old(self)@.scrolled_left(lines_per_roll as int),
    {
        if self.text_column_offset >= lines_per_roll {
            self.text_column_offset = self.text_column_offset - lines_per_roll;
        } else {
            self.text_column_offset = 0;
        }
    }

    /// Scrolls right by `lines_per_roll` columns, at most until the end of
    /// the caret's line is in sight.
    pub fn scroll_right(&mut self, lines_per_roll: usize)
        requires
            old(self).wf(),
        ensures
            final(self).wf(),
            final(self)@ == old(self)@.scrolled_right(lines_per_roll as int),
    {
        let current_line: usize = self.get_current_line();
        let line_length: usize = self.buffer.length_of_line(current_line);
        if line_length > self.max_columns {
            let limit: usize = line_length - self.max_columns;
            if self.text_column_offset >= limit || lines_per_roll > limit
                - self.text_column_offset {
                self.text_column_offset = limit;
            } else {
                self.text_column_offset = self.text_column_offset + lines_per_roll;
            }
        }
    }

    /// The line that the caret is on.
    pub fn get_current_line(&self) -> (line: usize)
        requires
            self.wf(),
        ensures
            line == self@.caret_line(),
            line < line_count(self@.text),
    {
        self.buffer.line_of_char(self.get_caret_absolute_pos())
    }

    /// The width of the line break that ends directly before `line`: 2 for a
    /// CRLF pair, 1 for any single break, 0 at the start of the text.
    pub fn linebreaks_before_line(&self, line: usize) -> (width: usize)
        requires
            self.wf(),
        ensures
            width == break_width_before(self@.text, line as int),
            width <= 2,
    {
        self.buffer.linebreak_width_before(line)
    }

    /// Whether the text has `string` at the caret.
    pub fn see_chars(&self, string: &str) -> (found: bool)
        requires
            self.wf(),
        ensures
            found == sees(self@.text, self@.caret(), string@),
    {
        self.buffer.see_chars_at(self.get_caret_absolute_pos(), string)
    }

    /// Whether the text has `string` directly before the caret.
    pub fn see_prev_chars(&self, string: &str) -> (found: bool)
        requires
            self.wf(),
        ensures
            found == sees_before(self@.text, self@.caret(), string@),
    {
        self.buffer.see_prev_chars_at(self.get_caret_absolute_pos(), string)
    }

    /// The number of chars of one class that lie ahead of the caret
    /// (`Forward`) or behind it (`Backward`), the class being that of the
    /// char at the caret's position.
    pub fn get_boundary_char_count(&self, search_direction: CharSearchDirection) -> (count: usize)
        requires
            self.wf(),
        ensures
            search_direction == CharSearchDirection::Forward ==> count
                == self@.word_run_forward(),
            search_direction == CharSearchDirection::Backward ==> count
                == self@.word_run_backward(),
            search_direction == CharSearchDirection::Forward ==> self@.caret() + count
                <= self@.text.len(),
            search_direction == CharSearchDirection::Backward ==> count <= self@.position,
    {
        let caret: usize = self.get_caret_absolute_pos();
        let len: usize = self.buffer.len_chars();
        match search_direction {
            CharSearchDirection::Forward => {
                if caret == len {
                    return 0;
                }
                let class: CharType = get_char_type(self.buffer.char(self.caret_char_pos));
                let mut i: usize = caret;
                while i < len && get_char_type(self.buffer.char(i)) == class
                    invariant
                        caret <= i <= len,
                        len == self@.text.len(),
                        run_forward(self@.text, caret as int, class) == (i - caret) + run_forward(
                            self@.text,
                            i as int,
                            class,
                        ),
                    decreases len - i,
                {
                    i = i + 1;
                }
                i - caret
            },
            CharSearchDirection::Backward => {
                if caret == 0 || self.caret_char_pos >= len {
                    return 0;
                }
                let class: CharType = get_char_type(self.buffer.char(self.caret_char_pos));
                let from: usize = self.caret_char_pos;
                let mut i: usize = from;
                while i > 0 && get_char_type(self.buffer.char(i - 1)) == class
                    invariant
                        i <= from < len,
                        len == self@.text.len(),
                        run_backward(self@.text, from as int, class) == (from - i) + run_backward(
                            self@.text,
                            i as int,
                            class,
                        ),
                    decreases i,
                {
                    i = i - 1;
                }
                from - i
            },
        }
    }

    /// Moves the caret: `count` chars to the left or right, or one line up
    /// or down, whatever `count` is. The anchor follows the caret unless
    /// `extend_current_selection` is set.
    pub fn set_selection(
        &mut self,
        mode: SelectionMode,
        count: usize,
        extend_current_selection: bool,
    )
        requires
            old(self).wf(),
        ensures
            final(self).wf(),
            mode == SelectionMode::Left ==> final(self)@ == old(self)@.moved_left(
                count as int,
                extend_current_selection,
            ),
            mode == SelectionMode::Right ==> final(self)@ == old(self)@.moved_right(
                count as int,
                extend_current_selection,
            ),
            mode == SelectionMode::Up ==> final(self)@ == old(self)@.moved_vertically(
                false,
                extend_current_selection,
            ),
            mode == SelectionMode::Down ==> final(self)@ == old(self)@.moved_vertically(
                true,
                extend_current_selection,
            ),
    {
        let caret: usize = self.get_caret_absolute_pos();
        let len: usize = self.buffer.len_chars();
        match mode {
            SelectionMode::Left => {
                self.caret_is_trailing = false;
                self.caret_char_pos = if caret >= count {
                    caret - count
                } else {
                    0
                };
                self.cached_char_offset = 0;
            },
            SelectionMode::Right => {
                self.caret_is_trailing = false;
                self.caret_char_pos = if count >= len - caret {
                    len
                } else {
                    caret + count
                };
                self.cached_char_offset = 0;
            },
            SelectionMode::Up | SelectionMode::Down => {
                let down: bool = mode == SelectionMode::Down;
                let current_line: usize = self.buffer.line_of_char(caret);
                let lines: usize = self.buffer.len_lines();
                if (!down && current_line == 0) || (down && current_line == lines - 1) {
                    return ;
                }
                let target: usize = if down {
                    current_line + 1
                } else {
                    current_line - 1
                };
                let width: usize = self.linebreaks_before_line(
                    if down {
                        target
                    } else {
                        current_line
                    },
                );
                let full_length: usize = self.buffer.length_of_line(target);
                let target_length: usize = if full_length >= width {
                    full_length - width
                } else {
                    0
                };
                let current_offset: usize = caret - self.buffer.start_of_line(current_line);
                let desired: usize = if self.cached_char_offset >= current_offset {
                    self.cached_char_offset
                } else {
                    current_offset
                };
                let new_offset: usize = if target_length <= desired {
                    target_length
                } else {
                    desired
                };
                let target_start: usize = self.buffer.start_of_line(target);
                self.caret_is_trailing = false;
                self.caret_char_pos = target_start + new_offset;
                self.cached_char_offset = desired;
                if target > self.bot_line {
                    self.scroll_down(1);
                } else if target < self.top_line {
                    self.scroll_up(1);
                }
            },
        }
        if !extend_current_selection {
            self.caret_char_anchor = self.caret_char_pos;
        }
    }

    /// Moves the caret one char to the left, or over both chars of a CRLF pair.
    pub fn move_left(&mut self, shift_down: bool)
        requires
            old(self).wf(),
        ensures
            final(self).wf(),
            final(self)@ == old(self)@.stepped_left(shift_down),
    {
        let count: usize = if self.buffer.is_crlf_before(self.get_caret_absolute_pos()) {
            2
        } else {
            1
        };
        self.set_selection(SelectionMode::Left, count, shift_down);
    }

    /// Moves the caret one char to the right, or over both chars of a CRLF pair.
    pub fn move_right(&mut self, shift_down: bool)
        requires
            old(self).wf(),
        ensures
            final(self).wf(),
            final(self)@ == old(self)@.stepped_right(shift_down),
    {
        let count: usize = if self.buffer.is_crlf_at(self.get_caret_absolute_pos()) {
            2
        } else {
            1
        };
        self.set_selection(SelectionMode::Right, count, shift_down);
    }

    /// Moves the caret to the left edge of the word before it.
    pub fn move_left_by_word(&mut self, shift_down: bool)
        requires
            old(self).wf(),
        ensures
            final(self).wf(),
            final(self)@ == old(self)@.moved_left_by_word(shift_down),
    {
        self.set_selection(SelectionMode::Left, 1, shift_down);
        let count: usize = self.get_boundary_char_count(CharSearchDirection::Backward);
        self.set_selection(SelectionMode::Left, count, shift_down);
    }

    /// Moves the caret to the right edge of the run of chars of one class
    /// that it stands in.
    pub fn move_right_by_word(&mut self, shift_down: bool)
        requires
            old(self).wf(),
        ensures
            final(self).wf(),
            final(self)@ == old(self)@.moved_right_by_word(shift_down),
    {
        let count: usize = self.get_boundary_char_count(CharSearchDirection::Forward);
        self.set_selection(SelectionMode::Right, count, shift_down);
    }

    /// Opens a buffer on `text`, the content of the file at `path`, in a text
    /// region that fits `max_lines` lines and `max_columns` columns.
    pub fn new(
        path: &str,
        text: &str,
        language: Language,
        settings: Settings,
        max_lines: usize,
        max_columns: usize,
    ) -> (buffer: Self)
        ensures
            buffer.wf(),
            buffer@ == BufferState::opened(
                text@,
                "file:///"@ + path@,
                language,
                settings.tab_width as int,
                settings.brackets@,
            ).resized(max_lines as int, max_columns as int),
    {
        let store = SequenceStore::from_str(text);
        let len: usize = store.len_chars();
        let mut uri = "file:///".to_owned();
        uri.append(path);
        let mut buffer = TextBuffer {
            buffer: store,
            language,
            uri,
            version: 1,
            tab_width: settings.tab_width,
            brackets: settings.brackets,
            text_visible_line_count: 0,
            text_column_offset: 0,
            max_lines: 0,
            max_columns: 0,
            currently_selecting: false,
            top_line: 0,
            bot_line: 0,
            absolute_char_pos_start: 0,
            absolute_char_pos_end: 0,
            caret_char_anchor: 0,
            caret_char_pos: 0,
            caret_is_trailing: false,
            cached_char_offset: 0,
            semantic_tokens: Vec::new(),
        };
        assert(buffer@ == BufferState::opened(
            text@,
            "file:///"@ + path@,
            language,
            settings.tab_width as int,
            settings.brackets@,
        ));
        buffer.on_window_resize(max_lines, max_columns);
        buffer
    }

    /// The name of the document.
    pub fn get_uri(&self) -> (uri: String)
        ensures
            uri@ == self@.uri,
    {
        self.uri.clone()
    }

    /// The language of the document.
    pub fn language(&self) -> (language: Language)
        ensures
            language == self@.language,
    {
        self.language
    }

    /// The width of a tab stop in spaces.
    pub fn tab_width(&self) -> (width: usize)
        ensures
            width == self@.tab_width,
    {
        self.tab_width
    }

    /// The version of the document.
    pub fn version(&self) -> (version: u64)
        ensures
            version == self@.version,
    {
        self.version
    }

    /// Whether a mouse drag is selecting.
    pub fn currently_selecting(&self) -> (selecting: bool)
        ensures
            selecting == self@.selecting,
    {
        self.currently_selecting
    }

    /// The number of lines shown.
    pub fn text_visible_line_count(&self) -> (count: usize)
        ensures
            count == self@.visible_lines,
    {
        self.text_visible_line_count
    }

    /// The first visible column.
    pub fn text_column_offset(&self) -> (offset: usize)
        ensures
            offset == self@.column_offset,
    {
        self.text_column_offset
    }

    /// The first visible line.
    pub fn top_line(&self) -> (line: usize)
        ensures
            line == self@.top_line,
    {
        self.top_line
    }

    /// The last visible line.
    pub fn bot_line(&self) -> (line: usize)
        ensures
            line == self@.bot_line,
    {
        self.bot_line
    }

    /// The char range of the visible text: its first char and its end.
    pub fn visible_char_range(&self) -> (range: (usize, usize))
        ensures
            range.0 == self@.char_start,
            range.1 == self@.char_end,
    {
        (self.absolute_char_pos_start, self.absolute_char_pos_end)
    }

    /// The other end of the selection.
    pub fn caret_anchor(&self) -> (anchor: usize)
        ensures
            anchor == self@.anchor,
    {
        self.caret_char_anchor
    }

    /// Whether the caret sits on the trailing edge of its char.
    pub fn caret_is_trailing(&self) -> (trailing: bool)
        ensures
            trailing == self@.trailing,
    {
        self.caret_is_trailing
    }

    /// The number of chars in the document.
    pub fn len_chars(&self) -> (n: usize)
        ensures
            n == self@.text.len(),
    {
        self.buffer.len_chars()
    }

    /// The number of lines in the document.
    pub fn len_lines(&self) -> (n: usize)
        ensures
            n == line_count(self@.text),
    {
        self.buffer.len_lines()
    }

    /// The whole text of the document.
    pub fn text(&self) -> (text: String)
        ensures
            text@ == self@.text,
    {
        let len: usize = self.buffer.len_chars();
        let text = self.buffer.text_of(0, len);
        assert(self@.text.subrange(0, len as int) =~= self@.text);
        text
    }

    /// Places the caret where a hit test found the mouse.
    fn place_caret(&mut self, hit: HitTest)
        requires
            old(self).wf(),
        ensures
            final(self).wf(),
            final(self)@ == old(self)@.placed_at(hit),
    {
        let len: usize = self.buffer.len_chars();
        let start: usize = self.absolute_char_pos_start;
        let pos: usize = if start >= len || hit.text_position >= len - start {
            len
        } else {
            start + hit.text_position
        };
        self.caret_char_pos = pos;
        self.caret_is_trailing = hit.is_trailing && pos < len;
    }

    /// Places the caret for a mouse event: always for a click, for a move
    /// only while a drag is selecting.
    pub fn set_mouse_selection(&mut self, mode: MouseSelectionMode, hit: HitTest)
        requires
            old(self).wf(),
        ensures
            final(self).wf(),
            mode == MouseSelectionMode::Click ==> final(self)@ == old(self)@.placed_at(hit),
            mode == MouseSelectionMode::Move ==> final(self)@ == old(self)@.dragged(hit),
    {
        if mode == MouseSelectionMode::Click || self.currently_selecting {
            self.place_caret(hit);
        }
    }

    /// Handles a press of the left mouse button.
    pub fn left_click(&mut self, hit: HitTest, extend_current_selection: bool)
        requires
            old(self).wf(),
        ensures
            final(self).wf(),
            final(self)@ == old(self)@.clicked(hit, extend_current_selection),
    {
        self.set_mouse_selection(MouseSelectionMode::Click, hit);
        if !extend_current_selection {
            self.caret_char_anchor = self.get_caret_absolute_pos();
        }
        self.currently_selecting = true;
        self.cached_char_offset = 0;
    }

    /// Handles a double click: selects the run of chars of one class around
    /// the hit char.
    pub fn left_double_click(&mut self, hit: HitTest)
        requires
            old(self).wf(),
        ensures
            final(self).wf(),
            final(self)@ == old(self)@.double_clicked(hit),
    {
        self.set_mouse_selection(MouseSelectionMode::Click, hit);
        let left_count: usize = self.get_boundary_char_count(CharSearchDirection::Backward);
        let right_count: usize = self.get_boundary_char_count(CharSearchDirection::Forward);
        self.caret_char_anchor = self.caret_char_pos - left_count;
        self.caret_char_pos = self.caret_char_pos + right_count;
    }

    /// Handles the release of the left mouse button.
    pub fn left_release(&mut self)
        ensures
            final(self)@ == old(self)@.released(),
            old(self).wf() ==> final(self).wf(),
    {
        self.currently_selecting = false;
    }

    /// Selects the whole text.
    pub fn select_all(&mut self)
        requires
            old(self).wf(),
        ensures
            final(self).wf(),
            final(self)@ == old(self)@.all_selected(),
    {
        self.caret_char_anchor = 0;
        self.caret_is_trailing = false;
        self.caret_char_pos = self.buffer.len_chars();
    }

    /// Makes the caret's line the first visible line where it lies outside
    /// the visible lines.
    pub fn update_view(&mut self)
        requires
            old(self).wf(),
        ensures
            final(self).wf(),
            final(self)@ == old(self)@.view_updated(),
    {
        let current_line: usize = self.get_current_line();
        if current_line > self.bot_line || current_line < self.top_line {
            self.top_line = current_line;
        }
    }

    /// Lets the first visible column follow the caret.
    pub fn update_text_column_offset(&mut self)
        requires
            old(self).wf(),
        ensures
            final(self).wf(),
            final(self)@ == old(self)@.column_tracked(),
    {
        let caret: usize = self.get_caret_absolute_pos();
        let current_line: usize = self.buffer.line_of_char(caret);
        let current_column: usize = caret - self.buffer.start_of_line(current_line);
        if current_column > self.max_columns && self.text_column_offset < current_column
            - self.max_columns {
            self.text_column_offset = current_column - self.max_columns;
        } else if self.text_column_offset > current_column {
            self.text_column_offset = current_column;
        }
    }

    /// Recomputes the window from the first visible line.
    pub fn update_absolute_char_positions(&mut self)
        requires
            old(self).wf(),
        ensures
            final(self).wf(),
            final(self)@ == old(self)@.window_refreshed(),
    {
        let lines: usize = self.buffer.len_lines();
        if self.top_line >= lines {
            self.top_line = lines - 1;
        }
        let extra: usize = if self.text_visible_line_count >= 1 {
            self.text_visible_line_count - 1
        } else {
            0
        };
        self.bot_line = if extra > usize::MAX - self.top_line {
            usize::MAX
        } else {
            self.top_line + extra
        };
        self.absolute_char_pos_start = self.buffer.start_of_line(self.top_line);
        if self.bot_line >= lines {
            self.absolute_char_pos_end = self.buffer.len_chars();
        } else {
            self.absolute_char_pos_end = self.buffer.start_of_line(self.bot_line + 1);
        }
    }

    /// Brings the viewport up to date after any action.
    pub fn on_editor_action(&mut self)
        requires
            old(self).wf(),
        ensures
            final(self).wf(),
            final(self)@ == old(self)@.after_action(),
    {
        self.update_text_column_offset();
        self.update_absolute_char_positions();
    }

    /// Takes the number of lines and columns that fit the text region after
    /// the font changed.
    pub fn on_font_change(&mut self, max_lines: usize, max_columns: usize)
        requires
            old(self).wf(),
        ensures
            final(self).wf(),
            final(self)@ == old(self)@.resized(max_lines as int, max_columns as int),
    {
        self.on_window_resize(max_lines, max_columns);
    }

    /// Takes the number of lines and columns that fit the text region after
    /// the window changed its size.
    pub fn on_window_resize(&mut self, max_lines: usize, max_columns: usize)
        requires
            old(self).wf(),
        ensures
            final(self).wf(),
            final(self)@ == old(self)@.resized(max_lines as int, max_columns as int),
    {
        self.max_lines = max_lines;
        self.max_columns = max_columns;
        let lines: usize = self.buffer.len_lines();
        self.text_visible_line_count = if lines <= max_lines {
            lines
        } else {
            max_lines
        };
        self.update_text_column_offset();
        self.update_absolute_char_positions();
    }

    /// Takes the next document version and wraps `changes` into the batch
    /// that announces them.
    fn next_notification(&mut self, changes: Vec<ChangeEvent>) -> (n: DidChangeNotification)
        requires
            old(self).wf(),
            old(self)@.version < u64::MAX,
        ensures
            final(self).wf(),
            final(self)@ == old(self)@.version_bumped(),
            n@ == final(self)@.notification(events_view(changes@)),
    {
        self.version = self.version + 1;
        DidChangeNotification::new(self.uri.clone(), self.version, changes)
    }

    /// The batch that announces the whole text under the next document version.
    pub fn get_full_did_change_notification(&mut self) -> (n: DidChangeNotification)
        requires
            old(self).wf(),
            old(self)@.version < u64::MAX,
        ensures
            final(self).wf(),
            final(self)@ == old(self)@.version_bumped(),
            n@ == final(self)@.full_notification(),
    {
        let mut changes: Vec<ChangeEvent> = Vec::new();
        changes.push(ChangeEvent::new_full_event(self.text()));
        assert(events_view(changes@) =~= seq![crate::events::full_event(self@.text)]);
        self.next_notification(changes)
    }

    /// The announcement of the document as it stands to a language server.
    pub fn get_did_open_notification(&self) -> (n: DidOpenNotification)
        ensures
            n.uri@ == self@.uri,
            n.language_id@ == self@.language.identifier_spec(),
            n.version == self@.version,
            n.text@ == self@.text,
    {
        DidOpenNotification {
            uri: self.uri.clone(),
            language_id: String::from_str(self.language.identifier()),
            version: self.version,
            text: self.text(),
        }
    }

    /// Takes the tokens of a fresh server response in place of the old ones.
    /// A response that does not hold whole tokens leaves no tokens.
    pub fn update_semantic_tokens(&mut self, data: Vec<u32>)
        ensures
            final(self)@ == old(self)@.tokens_replaced(data@),
            old(self).wf() ==> final(self).wf(),
    {
        if data.len() % 5 == 0 {
            self.semantic_tokens = data;
        } else {
            self.semantic_tokens = Vec::new();
        }
    }

    /// The semantic tokens as they stand, in their stream form.
    pub fn semantic_tokens(&self) -> (tokens: &Vec<u32>)
        ensures
            tokens@ == self@.tokens,
    {
        &self.semantic_tokens
    }

    /// The place of char index `idx`, which lies within the text.
    fn place_of(&self, idx: usize) -> (place: Position)
        requires
            idx <= self@.text.len(),
        ensures
            place == position_at(self@.text, idx as int),
            place.line == line_of(self@.text, idx as int),
            place.character == column_of(self@.text, idx as int),
            place.line < line_count(self@.text),
    {
        let line: usize = self.buffer.line_of_char(idx);
        let column: usize = idx - self.buffer.start_of_line(line);
        Position { line, character: column }
    }

    /// Deletes the selected text and says what went. Without a selection
    /// nothing changes, and the event spans nothing.
    pub fn delete_selection(&mut self) -> (event: ChangeEvent)
        requires
            old(self).wf(),
        ensures
            final(self).wf(),
            final(self)@ == old(self)@.selection_deleted(),
            event@ == old(self)@.deletion_event(),
    {
        let caret: usize = self.get_caret_absolute_pos();
        let anchor: usize = self.caret_char_anchor;
        let lo: usize = if caret < anchor {
            caret
        } else {
            anchor
        };
        let hi: usize = if caret < anchor {
            anchor
        } else {
            caret
        };
        let start = self.place_of(lo);
        let end = self.place_of(hi);
        let event = ChangeEvent::new_delete_event(
            start.line,
            start.character,
            end.line,
            end.character,
        );
        if caret == anchor {
            return event;
        }
        let line: usize = self.buffer.line_of_char(caret);
        self.buffer.remove_range(lo, hi);
        self.caret_char_pos = lo;
        self.caret_char_anchor = lo;
        self.caret_is_trailing = false;
        let line_now: usize = self.buffer.line_of_char(lo);
        shift_lines(&mut self.semantic_tokens, line, line_now);
        self.update_view();
        event
    }

    /// Puts `chars` in at the caret of a buffer without a selection and moves
    /// the caret behind them.
    fn put_in(&mut self, chars: &str)
        requires
            old(self).wf(),
            !old(self)@.has_selection(),
        ensures
            final(self).wf(),
            final(self)@ == old(self)@.text_put_in(chars@, old(self)@.tokens),
    {
        let caret: usize = self.get_caret_absolute_pos();
        self.buffer.insert_str(caret, chars);
        let len: usize = self.buffer.len_chars();
        self.set_selection(SelectionMode::Right, chars.unicode_len(), false);
    }

    /// Types or pastes `chars`: deletes the selection, puts `chars` in at the
    /// caret and moves the caret behind them.
    pub fn insert_chars(&mut self, chars: &str) -> (n: DidChangeNotification)
        requires
            old(self).wf(),
            old(self)@.version < u64::MAX,
        ensures
            final(self).wf(),
            final(self)@ == old(self)@.inserted(chars@),
            n@ == final(self)@.notification(old(self)@.insertion_events(chars@)),
    {
        let mut changes: Vec<ChangeEvent> = Vec::new();
        if self.get_caret_absolute_pos() != self.caret_char_anchor {
            let deleted = self.delete_selection();
            changes.push(deleted);
        }
        let place = self.place_of(self.get_caret_absolute_pos());
        self.put_in(chars);
        let line_now: usize = self.get_current_line();
        shift_lines(&mut self.semantic_tokens, place.line, line_now);
        changes.push(
            ChangeEvent::new_insert_event(
                String::from_str(chars),
                place.line,
                place.character,
                place.line,
                place.character,
            ),
        );
        assert(events_view(changes@) =~= old(self)@.insertion_events(chars@));
        self.next_notification(changes)
    }

    /// Types the char with code `character`, of which the low eight bits
    /// count: deletes the selection, puts the char in at the caret and moves
    /// the caret behind it.
    pub fn insert_char(&mut self, character: u16) -> (n: DidChangeNotification)
        requires
            old(self).wf(),
            old(self)@.version < u64::MAX,
        ensures
            final(self).wf(),
            final(self)@ == old(self)@.char_inserted(((character % 256) as u8) as char),
            n@ == final(self)@.notification(
                old(self)@.insertion_events(seq![((character % 256) as u8) as char]),
            ),
    {
        let c: char = ((character % 256) as u8) as char;
        let mut text = String::new();
        string_push(&mut text, c);
        assert(text@ =~= seq![c]);
        let mut changes: Vec<ChangeEvent> = Vec::new();
        if self.get_caret_absolute_pos() != self.caret_char_anchor {
            let deleted = self.delete_selection();
            changes.push(deleted);
        }
        let place = self.place_of(self.get_caret_absolute_pos());
        self.put_in(text.as_str());
        grow_token_at_insert(&mut self.semantic_tokens, place.line, place.character);
        changes.push(
            ChangeEvent::new_insert_event(
                text,
                place.line,
                place.character,
                place.line,
                place.character,
            ),
        );
        assert(events_view(changes@) =~= old(self)@.insertion_events(seq![c]));
        self.next_notification(changes)
    }

    /// The white space that a new line below the caret's line starts with:
    /// as wide as the white space that the caret's line starts with, a tab
    /// counting as a tab stop.
    pub fn indentation(&self) -> (indent: String)
        requires
            self.wf(),
        ensures
            indent@ == self@.indentation(),
    {
        let line: usize = self.get_current_line();
        let start: usize = self.buffer.start_of_line(line);
        let len: usize = self.buffer.len_chars();
        let mut indent = String::new();
        let mut i: usize = start;
        let ghost mut width: int = 0;
        assert(indent@ =~= spaces(0));
        loop
            invariant
                start <= i <= len,
                len == self@.text.len(),
                0 <= width,
                indent@ == spaces(width),
                leading_whitespace(self@.text, start as int, self@.tab_width) == width
                    + leading_whitespace(self@.text, i as int, self@.tab_width),
                self.tab_width == self@.tab_width,
            ensures
                indent@ == spaces(leading_whitespace(self@.text, start as int, self@.tab_width)),
            decreases len - i,
        {
            if i >= len {
                break ;
            }
            let c: char = self.buffer.char(i);
            if c == ' ' {
                let ghost before = indent@;
                indent.append(spaces_string(1).as_str());
                proof {
                    assert(indent@ =~= spaces(width + 1));
                    width = width + 1;
                }
            } else if c == '\t' {
                indent.append(spaces_string(self.tab_width).as_str());
                proof {
                    assert(indent@ =~= spaces(width + self.tab_width));
                    width = width + self.tab_width;
                }
            } else {
                break ;
            }
            i = i + 1;
        }
        indent
    }

    /// The index in the bracket table of the first pair that `c` opens, or
    /// the size of the table where there is none.
    fn find_bracket(&self, c: char) -> (k: usize)
        ensures
            k == first_bracket(self@.brackets, c, 0),
            k <= self@.brackets.len(),
    {
        let mut k: usize = 0;
        while k < self.brackets.len()
            invariant
                k <= self.brackets.len(),
                self.brackets@ == self@.brackets,
                first_bracket(self@.brackets, c, 0) == first_bracket(self@.brackets, c, k as int),
            decreases self.brackets.len() - k,
        {
            if self.brackets[k].open == c {
                return k;
            }
            k = k + 1;
        }
        k
    }

    /// Handles the return key: starts a new line with the indentation of the
    /// caret's line. Behind an opening bracket of the bracket table the new
    /// line is indented by one more tab stop, the closing bracket follows on
    /// a line of its own, and the caret ends on the line in between.
    pub fn insert_newline(&mut self) -> (n: DidChangeNotification)
        requires
            old(self).wf(),
            old(self)@.version < u64::MAX,
        ensures
            final(self).wf(),
            final(self)@ == old(self)@.newline_inserted(),
            n@ == final(self)@.notification(
                old(self)@.insertion_events(old(self)@.newline_text()),
            ),
    {
        let indent = self.indentation();
        let caret: usize = self.get_caret_absolute_pos();
        let pairs: usize = self.brackets.len();
        let k: usize = if caret > 0 {
            self.find_bracket(self.buffer.char(caret - 1))
        } else {
            pairs
        };
        proof {
            reveal_strlit("\r\n");
            assert("\r\n"@ =~= crlf());
        }
        let mut text = String::from_str("\r\n");
        text.append(indent.as_str());
        if k < pairs {
            text.append(spaces_string(self.tab_width).as_str());
            text.append("\r\n");
            text.append(indent.as_str());
            string_push(&mut text, self.brackets[k].close);
            assert(text@ =~= old(self)@.newline_text());
            let n = self.insert_chars(text.as_str());
            let offset: usize = indent.unicode_len();
            self.set_selection(SelectionMode::Left, offset + 3, false);
            n
        } else {
            assert(text@ =~= old(self)@.newline_text());
            self.insert_chars(text.as_str())
        }
    }

    /// Wraps the deletion of the selection into a batch under the next version.
    fn delete_selection_notification(&mut self) -> (n: DidChangeNotification)
        requires
            old(self).wf(),
            old(self)@.version < u64::MAX,
        ensures
            final(self).wf(),
            final(self)@ == old(self)@.selection_deleted().version_bumped(),
            n@ == final(self)@.notification(seq![old(self)@.deletion_event()]),
    {
        let mut changes: Vec<ChangeEvent> = Vec::new();
        let deleted = self.delete_selection();
        changes.push(deleted);
        assert(events_view(changes@) =~= seq![old(self)@.deletion_event()]);
        self.next_notification(changes)
    }

    /// Handles the delete key: deletes the selection, or else the char to
    /// the right of the caret, a CRLF pair or a tab stop of spaces as one.
    pub fn delete_right(&mut self) -> (n: DidChangeNotification)
        requires
            old(self).wf(),
            old(self)@.version < u64::MAX,
        ensures
            final(self).wf(),
            final(self)@ == old(self)@.deleted_right(),
            n@ == final(self)@.notification(seq![old(self)@.delete_right_event()]),
    {
        let caret: usize = self.get_caret_absolute_pos();
        if caret != self.caret_char_anchor {
            return self.delete_selection_notification();
        }
        let offset: usize = if self.buffer.is_crlf_at(caret) {
            2
        } else if self.see_chars(spaces_string(self.tab_width).as_str()) {
            self.tab_width
        } else {
            1
        };
        let len: usize = self.buffer.len_chars();
        let next: usize = if offset >= len - caret {
            len
        } else {
            caret + offset
        };
        let start = self.place_of(caret);
        let end = self.place_of(next);
        self.buffer.remove_range(caret, next);
        if end.line > start.line {
            let above: usize = if start.line >= 1 {
                start.line - 1
            } else {
                0
            };
            shift_lines(&mut self.semantic_tokens, start.line, above);
        }
        let mut changes: Vec<ChangeEvent> = Vec::new();
        changes.push(
            ChangeEvent::new_delete_event(start.line, start.character, end.line, end.character),
        );
        assert(events_view(changes@) =~= seq![old(self)@.delete_right_event()]);
        self.next_notification(changes)
    }

    /// Deletes the selection, or else the run of chars of one class to the
    /// right of the caret.
    pub fn delete_right_by_word(&mut self) -> (n: DidChangeNotification)
        requires
            old(self).wf(),
            old(self)@.version < u64::MAX,
        ensures
            final(self).wf(),
            final(self)@ == old(self)@.deleted_right_by_word(),
            n@ == final(self)@.notification(seq![old(self)@.delete_right_by_word_event()]),
    {
        if self.get_caret_absolute_pos() != self.caret_char_anchor {
            return self.delete_selection_notification();
        }
        let count: usize = self.get_boundary_char_count(CharSearchDirection::Forward);
        self.set_selection(SelectionMode::Right, count, true);
        self.delete_selection_notification()
    }

    /// Handles the backspace key: deletes the selection, or else the char to
    /// the left of the caret, a CRLF pair or a tab stop of spaces as one.
    pub fn delete_left(&mut self) -> (n: DidChangeNotification)
        requires
            old(self).wf(),
            old(self)@.version < u64::MAX,
        ensures
            final(self).wf(),
            final(self)@ == old(self)@.deleted_left(),
            n@ == final(self)@.notification(seq![old(self)@.delete_left_event()]),
    {
        let caret: usize = self.get_caret_absolute_pos();
        if caret != self.caret_char_anchor {
            return self.delete_selection_notification();
        }
        let offset: usize = if self.buffer.is_crlf_before(caret) {
            2
        } else if self.see_prev_chars(spaces_string(self.tab_width).as_str()) {
            self.tab_width
        } else {
            1
        };
        let previous: usize = if caret >= offset {
            caret - offset
        } else {
            0
        };
        let end = self.place_of(caret);
        self.buffer.remove_range(previous, caret);
        self.caret_char_pos = previous;
        self.caret_char_anchor = previous;
        self.caret_is_trailing = false;
        self.cached_char_offset = 0;
        let start = self.place_of(previous);
        shift_lines(&mut self.semantic_tokens, end.line, start.line);
        let mut changes: Vec<ChangeEvent> = Vec::new();
        changes.push(
            ChangeEvent::new_delete_event(start.line, start.character, end.line, end.character),
        );
        assert(events_view(changes@) =~= seq![old(self)@.delete_left_event()]);
        self.next_notification(changes)
    }

    /// Deletes the selection, or else the word to the left of the caret.
    pub fn delete_left_by_word(&mut self) -> (n: DidChangeNotification)
        requires
            old(self).wf(),
            old(self)@.version < u64::MAX,
        ensures
            final(self).wf(),
            final(self)@ == old(self)@.deleted_left_by_word(),
            n@ == final(self)@.notification(seq![old(self)@.delete_left_by_word_event()]),
    {
        if self.get_caret_absolute_pos() != self.caret_char_anchor {
            return self.delete_selection_notification();
        }
        self.move_left_by_word(true);
        self.delete_selection_notification()
    }

    /// The text to hand to the clipboard: the selected text, or the caret's
    /// whole line where nothing is selected.
    pub fn get_selection_data(&self) -> (data: String)
        requires
            self.wf(),
        ensures
            data@ == self@.selection_text(),
    {
        let caret: usize = self.get_caret_absolute_pos();
        let anchor: usize = self.caret_char_anchor;
        if anchor > caret {
            self.buffer.text_of(caret, anchor)
        } else if anchor < caret {
            self.buffer.text_of(anchor, caret)
        } else {
            let line: usize = self.buffer.line_of_char(caret);
            let from: usize = self.buffer.start_of_line(line);
            let length: usize = self.buffer.length_of_line(line);
            self.buffer.text_of(from, from + length)
        }
    }

    /// The text that a copy puts on the clipboard: the selected text, or the
    /// caret's whole line where nothing is selected; `None` where that is
    /// empty, and the clipboard is left alone.
    pub fn copy_selection(&self) -> (data: Option<String>)
        requires
            self.wf(),
        ensures
            match data {
                Some(text) => Some(text@),
                None => None,
            } == self@.copied(),
    {
        let data = self.get_selection_data();
        if data.as_str().unicode_len() > 0 {
            Some(data)
        } else {
            None
        }
    }

    /// Cuts: deletes the selection, or else the caret's whole line. The text
    /// that goes is what `copy_selection` gave before the call.
    pub fn cut_selection(&mut self) -> (n: DidChangeNotification)
        requires
            old(self).wf(),
            old(self)@.version < u64::MAX,
        ensures
            final(self).wf(),
            final(self)@ == old(self)@.cut(),
            n@ == final(self)@.notification(seq![old(self)@.cut_event()]),
    {
        let caret: usize = self.get_caret_absolute_pos();
        if caret != self.caret_char_anchor {
            return self.delete_selection_notification();
        }
        let lines: usize = self.buffer.len_lines();
        let line: usize = self.buffer.line_of_char(caret);
        let from: usize = self.buffer.start_of_line(line);
        let length: usize = self.buffer.length_of_line(line);
        let above: usize = if line >= 1 {
            line - 1
        } else {
            0
        };
        shift_lines(&mut self.semantic_tokens, line, above);
        self.caret_char_pos = from;
        self.caret_is_trailing = false;
        self.caret_char_anchor = from;
        self.buffer.remove_range(from, from + length);
        let mut changes: Vec<ChangeEvent> = Vec::new();
        changes.push(ChangeEvent::new_delete_event(line, 0, line + 1, 0));
        assert(events_view(changes@) =~= seq![old(self)@.cut_event()]);
        self.next_notification(changes)
    }

    /// Pastes what the clipboard held: inserts the text, or does nothing
    /// where the clipboard gave none.
    pub fn paste(&mut self, clipboard: Option<&str>) -> (n: Option<DidChangeNotification>)
        requires
            old(self).wf(),
            old(self)@.version < u64::MAX,
        ensures
            final(self).wf(),
            clipboard is None ==> n is None && final(self)@ == old(self)@,
            clipboard is Some ==> n is Some && final(self)@ == old(self)@.inserted(
                clipboard->Some_0@,
            ) && n->Some_0@ == final(self)@.notification(
                old(self)@.insertion_events(clipboard->Some_0@),
            ),
    {
        match clipboard {
            Some(text) => Some(self.insert_chars(text)),
            None => None,
        }
    }

    /// The selection relative to the visible text, for drawing; `None` where
    /// nothing is selected.
    pub fn get_selection_range(&self) -> (range: Option<TextRange>)
        requires
            self.wf(),
        ensures
            range == self@.selection_range(),
    {
        let caret: usize = self.get_caret_absolute_pos();
        if caret == self.caret_char_anchor {
            return None;
        }
        let start: usize = self.absolute_char_pos_start;
        let a: usize = if self.caret_char_anchor >= start {
            self.caret_char_anchor - start
        } else {
            0
        };
        let c: usize = if caret >= start {
            caret - start
        } else {
            0
        };
        let low: usize = if a <= c {
            a
        } else {
            c
        };
        let high: usize = if a <= c {
            c
        } else {
            a
        };
        let begin: usize = if low <= self.absolute_char_pos_end {
            low
        } else {
            self.absolute_char_pos_end
        };
        let end: usize = if high <= self.absolute_char_pos_end {
            high
        } else {
            self.absolute_char_pos_end
        };
        Some(TextRange { start: begin, length: end - begin })
    }

    /// The caret's position within the visible text, for drawing; `None`
    /// where the caret lies before the first visible char.
    pub fn get_caret_text_position(&self) -> (position: Option<usize>)
        ensures
            position == self@.caret_in_view(),
    {
        if self.caret_char_pos < self.absolute_char_pos_start {
            None
        } else {
            Some(self.caret_char_pos - self.absolute_char_pos_start)
        }
    }

    /// The visible text.
    pub fn get_current_lines(&self) -> (text: String)
        ensures
            text@ == self@.visible_text(),
    {
        let len: usize = self.buffer.len_chars();
        let from: usize = if self.absolute_char_pos_start <= len {
            self.absolute_char_pos_start
        } else {
            len
        };
        let reach: usize = if self.absolute_char_pos_end >= from {
            self.absolute_char_pos_end
        } else {
            from
        };
        let to: usize = if reach <= len {
            reach
        } else {
            len
        };
        self.buffer.text_of(from, to)
    }

    /// The first and the last line that are shown and exist; the first is
    /// greater than the last where none is.
    pub fn get_visible_line_range(&self) -> (range: (usize, usize))
        ensures
            range.0 == self@.visible_line_range().0,
            range.1 == self@.visible_line_range().1,
    {
        let lines: usize = self.buffer.len_lines();
        let last: usize = if lines - 1 <= self.bot_line {
            lines - 1
        } else {
            self.bot_line
        };
        (self.top_line, last)
    }

    /// The text of the line numbers beside the visible lines: for each line
    /// that is shown and exists its number, counted from one, and a CRLF.
    pub fn get_line_numbers_layout(&self) -> (text: String)
        ensures
            text@ == line_numbers_text(
                self@.visible_line_range().0,
                self@.visible_line_range().1,
            ),
    {
        let range = self.get_visible_line_range();
        let lines: usize = self.buffer.len_lines();
        let mut text = String::new();
        if range.0 > range.1 {
            return text;
        }
        proof {
            reveal_strlit("\r\n");
            assert("\r\n"@ =~= crlf());
        }
        let mut i: usize = range.0;
        while i <= range.1
            invariant
                range.0 <= i <= range.1 + 1,
                range.1 < lines,
                "\r\n"@ == crlf(),
                text@ == line_numbers_text(range.0 as int, i - 1),
            decreases range.1 + 1 - i,
        {
            text.append(decimal_string(i + 1).as_str());
            text.append("\r\n");
            i = i + 1;
        }
        text
    }

    /// The number of decimal digits of `number`.
    pub fn get_digits_in_number(number: u32) -> (digits: u32)
        ensures
            digits == decimal_digits(number as nat),
            1 <= digits <= 10,
    {
        proof {
            reveal_with_fuel(decimal_digits, 11);
        }
        if number <= 9 {
            1
        } else if number <= 99 {
            2
        } else if number <= 999 {
            3
        } else if number <= 9999 {
            4
        } else if number <= 99999 {
            5
        } else if number <= 999999 {
            6
        } else if number <= 9999999 {
            7
        } else if number <= 99999999 {
            8
        } else if number <= 999999999 {
            9
        } else {
            10
        }
    }

    /// Decodes the semantic tokens on the visible lines into highlights.
    pub fn get_semantic_highlights(&self) -> (highlights: Vec<Highlight>)
        requires
            self.wf(),
        ensures
            highlights@ == self@.semantic_highlights(),
    {
        let mut highlights: Vec<Highlight> = Vec::new();
        if self.language == Language::Plain {
            return highlights;
        }
        let lines: usize = self.buffer.len_lines();
        let top_pos: usize = if self.top_line <= lines {
            self.buffer.start_of_line(self.top_line)
        } else {
            self.buffer.len_chars()
        };
        let limit: usize = if lines <= self.bot_line {
            lines
        } else {
            self.bot_line
        };
        let mut i: usize = 0;
        let mut line: u128 = 0;
        let mut start: u128 = 0;
        let ghost mut k: int = 0;
        let ghost t = self.semantic_tokens@;
        while i < self.semantic_tokens.len()
            invariant_except_break
                self.wf(),
                t == self@.tokens,
                t == self.semantic_tokens@,
                t.len() % 5 == 0,
                i == 5 * k,
                0 <= k <= token_count(t),
                line == token_line(t, k - 1),
                start == token_start(t, k - 1),
                line <= k * 0xFFFF_FFFF,
                start <= k * 0xFFFF_FFFF,
                lines == line_count(self@.text),
                limit == self@.highlight_limit(),
                top_pos == line_start(self@.text, self@.top_line),
                self.top_line == self@.top_line,
                highlights@ == self@.highlights_upto(k),
            ensures
                highlights@ == self@.highlights_upto(token_count(t)),
            decreases self.semantic_tokens.len() - i,
        {
            let delta_line: u32 = self.semantic_tokens[i];
            line = line + delta_line as u128;
            let delta_start: u32 = self.semantic_tokens[i + 1];
            if delta_line == 0 {
                start = start + delta_start as u128;
            } else {
                start = delta_start as u128;
            }
            if line > limit as u128 {
                proof {
                    self@.lemma_highlights_end(k, token_count(t));
                }
                break ;
            }
            if line >= self.top_line as u128 {
                let line_pos: usize = self.buffer.start_of_line(line as usize);
                let sum: u128 = line_pos as u128 + start;
                let reach: usize = if sum > usize::MAX as u128 {
                    usize::MAX
                } else {
                    sum as usize
                };
                proof {
                    lemma_line_start_monotone(self@.text, self@.top_line, line as int);
                }
                highlights.push(
                    Highlight {
                        start: reach - top_pos,
                        length: self.semantic_tokens[i + 2],
                        token_type: self.semantic_tokens[i + 3],
                        modifiers: self.semantic_tokens[i + 4],
                    },
                );
            }
            i = i + 5;
            proof {
                k = k + 1;
            }
        }
        highlights
    }
}

} // verus!
