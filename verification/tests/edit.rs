use editor_core::buffer::{SelectionMode, TextBuffer};
use editor_core::events::{ChangeEvent, Position, Span};
use editor_core::model::HitTest;
use editor_core::settings::{BracketPair, Language, Settings};

fn open(text: &str) -> TextBuffer {
    TextBuffer::new("src/main.cpp", text, Language::Cpp, Settings::default(), 10, 80)
}

fn span(start_line: usize, start_char: usize, end_line: usize, end_char: usize) -> Option<Span> {
    Some(Span {
        start: Position { line: start_line, character: start_char },
        end: Position { line: end_line, character: end_char },
    })
}

#[test]
fn event_constructors() {
    let insert = ChangeEvent::new_insert_event("x".to_string(), 2, 3, 2, 3);
    assert_eq!(insert.text, "x");
    assert_eq!(insert.range, span(2, 3, 2, 3));
    let delete = ChangeEvent::new_delete_event(1, 0, 3, 4);
    assert_eq!(delete.text, "");
    assert_eq!(delete.range, span(1, 0, 3, 4));
    let full = ChangeEvent::new_full_event("all".to_string());
    assert_eq!(full.text, "all");
    assert_eq!(full.range, None);
}

#[test]
fn inserting_a_char_reports_where_it_went() {
    let mut buffer = open("ab\ncd\nefgh\nij");
    buffer.set_selection(SelectionMode::Right, 9, false);
    let n = buffer.insert_chars("x");
    assert_eq!(buffer.text(), "ab\ncd\nefgxh\nij");
    assert_eq!(buffer.get_caret_absolute_pos(), 10);
    assert_eq!(buffer.caret_anchor(), 10);
    assert_eq!(n.uri, "file:///src/main.cpp");
    assert_eq!(n.version, 2);
    assert_eq!(n.changes.len(), 1);
    assert_eq!(n.changes[0].text, "x");
    assert_eq!(n.changes[0].range, span(2, 3, 2, 3));
}

#[test]
fn deleting_a_selection_over_lines_reports_its_span() {
    let mut buffer = open("a\nbcd\nef\nghi");
    buffer.set_selection(SelectionMode::Right, 3, false);
    buffer.set_selection(SelectionMode::Right, 8, true);
    assert_eq!(buffer.caret_anchor(), 3);
    assert_eq!(buffer.get_caret_absolute_pos(), 11);
    let event = buffer.delete_selection();
    assert_eq!(event.text, "");
    assert_eq!(event.range, span(1, 1, 3, 2));
    assert_eq!(buffer.text(), "a\nbi");
    assert_eq!(buffer.get_caret_absolute_pos(), 3);
    assert_eq!(buffer.caret_anchor(), 3);
    assert_eq!(buffer.version(), 1);
}

#[test]
fn deleting_a_backward_selection_gives_the_same() {
    let mut buffer = open("a\nbcd\nef\nghi");
    buffer.set_selection(SelectionMode::Right, 11, false);
    buffer.set_selection(SelectionMode::Left, 8, true);
    assert_eq!(buffer.caret_anchor(), 11);
    assert_eq!(buffer.get_caret_absolute_pos(), 3);
    let event = buffer.delete_selection();
    assert_eq!(event.range, span(1, 1, 3, 2));
    assert_eq!(buffer.text(), "a\nbi");
    assert_eq!(buffer.get_caret_absolute_pos(), 3);
    assert_eq!(buffer.caret_anchor(), 3);
}

#[test]
fn deleting_without_a_selection_changes_nothing() {
    let mut buffer = open("hello\nworld");
    buffer.left_click(HitTest { text_position: 7, is_trailing: true, is_inside: true }, false);
    let event = buffer.delete_selection();
    assert_eq!(event.text, "");
    assert_eq!(event.range, span(1, 2, 1, 2));
    assert_eq!(buffer.text(), "hello\nworld");
    assert_eq!(buffer.get_caret_absolute_pos(), 8);
    assert!(buffer.caret_is_trailing());
    assert_eq!(buffer.caret_anchor(), 8);
    assert_eq!(buffer.version(), 1);
}

#[test]
fn deleting_a_selection_twice_is_deleting_it_once() {
    let mut buffer = open("hello world");
    buffer.set_selection(SelectionMode::Right, 6, true);
    buffer.delete_selection();
    assert_eq!(buffer.text(), "world");
    let event = buffer.delete_selection();
    assert_eq!(event.range, span(0, 0, 0, 0));
    assert_eq!(buffer.text(), "world");
    assert_eq!(buffer.get_caret_absolute_pos(), 0);
    assert_eq!(buffer.caret_anchor(), 0);
}

#[test]
fn typing_over_a_selection_reports_both_events() {
    let mut buffer = open("hello world");
    buffer.set_selection(SelectionMode::Right, 6, false);
    buffer.set_selection(SelectionMode::Right, 5, true);
    let n = buffer.insert_chars("there");
    assert_eq!(buffer.text(), "hello there");
    assert_eq!(buffer.get_caret_absolute_pos(), 11);
    assert_eq!(buffer.caret_anchor(), 11);
    assert_eq!(n.version, 2);
    assert_eq!(n.changes.len(), 2);
    assert_eq!(n.changes[0].text, "");
    assert_eq!(n.changes[0].range, span(0, 6, 0, 11));
    assert_eq!(n.changes[1].text, "there");
    assert_eq!(n.changes[1].range, span(0, 6, 0, 6));
}

#[test]
fn the_caret_moves_by_chars_not_bytes() {
    let mut buffer = open("ab");
    buffer.set_selection(SelectionMode::Right, 1, false);
    buffer.insert_chars("äöü");
    assert_eq!(buffer.text(), "aäöüb");
    assert_eq!(buffer.get_caret_absolute_pos(), 4);
    assert_eq!(buffer.caret_anchor(), 4);
}

#[test]
fn insert_then_select_back_and_delete_restores_text_and_caret() {
    let original = "fn main() {\r\n    let x = 1;\r\n}\r\n";
    for at in [0usize, 5, 12, 13, 32] {
        for ins in ["x", "two\nlines", "\r\n", "ü", ""] {
            let mut buffer = open(original);
            buffer.set_selection(SelectionMode::Right, at, false);
            buffer.insert_chars(ins);
            let n = ins.chars().count();
            assert_eq!(buffer.get_caret_absolute_pos(), at + n);
            buffer.set_selection(SelectionMode::Left, n, true);
            buffer.delete_selection();
            assert_eq!(buffer.text(), original);
            assert_eq!(buffer.get_caret_absolute_pos(), at);
            assert_eq!(buffer.caret_anchor(), at);
        }
    }
}

#[test]
fn insert_char_takes_the_low_byte() {
    let mut buffer = open("ac");
    buffer.set_selection(SelectionMode::Right, 1, false);
    let n = buffer.insert_char(98);
    assert_eq!(buffer.text(), "abc");
    assert_eq!(buffer.get_caret_absolute_pos(), 2);
    assert_eq!(n.version, 2);
    assert_eq!(n.changes.len(), 1);
    assert_eq!(n.changes[0].text, "b");
    assert_eq!(n.changes[0].range, span(0, 1, 0, 1));
    let n = buffer.insert_char(0x0141);
    assert_eq!(buffer.text(), "abAc");
    assert_eq!(n.version, 3);
    let n = buffer.insert_char(0xE9);
    assert_eq!(buffer.text(), "abAéc");
    assert_eq!(n.changes[0].text, "é");
}

#[test]
fn insert_char_replaces_a_selection() {
    let mut buffer = open("hello");
    buffer.set_selection(SelectionMode::Right, 1, false);
    buffer.set_selection(SelectionMode::Right, 3, true);
    let n = buffer.insert_char(117);
    assert_eq!(buffer.text(), "huo");
    assert_eq!(n.changes.len(), 2);
    assert_eq!(n.changes[0].range, span(0, 1, 0, 4));
    assert_eq!(n.changes[1].range, span(0, 1, 0, 1));
    assert_eq!(n.changes[1].text, "u");
}

#[test]
fn a_new_line_keeps_the_indentation() {
    let mut buffer = open("    foo");
    buffer.set_selection(SelectionMode::Right, 7, false);
    assert_eq!(buffer.indentation(), "    ");
    let n = buffer.insert_newline();
    assert_eq!(buffer.text(), "    foo\r\n    ");
    assert_eq!(buffer.get_caret_absolute_pos(), 13);
    assert_eq!(n.changes.len(), 1);
    assert_eq!(n.changes[0].text, "\r\n    ");
    assert_eq!(n.changes[0].range, span(0, 7, 0, 7));
    assert_eq!(n.version, 2);
}

#[test]
fn a_tab_indents_by_a_tab_stop() {
    let mut buffer = open("\t x");
    buffer.set_selection(SelectionMode::Right, 3, false);
    assert_eq!(buffer.indentation(), "     ");
    buffer.insert_newline();
    assert_eq!(buffer.text(), "\t x\r\n     ");
}

#[test]
fn a_new_line_behind_an_opening_bracket_closes_it() {
    let mut buffer = open("fn x() {");
    buffer.set_selection(SelectionMode::Right, 8, false);
    let n = buffer.insert_newline();
    assert_eq!(buffer.text(), "fn x() {\r\n    \r\n}");
    assert_eq!(buffer.get_caret_absolute_pos(), 14);
    assert_eq!(buffer.caret_anchor(), 14);
    assert_eq!(buffer.get_current_line(), 1);
    assert_eq!(n.changes.len(), 1);
    assert_eq!(n.changes[0].text, "\r\n    \r\n}");
    assert_eq!(n.changes[0].range, span(0, 8, 0, 8));
}

#[test]
fn an_indented_bracket_indents_both_new_lines() {
    let mut buffer = open("  if (x) [");
    buffer.set_selection(SelectionMode::Right, 10, false);
    buffer.insert_newline();
    assert_eq!(buffer.text(), "  if (x) [\r\n      \r\n  ]");
    assert_eq!(buffer.get_caret_absolute_pos(), 18);
    assert_eq!(buffer.get_current_line(), 1);
}

#[test]
fn the_bracket_table_is_configured() {
    let settings = Settings {
        tab_width: 2,
        brackets: vec![BracketPair { open: '<', close: '>' }],
        scroll_lines_per_roll: 3,
        scroll_lines_per_mousemove: 1,
    };
    let mut buffer = TextBuffer::new("a.txt", "a<", Language::Plain, settings.clone(), 10, 80);
    buffer.set_selection(SelectionMode::Right, 2, false);
    buffer.insert_newline();
    assert_eq!(buffer.text(), "a<\r\n  \r\n>");
    assert_eq!(buffer.get_caret_absolute_pos(), 6);
    let mut other = TextBuffer::new("a.txt", "a(", Language::Plain, settings, 10, 80);
    other.set_selection(SelectionMode::Right, 2, false);
    other.insert_newline();
    assert_eq!(other.text(), "a(\r\n");
}

#[test]
fn default_settings() {
    let settings = Settings::default();
    assert_eq!(settings.tab_width, 4);
    assert_eq!(
        settings.brackets,
        vec![
            BracketPair { open: '(', close: ')' },
            BracketPair { open: '{', close: '}' },
            BracketPair { open: '[', close: ']' },
        ]
    );
    assert_eq!(settings.scroll_lines_per_roll, 3);
    assert_eq!(settings.scroll_lines_per_mousemove, 1);
}

#[test]
fn backspace_takes_a_crlf_as_one() {
    let mut buffer = open("ab\r\ncd");
    buffer.set_selection(SelectionMode::Right, 4, false);
    let n = buffer.delete_left();
    assert_eq!(buffer.text(), "abcd");
    assert_eq!(buffer.get_caret_absolute_pos(), 2);
    assert_eq!(buffer.caret_anchor(), 2);
    assert_eq!(n.version, 2);
    assert_eq!(n.changes.len(), 1);
    assert_eq!(n.changes[0].text, "");
    assert_eq!(n.changes[0].range, span(0, 2, 1, 0));
}

#[test]
fn backspace_takes_a_tab_stop_of_spaces_as_one() {
    let mut buffer = open("     x");
    buffer.set_selection(SelectionMode::Right, 5, false);
    let n = buffer.delete_left();
    assert_eq!(buffer.text(), " x");
    assert_eq!(buffer.get_caret_absolute_pos(), 1);
    assert_eq!(n.changes[0].range, span(0, 1, 0, 5));
    buffer.delete_left();
    assert_eq!(buffer.text(), "x");
    assert_eq!(buffer.get_caret_absolute_pos(), 0);
}

#[test]
fn backspace_takes_one_char() {
    let mut buffer = open("héllo");
    buffer.set_selection(SelectionMode::Right, 2, false);
    let n = buffer.delete_left();
    assert_eq!(buffer.text(), "hllo");
    assert_eq!(buffer.get_caret_absolute_pos(), 1);
    assert_eq!(n.changes[0].range, span(0, 1, 0, 2));
}

#[test]
fn backspace_at_the_start_deletes_nothing() {
    let mut buffer = open("abc");
    let n = buffer.delete_left();
    assert_eq!(buffer.text(), "abc");
    assert_eq!(buffer.get_caret_absolute_pos(), 0);
    assert_eq!(n.version, 2);
    assert_eq!(n.changes[0].range, span(0, 0, 0, 0));
}

#[test]
fn backspace_deletes_a_selection() {
    let mut buffer = open("hello world");
    buffer.set_selection(SelectionMode::Right, 5, true);
    let n = buffer.delete_left();
    assert_eq!(buffer.text(), " world");
    assert_eq!(n.changes.len(), 1);
    assert_eq!(n.changes[0].range, span(0, 0, 0, 5));
    assert_eq!(n.version, 2);
}

#[test]
fn delete_takes_a_crlf_as_one() {
    let mut buffer = open("ab\r\ncd");
    buffer.set_selection(SelectionMode::Right, 2, false);
    let n = buffer.delete_right();
    assert_eq!(buffer.text(), "abcd");
    assert_eq!(buffer.get_caret_absolute_pos(), 2);
    assert_eq!(n.changes.len(), 1);
    assert_eq!(n.changes[0].range, span(0, 2, 1, 0));
    assert_eq!(n.version, 2);
}

#[test]
fn delete_takes_a_tab_stop_of_spaces_as_one() {
    let mut buffer = open("a     b");
    buffer.set_selection(SelectionMode::Right, 1, false);
    let n = buffer.delete_right();
    assert_eq!(buffer.text(), "a b");
    assert_eq!(buffer.get_caret_absolute_pos(), 1);
    assert_eq!(n.changes[0].range, span(0, 1, 0, 5));
    buffer.delete_right();
    assert_eq!(buffer.text(), "ab");
}

#[test]
fn delete_at_the_end_deletes_nothing() {
    let mut buffer = open("abc");
    buffer.set_selection(SelectionMode::Right, 3, false);
    let n = buffer.delete_right();
    assert_eq!(buffer.text(), "abc");
    assert_eq!(buffer.get_caret_absolute_pos(), 3);
    assert_eq!(n.changes[0].range, span(0, 3, 0, 3));
    assert_eq!(n.version, 2);
}

#[test]
fn delete_deletes_a_selection() {
    let mut buffer = open("one\ntwo");
    buffer.set_selection(SelectionMode::Right, 2, false);
    buffer.set_selection(SelectionMode::Right, 3, true);
    let n = buffer.delete_right();
    assert_eq!(buffer.text(), "onwo");
    assert_eq!(n.changes[0].range, span(0, 2, 1, 1));
    assert_eq!(buffer.get_caret_absolute_pos(), 2);
}

#[test]
fn delete_a_word_to_the_right() {
    let mut buffer = open("foo bar");
    let n = buffer.delete_right_by_word();
    assert_eq!(buffer.text(), " bar");
    assert_eq!(buffer.get_caret_absolute_pos(), 0);
    assert_eq!(buffer.caret_anchor(), 0);
    assert_eq!(n.changes.len(), 1);
    assert_eq!(n.changes[0].range, span(0, 0, 0, 3));
    buffer.delete_right_by_word();
    assert_eq!(buffer.text(), "bar");
}

#[test]
fn delete_a_word_to_the_left() {
    let mut buffer = open("foo bar");
    buffer.set_selection(SelectionMode::Right, 7, false);
    let n = buffer.delete_left_by_word();
    assert_eq!(buffer.text(), "foo ");
    assert_eq!(buffer.get_caret_absolute_pos(), 4);
    assert_eq!(buffer.caret_anchor(), 4);
    assert_eq!(n.changes[0].range, span(0, 4, 0, 7));
    assert_eq!(n.version, 2);
    buffer.delete_left_by_word();
    assert_eq!(buffer.text(), "foo");
}

#[test]
fn word_deletion_deletes_a_selection_instead() {
    let mut buffer = open("foo bar baz");
    buffer.set_selection(SelectionMode::Right, 1, false);
    buffer.set_selection(SelectionMode::Right, 1, true);
    buffer.delete_left_by_word();
    assert_eq!(buffer.text(), "fo bar baz");
    buffer.set_selection(SelectionMode::Right, 1, true);
    buffer.delete_right_by_word();
    assert_eq!(buffer.text(), "f bar baz");
}

#[test]
fn cut_without_a_selection_takes_the_line() {
    let mut buffer = open("one\ntwo\nthree");
    buffer.set_selection(SelectionMode::Right, 5, false);
    assert_eq!(buffer.get_selection_data(), "two\n");
    let n = buffer.cut_selection();
    assert_eq!(buffer.text(), "one\nthree");
    assert_eq!(buffer.get_caret_absolute_pos(), 4);
    assert_eq!(buffer.caret_anchor(), 4);
    assert_eq!(n.changes.len(), 1);
    assert_eq!(n.changes[0].text, "");
    assert_eq!(n.changes[0].range, span(1, 0, 2, 0));
    assert_eq!(n.version, 2);
}

#[test]
fn cut_with_a_selection_takes_the_selection() {
    let mut buffer = open("one\ntwo\nthree");
    buffer.set_selection(SelectionMode::Right, 1, false);
    buffer.set_selection(SelectionMode::Right, 4, true);
    assert_eq!(buffer.get_selection_data(), "ne\nt");
    let n = buffer.cut_selection();
    assert_eq!(buffer.text(), "owo\nthree");
    assert_eq!(n.changes[0].range, span(0, 1, 1, 1));
}

#[test]
fn paste_inserts_what_the_clipboard_held() {
    let mut buffer = open("ab");
    buffer.set_selection(SelectionMode::Right, 1, false);
    assert!(buffer.paste(None).is_none());
    assert_eq!(buffer.text(), "ab");
    assert_eq!(buffer.version(), 1);
    let n = buffer.paste(Some("x\ny")).unwrap();
    assert_eq!(buffer.text(), "ax\nyb");
    assert_eq!(buffer.get_caret_absolute_pos(), 4);
    assert_eq!(n.changes[0].text, "x\ny");
    assert_eq!(n.changes[0].range, span(0, 1, 0, 1));
    assert_eq!(n.version, 2);
}

#[test]
fn the_version_rises_by_one_per_batch() {
    let mut buffer = open("abc");
    assert_eq!(buffer.version(), 1);
    assert_eq!(buffer.insert_chars("x").version, 2);
    assert_eq!(buffer.insert_char(121).version, 3);
    assert_eq!(buffer.delete_left().version, 4);
    assert_eq!(buffer.delete_right().version, 5);
    assert_eq!(buffer.insert_newline().version, 6);
    assert_eq!(buffer.cut_selection().version, 7);
    assert_eq!(buffer.delete_left_by_word().version, 8);
    assert_eq!(buffer.delete_right_by_word().version, 9);
    assert_eq!(buffer.get_full_did_change_notification().version, 10);
    assert_eq!(buffer.version(), 10);
    buffer.set_selection(SelectionMode::Left, 1, false);
    buffer.delete_selection();
    assert_eq!(buffer.version(), 10);
}

#[test]
fn the_full_notification_carries_the_whole_text() {
    let mut buffer = open("one\r\ntwo");
    buffer.set_selection(SelectionMode::Right, 3, false);
    buffer.insert_chars("!");
    let n = buffer.get_full_did_change_notification();
    assert_eq!(n.uri, "file:///src/main.cpp");
    assert_eq!(n.version, 3);
    assert_eq!(n.changes.len(), 1);
    assert_eq!(n.changes[0].text, "one!\r\ntwo");
    assert_eq!(n.changes[0].range, None);
}
