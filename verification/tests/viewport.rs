use editor_core::buffer::{SelectionMode, TextBuffer};
use editor_core::digits::decimal_string;
use editor_core::model::TextRange;
use editor_core::settings::{Language, Settings};

fn numbered_lines(count: usize) -> String {
    let lines: Vec<String> = (0..count).map(|i| i.to_string()).collect();
    lines.join("\n")
}

fn open(text: &str, max_lines: usize, max_columns: usize) -> TextBuffer {
    TextBuffer::new("view.txt", text, Language::Cpp, Settings::default(), max_lines, max_columns)
}

#[test]
fn a_new_buffer_shows_its_first_lines() {
    let buffer = open(&numbered_lines(20), 5, 80);
    assert_eq!(buffer.len_lines(), 20);
    assert_eq!(buffer.len_chars(), 49);
    assert_eq!(buffer.text_visible_line_count(), 5);
    assert_eq!(buffer.top_line(), 0);
    assert_eq!(buffer.bot_line(), 4);
    assert_eq!(buffer.visible_char_range(), (0, 10));
    assert_eq!(buffer.get_current_lines(), "0\n1\n2\n3\n4\n");
    assert_eq!(buffer.get_visible_line_range(), (0, 4));
    assert_eq!(buffer.text_column_offset(), 0);
}

#[test]
fn a_short_document_shows_all_its_lines() {
    let buffer = open("one\ntwo", 5, 80);
    assert_eq!(buffer.text_visible_line_count(), 2);
    assert_eq!(buffer.bot_line(), 1);
    assert_eq!(buffer.visible_char_range(), (0, 7));
    assert_eq!(buffer.get_current_lines(), "one\ntwo");
}

#[test]
fn a_region_without_room_shows_the_first_line() {
    let buffer = open("one\ntwo", 0, 80);
    assert_eq!(buffer.text_visible_line_count(), 0);
    assert_eq!(buffer.top_line(), 0);
    assert_eq!(buffer.bot_line(), 0);
    assert_eq!(buffer.visible_char_range(), (0, 4));
}

#[test]
fn scrolling_moves_the_window_after_the_action() {
    let mut buffer = open(&numbered_lines(20), 5, 80);
    buffer.scroll_down(3);
    assert_eq!(buffer.top_line(), 3);
    assert_eq!(buffer.bot_line(), 4);
    buffer.on_editor_action();
    assert_eq!(buffer.top_line(), 3);
    assert_eq!(buffer.bot_line(), 7);
    assert_eq!(buffer.visible_char_range(), (6, 16));
    assert_eq!(buffer.get_current_lines(), "3\n4\n5\n6\n7\n");
    buffer.scroll_up(2);
    buffer.on_editor_action();
    assert_eq!(buffer.top_line(), 1);
    assert_eq!(buffer.bot_line(), 5);
    assert_eq!(buffer.visible_char_range(), (2, 12));
}

#[test]
fn scrolling_stops_at_the_last_and_the_first_line() {
    let mut buffer = open(&numbered_lines(20), 5, 80);
    buffer.scroll_down(100);
    assert_eq!(buffer.top_line(), 19);
    buffer.scroll_down(usize::MAX);
    assert_eq!(buffer.top_line(), 19);
    buffer.on_editor_action();
    assert_eq!(buffer.bot_line(), 23);
    assert_eq!(buffer.visible_char_range(), (47, 49));
    assert_eq!(buffer.get_current_lines(), "19");
    assert_eq!(buffer.get_visible_line_range(), (19, 19));
    buffer.scroll_up(100);
    assert_eq!(buffer.top_line(), 0);
    buffer.scroll_down(19);
    assert_eq!(buffer.top_line(), 19);
    buffer.scroll_up(19);
    assert_eq!(buffer.top_line(), 0);
}

#[test]
fn the_window_ends_with_the_last_visible_line() {
    let mut buffer = open(&numbered_lines(20), 5, 80);
    buffer.scroll_down(15);
    buffer.on_editor_action();
    assert_eq!(buffer.bot_line(), 19);
    assert_eq!(buffer.visible_char_range(), (35, 49));
    buffer.scroll_down(1);
    buffer.on_editor_action();
    assert_eq!(buffer.bot_line(), 20);
    assert_eq!(buffer.visible_char_range(), (38, 49));
}

#[test]
fn the_top_line_is_held_within_a_shrunk_document() {
    let mut buffer = open(&numbered_lines(20), 5, 80);
    buffer.scroll_down(100);
    buffer.on_editor_action();
    assert_eq!(buffer.top_line(), 19);
    buffer.cut_selection();
    assert_eq!(buffer.len_lines(), 19);
    buffer.on_editor_action();
    assert_eq!(buffer.top_line(), 18);
    assert_eq!(buffer.bot_line(), 22);
    assert_eq!(buffer.get_current_lines(), "19");
}

#[test]
fn moving_down_past_the_window_scrolls_one_line() {
    let mut buffer = open(&numbered_lines(20), 5, 80);
    for _ in 0..4 {
        buffer.set_selection(SelectionMode::Down, 1, false);
        buffer.on_editor_action();
    }
    assert_eq!(buffer.get_current_line(), 4);
    assert_eq!(buffer.top_line(), 0);
    buffer.set_selection(SelectionMode::Down, 1, false);
    assert_eq!(buffer.get_current_line(), 5);
    assert_eq!(buffer.top_line(), 1);
    buffer.on_editor_action();
    assert_eq!(buffer.bot_line(), 5);
}

#[test]
fn moving_up_past_the_window_scrolls_one_line() {
    let mut buffer = open(&numbered_lines(20), 5, 80);
    for _ in 0..5 {
        buffer.set_selection(SelectionMode::Down, 1, false);
        buffer.on_editor_action();
    }
    assert_eq!(buffer.top_line(), 1);
    buffer.scroll_down(3);
    buffer.on_editor_action();
    assert_eq!(buffer.top_line(), 4);
    assert_eq!(buffer.bot_line(), 8);
    buffer.set_selection(SelectionMode::Up, 1, false);
    assert_eq!(buffer.get_current_line(), 4);
    assert_eq!(buffer.top_line(), 4);
    buffer.on_editor_action();
    buffer.set_selection(SelectionMode::Up, 1, false);
    assert_eq!(buffer.get_current_line(), 3);
    assert_eq!(buffer.top_line(), 3);
}

#[test]
fn update_view_brings_the_caret_into_the_window() {
    let mut buffer = open(&numbered_lines(20), 5, 80);
    buffer.scroll_down(10);
    buffer.on_editor_action();
    assert_eq!((buffer.top_line(), buffer.bot_line()), (10, 14));
    assert_eq!(buffer.get_current_line(), 0);
    buffer.update_view();
    buffer.on_editor_action();
    assert!(buffer.top_line() <= buffer.get_current_line());
    assert!(buffer.get_current_line() <= buffer.bot_line());
    assert_eq!((buffer.top_line(), buffer.bot_line()), (0, 4));
}

#[test]
fn update_view_follows_a_paste_of_many_lines() {
    let mut buffer = open(&numbered_lines(20), 5, 80);
    buffer.insert_chars("a\nb\nc\nd\ne\nf\ng\nh\n");
    assert_eq!(buffer.get_current_line(), 8);
    buffer.update_view();
    buffer.on_editor_action();
    assert_eq!((buffer.top_line(), buffer.bot_line()), (8, 12));
    assert!(buffer.top_line() <= buffer.get_current_line());
    assert!(buffer.get_current_line() <= buffer.bot_line());
}

#[test]
fn update_view_leaves_a_caret_in_the_window_alone() {
    let mut buffer = open(&numbered_lines(20), 5, 80);
    buffer.set_selection(SelectionMode::Right, 6, false);
    assert_eq!(buffer.get_current_line(), 3);
    buffer.update_view();
    buffer.on_editor_action();
    assert_eq!((buffer.top_line(), buffer.bot_line()), (0, 4));
}

#[test]
fn the_caret_is_in_the_window_after_any_edit_and_update() {
    let mut buffer = open(&numbered_lines(40), 7, 80);
    let steps: [(usize, usize); 6] = [(3, 0), (30, 2), (0, 25), (12, 12), (39, 0), (0, 39)];
    for (scroll, down) in steps {
        buffer.scroll_up(100);
        buffer.scroll_down(scroll);
        buffer.on_editor_action();
        buffer.set_selection(SelectionMode::Left, 1000, false);
        for _ in 0..down {
            buffer.set_selection(SelectionMode::Down, 1, false);
        }
        buffer.on_editor_action();
        buffer.insert_chars("x\ny");
        buffer.on_editor_action();
        buffer.update_view();
        buffer.on_editor_action();
        assert!(buffer.top_line() <= buffer.get_current_line());
        assert!(buffer.get_current_line() <= buffer.bot_line());
    }
}

#[test]
fn deleting_a_selection_updates_the_view() {
    let mut buffer = open(&numbered_lines(20), 5, 80);
    buffer.scroll_down(15);
    buffer.on_editor_action();
    buffer.select_all();
    buffer.delete_selection();
    assert_eq!(buffer.text(), "");
    assert_eq!(buffer.top_line(), 0);
    buffer.on_editor_action();
    assert_eq!(buffer.bot_line(), 4);
    assert_eq!(buffer.visible_char_range(), (0, 0));
}

#[test]
fn the_column_offset_follows_the_caret() {
    let line = "x".repeat(100);
    let mut buffer = open(&line, 5, 80);
    buffer.set_selection(SelectionMode::Right, 90, false);
    buffer.on_editor_action();
    assert_eq!(buffer.text_column_offset(), 10);
    buffer.set_selection(SelectionMode::Right, 5, false);
    buffer.on_editor_action();
    assert_eq!(buffer.text_column_offset(), 15);
    buffer.set_selection(SelectionMode::Left, 45, false);
    buffer.on_editor_action();
    assert_eq!(buffer.text_column_offset(), 15);
    buffer.set_selection(SelectionMode::Left, 45, false);
    buffer.on_editor_action();
    assert_eq!(buffer.text_column_offset(), 5);
    buffer.set_selection(SelectionMode::Right, 75, false);
    buffer.update_text_column_offset();
    assert_eq!(buffer.text_column_offset(), 5);
    buffer.set_selection(SelectionMode::Right, 6, false);
    buffer.update_text_column_offset();
    assert_eq!(buffer.text_column_offset(), 6);
}

#[test]
fn scrolling_sideways_stays_within_the_line() {
    let line = "x".repeat(100);
    let mut buffer = open(&line, 5, 80);
    buffer.scroll_right(5);
    assert_eq!(buffer.text_column_offset(), 5);
    buffer.scroll_right(50);
    assert_eq!(buffer.text_column_offset(), 20);
    buffer.scroll_right(usize::MAX);
    assert_eq!(buffer.text_column_offset(), 20);
    buffer.scroll_left(3);
    assert_eq!(buffer.text_column_offset(), 17);
    buffer.scroll_left(100);
    assert_eq!(buffer.text_column_offset(), 0);
}

#[test]
fn a_line_that_fits_does_not_scroll_sideways() {
    let mut buffer = open("abc\ndef", 5, 80);
    buffer.scroll_right(5);
    assert_eq!(buffer.text_column_offset(), 0);
    buffer.scroll_left(5);
    assert_eq!(buffer.text_column_offset(), 0);
}

#[test]
fn a_resize_changes_the_number_of_lines_shown() {
    let mut buffer = open(&numbered_lines(20), 5, 80);
    buffer.scroll_down(2);
    buffer.on_window_resize(3, 40);
    assert_eq!(buffer.text_visible_line_count(), 3);
    assert_eq!((buffer.top_line(), buffer.bot_line()), (2, 4));
    assert_eq!(buffer.visible_char_range(), (4, 10));
    buffer.on_font_change(30, 40);
    assert_eq!(buffer.text_visible_line_count(), 20);
    assert_eq!((buffer.top_line(), buffer.bot_line()), (2, 21));
    assert_eq!(buffer.visible_char_range(), (4, 49));
}

#[test]
fn a_resize_lets_the_column_offset_follow_the_caret() {
    let line = "x".repeat(100);
    let mut buffer = open(&line, 5, 80);
    buffer.set_selection(SelectionMode::Right, 60, false);
    buffer.on_window_resize(5, 40);
    assert_eq!(buffer.text_column_offset(), 20);
}

#[test]
fn the_selection_range_is_relative_to_the_window() {
    let mut buffer = open("hello world", 5, 80);
    assert_eq!(buffer.get_selection_range(), None);
    buffer.set_selection(SelectionMode::Right, 2, false);
    buffer.set_selection(SelectionMode::Right, 5, true);
    assert_eq!(buffer.get_selection_range(), Some(TextRange { start: 2, length: 5 }));
    buffer.set_selection(SelectionMode::Left, 7, true);
    assert_eq!(buffer.get_selection_range(), Some(TextRange { start: 0, length: 2 }));
}

#[test]
fn the_selection_range_starts_with_the_window() {
    let mut buffer = open(&numbered_lines(20), 5, 80);
    buffer.set_selection(SelectionMode::Right, 10, true);
    buffer.scroll_down(3);
    buffer.update_absolute_char_positions();
    assert_eq!(buffer.visible_char_range(), (6, 16));
    assert_eq!(buffer.get_selection_range(), Some(TextRange { start: 0, length: 4 }));
    assert_eq!(buffer.get_caret_text_position(), Some(4));
    buffer.set_selection(SelectionMode::Left, 8, true);
    assert_eq!(buffer.get_caret_text_position(), None);
    assert_eq!(buffer.get_selection_range(), Some(TextRange { start: 0, length: 0 }));
}

#[test]
fn line_numbers_of_the_visible_lines() {
    let mut buffer = open(&numbered_lines(20), 3, 80);
    assert_eq!(buffer.get_line_numbers_layout(), "1\r\n2\r\n3\r\n");
    buffer.scroll_down(8);
    buffer.on_editor_action();
    assert_eq!(buffer.get_line_numbers_layout(), "9\r\n10\r\n11\r\n");
    buffer.scroll_down(100);
    buffer.on_editor_action();
    assert_eq!(buffer.get_line_numbers_layout(), "20\r\n");
    let long = open(&numbered_lines(1200), 2, 80);
    assert_eq!(long.get_visible_line_range(), (0, 1));
    let mut long = long;
    long.scroll_down(998);
    long.on_editor_action();
    assert_eq!(long.get_line_numbers_layout(), "999\r\n1000\r\n");
}

#[test]
fn line_numbers_of_a_stale_window() {
    let mut buffer = open(&numbered_lines(20), 3, 80);
    buffer.scroll_down(19);
    buffer.on_editor_action();
    buffer.select_all();
    buffer.insert_chars("x");
    assert_eq!(buffer.get_line_numbers_layout(), "1\r\n");
    buffer.scroll_down(5);
    assert_eq!(buffer.top_line(), 0);
}

#[test]
fn decimal_numerals() {
    assert_eq!(decimal_string(0), "0");
    assert_eq!(decimal_string(7), "7");
    assert_eq!(decimal_string(10), "10");
    assert_eq!(decimal_string(109), "109");
    assert_eq!(decimal_string(4096), "4096");
    assert_eq!(decimal_string(1234567890), "1234567890");
    assert_eq!(decimal_string(usize::MAX), usize::MAX.to_string());
}

#[test]
fn digits_in_a_number() {
    assert_eq!(TextBuffer::get_digits_in_number(0), 1);
    assert_eq!(TextBuffer::get_digits_in_number(9), 1);
    assert_eq!(TextBuffer::get_digits_in_number(10), 2);
    assert_eq!(TextBuffer::get_digits_in_number(99), 2);
    assert_eq!(TextBuffer::get_digits_in_number(100), 3);
    assert_eq!(TextBuffer::get_digits_in_number(12345), 5);
    assert_eq!(TextBuffer::get_digits_in_number(999_999), 6);
    assert_eq!(TextBuffer::get_digits_in_number(1_000_000), 7);
    assert_eq!(TextBuffer::get_digits_in_number(99_999_999), 8);
    assert_eq!(TextBuffer::get_digits_in_number(100_000_000), 9);
    assert_eq!(TextBuffer::get_digits_in_number(1_000_000_000), 10);
    assert_eq!(TextBuffer::get_digits_in_number(u32::MAX), 10);
}
