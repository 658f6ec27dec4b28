use editor_core::buffer::{SelectionMode, TextBuffer};
use editor_core::highlight::{grow_token_at_insert, shift_lines, Highlight};
use editor_core::settings::{Language, Settings};

fn open(text: &str, language: Language, max_lines: usize) -> TextBuffer {
    TextBuffer::new("lib.rs", text, language, Settings::default(), max_lines, 80)
}

#[test]
fn a_token_grows_with_a_char_typed_at_its_end() {
    let mut buffer = open("l0\nl1\nl2\nl3\nl4\nabcdefgh", Language::Cpp, 10);
    buffer.update_semantic_tokens(vec![5, 2, 3, 0, 0]);
    buffer.set_selection(SelectionMode::Right, 20, false);
    assert_eq!(buffer.get_current_line(), 5);
    let n = buffer.insert_char(120);
    assert_eq!(n.changes[0].range.unwrap().start.line, 5);
    assert_eq!(n.changes[0].range.unwrap().start.character, 5);
    assert_eq!(buffer.semantic_tokens(), &vec![5, 2, 4, 0, 0]);
}

#[test]
fn a_token_elsewhere_does_not_grow() {
    let mut tokens: Vec<u32> = vec![5, 2, 3, 0, 0];
    grow_token_at_insert(&mut tokens, 5, 4);
    assert_eq!(tokens, vec![5, 2, 3, 0, 0]);
    grow_token_at_insert(&mut tokens, 4, 5);
    assert_eq!(tokens, vec![5, 2, 3, 0, 0]);
    grow_token_at_insert(&mut tokens, 5, 5);
    assert_eq!(tokens, vec![5, 2, 4, 0, 0]);
    grow_token_at_insert(&mut tokens, 5, 5);
    assert_eq!(tokens, vec![5, 2, 4, 0, 0]);
    grow_token_at_insert(&mut tokens, 5, 6);
    assert_eq!(tokens, vec![5, 2, 5, 0, 0]);
}

#[test]
fn token_starts_add_up_along_a_line() {
    let mut tokens: Vec<u32> = vec![1, 4, 2, 0, 0, 0, 3, 2, 1, 0, 0, 5, 1, 2, 0, 2, 1, 1, 0, 0];
    grow_token_at_insert(&mut tokens, 1, 9);
    assert_eq!(tokens, vec![1, 4, 2, 0, 0, 0, 3, 3, 1, 0, 0, 5, 1, 2, 0, 2, 1, 1, 0, 0]);
    grow_token_at_insert(&mut tokens, 1, 13);
    assert_eq!(tokens, vec![1, 4, 2, 0, 0, 0, 3, 3, 1, 0, 0, 5, 2, 2, 0, 2, 1, 1, 0, 0]);
    grow_token_at_insert(&mut tokens, 3, 2);
    assert_eq!(tokens, vec![1, 4, 2, 0, 0, 0, 3, 3, 1, 0, 0, 5, 2, 2, 0, 2, 1, 2, 0, 0]);
}

#[test]
fn only_the_first_matching_token_grows() {
    let mut tokens: Vec<u32> = vec![0, 1, 2, 0, 0, 0, 2, 0, 1, 0];
    grow_token_at_insert(&mut tokens, 0, 3);
    assert_eq!(tokens, vec![0, 1, 3, 0, 0, 0, 2, 0, 1, 0]);
}

#[test]
fn a_token_length_stays_within_u32() {
    let mut tokens: Vec<u32> = vec![0, 0, u32::MAX, 0, 0];
    grow_token_at_insert(&mut tokens, 0, u32::MAX as usize);
    assert_eq!(tokens, vec![0, 0, u32::MAX, 0, 0]);
}

#[test]
fn lines_that_came_in_push_the_tokens_below_down() {
    let mut tokens: Vec<u32> = vec![0, 0, 3, 1, 0, 2, 4, 5, 1, 0, 1, 0, 2, 3, 0];
    shift_lines(&mut tokens, 1, 2);
    assert_eq!(tokens, vec![0, 0, 3, 1, 0, 3, 4, 5, 1, 0, 1, 0, 2, 3, 0]);
    shift_lines(&mut tokens, 0, 3);
    assert_eq!(tokens, vec![0, 0, 3, 1, 0, 6, 4, 5, 1, 0, 1, 0, 2, 3, 0]);
}

#[test]
fn lines_that_went_pull_the_tokens_below_up() {
    let mut tokens: Vec<u32> = vec![0, 0, 3, 1, 0, 2, 4, 5, 1, 0, 1, 0, 2, 3, 0];
    shift_lines(&mut tokens, 2, 1);
    assert_eq!(tokens, vec![0, 0, 3, 1, 0, 2, 4, 5, 1, 0, 0, 0, 2, 3, 0]);
    shift_lines(&mut tokens, 1, 0);
    assert_eq!(tokens, vec![0, 0, 3, 1, 0, 1, 4, 5, 1, 0, 0, 0, 2, 3, 0]);
    shift_lines(&mut tokens, 0, 0);
    assert_eq!(tokens, vec![0, 0, 3, 1, 0, 1, 4, 5, 1, 0, 0, 0, 2, 3, 0]);
}

#[test]
fn a_line_delta_stays_within_u32() {
    let mut tokens: Vec<u32> = vec![1, 0, 1, 0, 0];
    shift_lines(&mut tokens, 5, 0);
    assert_eq!(tokens, vec![1, 0, 1, 0, 0]);
    shift_lines(&mut tokens, 0, 0);
    assert_eq!(tokens, vec![1, 0, 1, 0, 0]);
    shift_lines(&mut tokens, 7, 0);
    assert_eq!(tokens, vec![1, 0, 1, 0, 0]);
    let mut tokens: Vec<u32> = vec![3, 0, 1, 0, 0];
    shift_lines(&mut tokens, 2, 0);
    assert_eq!(tokens, vec![1, 0, 1, 0, 0]);
    shift_lines(&mut tokens, 0, usize::MAX);
    assert_eq!(tokens, vec![u32::MAX, 0, 1, 0, 0]);
    let mut tokens: Vec<u32> = vec![1, 0, 1, 0, 0];
    shift_lines(&mut tokens, 0, 9);
    assert_eq!(tokens, vec![10, 0, 1, 0, 0]);
    shift_lines(&mut tokens, 9, 0);
    assert_eq!(tokens, vec![1, 0, 1, 0, 0]);
}

#[test]
fn no_token_below_means_no_change() {
    let mut tokens: Vec<u32> = vec![1, 0, 1, 0, 0, 1, 0, 1, 0, 0];
    shift_lines(&mut tokens, 2, 5);
    assert_eq!(tokens, vec![1, 0, 1, 0, 0, 1, 0, 1, 0, 0]);
    let mut none: Vec<u32> = Vec::new();
    shift_lines(&mut none, 0, 5);
    grow_token_at_insert(&mut none, 0, 0);
    assert!(none.is_empty());
}

#[test]
fn a_new_line_pushes_the_tokens_below_the_caret_down() {
    let mut buffer = open("ab\ncd\nef", Language::Cpp, 10);
    buffer.update_semantic_tokens(vec![0, 0, 2, 1, 0, 1, 0, 2, 1, 0, 1, 0, 2, 1, 0]);
    buffer.set_selection(SelectionMode::Right, 2, false);
    buffer.insert_chars("\n");
    assert_eq!(buffer.text(), "ab\n\ncd\nef");
    assert_eq!(buffer.semantic_tokens(), &vec![0, 0, 2, 1, 0, 2, 0, 2, 1, 0, 1, 0, 2, 1, 0]);
    buffer.delete_left();
    assert_eq!(buffer.text(), "ab\ncd\nef");
    assert_eq!(buffer.semantic_tokens(), &vec![0, 0, 2, 1, 0, 1, 0, 2, 1, 0, 1, 0, 2, 1, 0]);
}

#[test]
fn joining_lines_pulls_the_tokens_below_up() {
    let mut buffer = open("ab\ncd\nef", Language::Cpp, 10);
    buffer.update_semantic_tokens(vec![0, 0, 2, 1, 0, 1, 0, 2, 1, 0, 1, 0, 2, 1, 0]);
    buffer.set_selection(SelectionMode::Right, 5, false);
    buffer.delete_right();
    assert_eq!(buffer.text(), "ab\ncdef");
    assert_eq!(buffer.semantic_tokens(), &vec![0, 0, 2, 1, 0, 1, 0, 2, 1, 0, 0, 0, 2, 1, 0]);
}

#[test]
fn joining_the_first_line_leaves_the_tokens() {
    let mut buffer = open("ab\ncd", Language::Cpp, 10);
    buffer.update_semantic_tokens(vec![0, 0, 2, 1, 0, 1, 0, 2, 1, 0]);
    buffer.set_selection(SelectionMode::Right, 2, false);
    buffer.delete_right();
    assert_eq!(buffer.text(), "abcd");
    assert_eq!(buffer.semantic_tokens(), &vec![0, 0, 2, 1, 0, 1, 0, 2, 1, 0]);
}

#[test]
fn cutting_a_line_pulls_the_tokens_below_up() {
    let mut buffer = open("ab\ncd\nef", Language::Cpp, 10);
    buffer.update_semantic_tokens(vec![0, 0, 2, 1, 0, 1, 0, 2, 1, 0, 1, 0, 2, 1, 0]);
    buffer.set_selection(SelectionMode::Right, 4, false);
    buffer.cut_selection();
    assert_eq!(buffer.text(), "ab\nef");
    assert_eq!(buffer.semantic_tokens(), &vec![0, 0, 2, 1, 0, 1, 0, 2, 1, 0, 0, 0, 2, 1, 0]);
}

#[test]
fn deleting_a_selection_pulls_the_tokens_below_up() {
    let mut buffer = open("ab\ncd\nef\ngh", Language::Cpp, 10);
    buffer.update_semantic_tokens(vec![0, 0, 2, 1, 0, 3, 0, 2, 1, 0]);
    buffer.set_selection(SelectionMode::Right, 1, false);
    buffer.set_selection(SelectionMode::Right, 6, true);
    buffer.delete_selection();
    assert_eq!(buffer.text(), "af\ngh");
    assert_eq!(buffer.semantic_tokens(), &vec![0, 0, 2, 1, 0, 1, 0, 2, 1, 0]);
}

#[test]
fn a_fresh_response_replaces_the_tokens() {
    let mut buffer = open("ab\ncd", Language::Cpp, 10);
    buffer.update_semantic_tokens(vec![0, 0, 2, 1, 0]);
    assert_eq!(buffer.semantic_tokens(), &vec![0, 0, 2, 1, 0]);
    buffer.update_semantic_tokens(vec![1, 0, 2, 1, 0, 0, 1, 1, 2, 3]);
    assert_eq!(buffer.semantic_tokens(), &vec![1, 0, 2, 1, 0, 0, 1, 1, 2, 3]);
    buffer.update_semantic_tokens(Vec::new());
    assert!(buffer.semantic_tokens().is_empty());
}

#[test]
fn a_malformed_response_leaves_no_tokens() {
    let mut buffer = open("ab\ncd", Language::Cpp, 10);
    buffer.update_semantic_tokens(vec![0, 0, 2, 1, 0]);
    buffer.update_semantic_tokens(vec![0, 0, 2, 1, 0, 1, 1]);
    assert!(buffer.semantic_tokens().is_empty());
    assert!(buffer.get_semantic_highlights().is_empty());
    buffer.update_semantic_tokens(vec![7]);
    assert!(buffer.semantic_tokens().is_empty());
}

#[test]
fn highlights_of_the_visible_tokens() {
    let mut buffer = open("ab\ncdef\ngh", Language::Cpp, 10);
    buffer.update_semantic_tokens(vec![
        0, 0, 2, 7, 0, 1, 1, 2, 3, 1, 0, 2, 1, 4, 0, 1, 0, 2, 5, 0,
    ]);
    assert_eq!(
        buffer.get_semantic_highlights(),
        vec![
            Highlight { start: 0, length: 2, token_type: 7, modifiers: 0 },
            Highlight { start: 4, length: 2, token_type: 3, modifiers: 1 },
            Highlight { start: 6, length: 1, token_type: 4, modifiers: 0 },
            Highlight { start: 8, length: 2, token_type: 5, modifiers: 0 },
        ]
    );
}

#[test]
fn highlights_are_counted_from_the_first_visible_line() {
    let mut buffer = open("ab\ncdef\ngh", Language::Rust, 1);
    buffer.update_semantic_tokens(vec![
        0, 0, 2, 7, 0, 1, 1, 2, 3, 1, 0, 2, 1, 4, 0, 1, 0, 2, 5, 0,
    ]);
    assert_eq!(
        buffer.get_semantic_highlights(),
        vec![Highlight { start: 0, length: 2, token_type: 7, modifiers: 0 }]
    );
    buffer.scroll_down(1);
    buffer.on_editor_action();
    assert_eq!((buffer.top_line(), buffer.bot_line()), (1, 1));
    assert_eq!(
        buffer.get_semantic_highlights(),
        vec![
            Highlight { start: 1, length: 2, token_type: 3, modifiers: 1 },
            Highlight { start: 3, length: 1, token_type: 4, modifiers: 0 },
        ]
    );
    buffer.scroll_down(1);
    buffer.on_editor_action();
    assert_eq!(
        buffer.get_semantic_highlights(),
        vec![Highlight { start: 0, length: 2, token_type: 5, modifiers: 0 }]
    );
}

#[test]
fn a_plain_document_has_no_highlights() {
    let mut buffer = open("ab\ncdef\ngh", Language::Plain, 10);
    buffer.update_semantic_tokens(vec![0, 0, 2, 7, 0]);
    assert_eq!(buffer.semantic_tokens(), &vec![0, 0, 2, 7, 0]);
    assert!(buffer.get_semantic_highlights().is_empty());
}

#[test]
fn tokens_beyond_the_document_are_left_out() {
    let mut buffer = open("ab\ncd", Language::Cpp, 10);
    buffer.update_semantic_tokens(vec![1, 0, 2, 1, 0, 1, 0, 1, 2, 0, 5, 0, 2, 1, 0]);
    assert_eq!(
        buffer.get_semantic_highlights(),
        vec![Highlight { start: 3, length: 2, token_type: 1, modifiers: 0 }]
    );
}
