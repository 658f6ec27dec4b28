//! Change events: edits described by line and column for a language server.

use crate::lines::{column_of, line_of};
use vstd::prelude::*;

verus! {

/// A place in a text: a line, and a column within that line, both from zero.
#[derive(Clone, Copy, PartialEq, Eq, Structural, Debug)]
pub struct Position {
    pub line: usize,
    pub character: usize,
}

/// The text between two places.
#[derive(Clone, Copy, PartialEq, Eq, Structural, Debug)]
pub struct Span {
    pub start: Position,
    pub end: Position,
}

/// One edit: the span that was replaced and the text put in its place. A
/// deletion has an empty text, an insertion an empty span, and an event
/// without a span replaces the whole document.
#[derive(Clone, Debug, PartialEq, Eq)]
pub struct ChangeEvent {
    pub text: String,
    pub range: Option<Span>,
}

/// The mathematical value of a `ChangeEvent`.
pub struct ChangeEventView {
    pub text: Seq<char>,
    pub range: Option<Span>,
}

impl View for ChangeEvent {
    type V = ChangeEventView;

    open spec fn view(&self) -> ChangeEventView {
        ChangeEventView { text: self.text@, range: self.range }
    }
}

/// The place of char index `idx` in the text `s`.
pub open spec fn position_at(s: Seq<char>, idx: int) -> Position {
    Position { line: line_of(s, idx) as usize, character: column_of(s, idx) as usize }
}

/// The event of an insertion of `text` at `at`.
pub open spec fn insert_event(text: Seq<char>, at: Position) -> ChangeEventView {
    ChangeEventView { text, range: Some(Span { start: at, end: at }) }
}

/// The event of a deletion of the text from `start` to `end`.
pub open spec fn delete_event(start: Position, end: Position) -> ChangeEventView {
    ChangeEventView { text: Seq::empty(), range: Some(Span { start, end }) }
}

/// The event that replaces the whole document by `text`.
pub open spec fn full_event(text: Seq<char>) -> ChangeEventView {
    ChangeEventView { text, range: None }
}

impl ChangeEvent {
    /// The event of an insertion of `text` between two places.
    pub fn new_insert_event(
        text: String,
        start_line: usize,
        start_char: usize,
        end_line: usize,
        end_char: usize,
    ) -> (event: Self)
        ensures
            event@.text == text@,
            event@.range == Some(
                Span {
                    start: Position { line: start_line, character: start_char },
                    end: Position { line: end_line, character: end_char },
                },
            ),
    {
        ChangeEvent {
            text,
            range: Some(
                Span {
                    start: Position { line: start_line, character: start_char },
                    end: Position { line: end_line, character: end_char },
                },
            ),
        }
    }

    /// The event of a deletion of the text between two places.
    pub fn new_delete_event(
        start_line: usize,
        start_char: usize,
        end_line: usize,
        end_char: usize,
    ) -> (event: Self)
        ensures
            event@ == delete_event(
                Position { line: start_line, character: start_char },
                Position { line: end_line, character: end_char },
            ),
    {
        ChangeEvent {
            text: String::new(),
            range: Some(
                Span {
                    start: Position { line: start_line, character: start_char },
                    end: Position { line: end_line, character: end_char },
                },
            ),
        }
    }

    /// The event that replaces the whole document by `text`.
    pub fn new_full_event(text: String) -> (event: Self)
        ensures
            event@ == full_event(text@),
    {
        ChangeEvent { text, range: None }
    }
}

/// A batch of edits of one document, under the version that the document has
/// after them.
#[derive(Clone, Debug, PartialEq, Eq)]
pub struct DidChangeNotification {
    pub uri: String,
    pub version: u64,
    pub changes: Vec<ChangeEvent>,
}

/// The mathematical value of a `DidChangeNotification`.
pub struct NotificationView {
    pub uri: Seq<char>,
    pub version: int,
    pub changes: Seq<ChangeEventView>,
}

/// The values of a list of events.
pub open spec fn events_view(events: Seq<ChangeEvent>) -> Seq<ChangeEventView> {
    Seq::new(events.len(), |i: int| events[i]@)
}

impl View for DidChangeNotification {
    type V = NotificationView;

    open spec fn view(&self) -> NotificationView {
        NotificationView {
            uri: self.uri@,
            version: self.version as int,
            changes: events_view(self.changes@),
        }
    }
}

impl DidChangeNotification {
    /// A batch of `changes` of the document `uri` under `version`.
    pub fn new(uri: String, version: u64, changes: Vec<ChangeEvent>) -> (n: Self)
        ensures
            n@.uri == uri@,
            n@.version == version,
            n@.changes == events_view(changes@),
    {
        DidChangeNotification { uri, version, changes }
    }
}

/// The announcement of a document to a language server: its name, the
/// identifier of its language, its version and its whole text.
#[derive(Clone, Debug, PartialEq, Eq)]
pub struct DidOpenNotification {
    pub uri: String,
    pub language_id: String,
    pub version: u64,
    pub text: String,
}

} // verus!
