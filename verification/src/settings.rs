//! The options that the editing core recognises.

use vstd::prelude::*;
use vstd::string::StrSliceExecFns;

verus! {

/// An opening bracket and the bracket that closes it.
#[derive(Clone, Copy, PartialEq, Eq, Structural, Debug)]
pub struct BracketPair {
    pub open: char,
    pub close: char,
}

/// The language of a document, which decides how it is synchronised.
#[derive(Clone, Copy, PartialEq, Eq, Structural, Debug)]
pub enum Language {
    Cpp,
    Rust,
    Plain,
}

/// How edits reach the language server.
#[derive(Clone, Copy, PartialEq, Eq, Structural, Debug)]
pub enum SyncMode {
    /// Each edit is sent as the range it replaced and the text put there.
    Incremental,
    /// Each edit is sent as the whole text of the document.
    Full,
    /// Nothing is sent.
    Off,
}

/// Whether two strings hold the same chars.
pub fn same_text(a: &str, b: &str) -> (same: bool)
    ensures
        same == (a@ == b@),
{
    let n: usize = a.unicode_len();
    if n != b.unicode_len() {
        return false;
    }
    let mut i: usize = 0;
    while i < n
        invariant
            i <= n,
            n == a@.len(),
            n == b@.len(),
            forall|j: int| 0 <= j < i ==> a@[j] == b@[j],
        decreases n - i,
    {
        if a.get_char(i) != b.get_char(i) {
            return false;
        }
        i = i + 1;
    }
    assert(a@ =~= b@);
    true
}

impl Language {
    /// The language of a file with the extension `extension`: C++ for `c`,
    /// `h`, `cpp` and `hpp`, Rust for `rs`, and plain text for any other.
    pub open spec fn from_extension_spec(extension: Seq<char>) -> Language {
        if extension == "c"@ || extension == "h"@ || extension == "cpp"@ || extension == "hpp"@ {
            Language::Cpp
        } else if extension == "rs"@ {
            Language::Rust
        } else {
            Language::Plain
        }
    }

    pub fn from_extension(extension: &str) -> (language: Self)
        ensures
            language == Self::from_extension_spec(extension@),
    {
        if same_text(extension, "c") || same_text(extension, "h") || same_text(extension, "cpp")
            || same_text(extension, "hpp") {
            Language::Cpp
        } else if same_text(extension, "rs") {
            Language::Rust
        } else {
            Language::Plain
        }
    }

    /// The sync mode of the language: incremental for C++, full for Rust,
    /// none for anything else.
    pub open spec fn sync_mode_spec(self) -> SyncMode {
        match self {
            Language::Cpp => SyncMode::Incremental,
            Language::Rust => SyncMode::Full,
            Language::Plain => SyncMode::Off,
        }
    }

    #[verifier::when_used_as_spec(sync_mode_spec)]
    pub fn sync_mode(self) -> (mode: SyncMode)
        ensures
            mode == self.sync_mode_spec(),
    {
        match self {
            Language::Cpp => SyncMode::Incremental,
            Language::Rust => SyncMode::Full,
            Language::Plain => SyncMode::Off,
        }
    }

    /// The identifier under which the language is announced to a server; the
    /// empty string for a language without one.
    pub open spec fn identifier_spec(self) -> Seq<char> {
        match self {
            Language::Cpp => "cpp"@,
            Language::Rust => "rust"@,
            Language::Plain => ""@,
        }
    }

    pub fn identifier(self) -> (id: &'static str)
        ensures
            id@ == self.identifier_spec(),
    {
        match self {
            Language::Cpp => "cpp",
            Language::Rust => "rust",
            Language::Plain => "",
        }
    }
}

/// The configuration of an editor.
#[derive(Clone, Debug)]
pub struct Settings {
    /// The width of a tab stop in spaces.
    pub tab_width: usize,
    /// The brackets that are closed automatically on a new line.
    pub brackets: Vec<BracketPair>,
    /// The lines scrolled per step of the mouse wheel.
    pub scroll_lines_per_roll: usize,
    /// The lines or columns scrolled per mouse move while dragging outside the text.
    pub scroll_lines_per_mousemove: usize,
}

impl Default for Settings {
    /// Tab stops of four spaces; round, curly and square brackets; three
    /// lines per wheel step and one per drag step.
    fn default() -> (settings: Self)
        ensures
            settings.tab_width == 4,
            settings.brackets@ == seq![
                BracketPair { open: '(', close: ')' },
                BracketPair { open: '{', close: '}' },
                BracketPair { open: '[', close: ']' },
            ],
            settings.scroll_lines_per_roll == 3,
            settings.scroll_lines_per_mousemove == 1,
    {
        let mut brackets: Vec<BracketPair> = Vec::new();
        brackets.push(BracketPair { open: '(', close: ')' });
        brackets.push(BracketPair { open: '{', close: '}' });
        brackets.push(BracketPair { open: '[', close: ']' });
        assert(brackets@ =~= seq![
            BracketPair { open: '(', close: ')' },
            BracketPair { open: '{', close: '}' },
            BracketPair { open: '[', close: ']' },
        ]);
        Settings {
            tab_width: 4,
            brackets,
            scroll_lines_per_roll: 3,
            scroll_lines_per_mousemove: 1,
        }
    }
}

} // verus!
