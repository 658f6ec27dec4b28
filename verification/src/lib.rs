//! The text-editing core of a code editor: a rope-backed document, caret and
//! selection motion, a viewport window over the document, change events for
//! language-server synchronisation and local correction of semantic
//! highlights, each with a machine-checked contract.

pub mod buffer;
pub mod classify;
pub mod digits;
pub mod editor;
pub mod lines;
pub mod model;
pub mod events;
pub mod highlight;
pub mod laws;
pub mod settings;
pub mod store;
