//! Core of a single-document text editor: a linear undo history of whole
//! snapshots, a gate that suspends edits while a command chord is held, and
//! the state machine that ties them to document, path, dirty flag and the
//! results of file operations.

pub mod editor;
pub mod error;
pub mod gate;
pub mod history;
