//! Core of a terminal note browser: a line-oriented store for note files
//! (parsing, single-line edits, prefix styling) and a cursor-over-sequence
//! selection model shared by the file list and the content view.
//!
//! One failure policy throughout: a note that cannot be read degrades to a
//! document of zero lines, while an edit that cannot land (no such line)
//! is refused with an explicit empty result, never an index fault.

pub mod app;
pub mod lines;
pub mod list;
