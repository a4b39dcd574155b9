//! Whole-collection persistence of notes: the note model, the notes file's
//! JSON layout, the error taxonomy, and the decisions taken while loading and
//! saving. The host performs the file-system work and reports back.
pub mod error;
pub mod note;
pub mod render;
pub mod session;
