//! Builders for note endpoints.
//!
//! These endpoints list and retrieve notes.

mod list;
mod note;

pub use self::list::List;
pub use self::list::ListBuilder;
pub use self::note::Note;
pub use self::note::NoteBuilder;
