//! Building blocks of an Anki card field editor that talks to AnkiConnect:
//! the text edits applied to note fields, the requests sent to the
//! AnkiConnect server, and the decoding of its replies.

pub mod text;
pub mod edits;
pub mod keyed;
pub mod json;
pub mod requests;
pub mod responses;
pub mod notes;
pub mod form;
