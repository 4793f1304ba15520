//! Core state and rules of a terminal note-capture tool that files notes
//! by type and PARA category.
//!
//! The crate holds the decisions only: which field has the focus, which
//! list entry is selected, how a note's file name is put together, how the
//! listing of existing notes is assembled, and what the application does on
//! each key. Reading the keyboard, the disk and the screen is left to the
//! program built around it: it hands in what it read and carries out the
//! effects that come back.

pub mod app;
pub mod config;
pub mod error;
pub mod focus;
pub mod keys;
pub mod listing;
pub mod naming;
pub mod notes;
pub mod preview;
pub mod selection;
pub mod text_input;

pub use app::{App, Effect, KeyAction};
pub use config::{ConfigFile, TinoDirs};
pub use error::TinoError;
pub use focus::{advance_focus, FieldId};
pub use keys::{EditKey, InputEvent, KeyCode, KeyEventKind, KeyInput};
pub use listing::{DirRead, FoundFile, NoteEntry};
pub use notes::{Category, TinoFileTypes};
pub use preview::PreviewState;
pub use selection::{list_next, list_previous, SelectableList};
pub use text_input::TextInputState;
