//! Inspect and fill the interactive form fields of a PDF document.
//!
//! The document itself is loaded, resolved and saved by the `lopdf` object
//! model; this crate discovers the form's terminal fields, classifies each
//! one, reads a typed state snapshot per field, and validates and applies
//! edits to field values, regenerating the cached appearance stream of a
//! text field after an edit.

pub mod appearance;
pub mod classify;
pub mod extract;
pub mod flags;
pub mod fontspec;
pub mod form;
pub mod laws;
pub mod model;
pub mod pdfdoc;
pub mod state;
pub mod text;

pub use extract::{get_field_flags, get_on_value, is_read_only, is_required};
pub use fontspec::parse_font;
pub use form::Form;
pub use model::{FieldState, FieldType, LoadError, ValueError};
