//! Structured values and their textual forms.
//!
//! The crate models records, tuples, tagged unions and sequences, reads
//! sequences with bounds checks, routes tagged unions to one handler per
//! alternative, and renders values as text in a display form and in a
//! structural debug form. Every function carries a contract that Verus proves.

pub mod sequence;
pub mod text;
pub mod event;
pub mod operation;
pub mod value;
pub mod debug;
pub mod render;
pub mod list;
pub mod records;
pub mod template;
