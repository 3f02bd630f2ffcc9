//! Viewport and cursor engine of a terminal text editor.
//!
//! `editor` holds the core: a region of the screen with its size, a cursor
//! that stays inside it, a scroll offset, and the part of each content line
//! that shows. `document` divides text into lines. `core_data`, `bars` and
//! `program` keep the state of the running program and say what each input
//! event does to it; reading the terminal and drawing on it are left to the
//! front end.

pub mod bars;
pub mod core_data;
pub mod document;
pub mod editor;
pub mod program;

pub use core_data::CoreData;
pub use program::Program;
