//! Text content and its division into lines.

pub mod lines;
pub mod text_document;

pub use text_document::TextDocument;
