//! Source indexing and tokenization: buffers, spans, the scanner and its
//! diagnostics.

pub mod error;
pub mod source;
pub mod span;
pub mod text;
pub mod token;
pub mod unicode;
