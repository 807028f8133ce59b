//! The structured diagnostics every scanning failure produces: a renderable
//! payload carrying the full source text and the offending span, wrapped in
//! typed errors with human-readable expectations.

use vstd::prelude::*;

use super::span::SourceSpan;

verus! {

/// Everything a report renderer needs to excerpt the failure: the complete
/// source text and a byte-accurate span of the offending location.
#[derive(Debug)]
pub struct ParseDiagnostic {
    pub src: String,
    pub err_span: SourceSpan,
}

/// A recognizer found a character that violates the expected grammar.
#[derive(Debug)]
pub struct UnexpectCharacterError {
    pub expect: String,
    pub actual: String,
    pub diagnostic: ParseDiagnostic,
}

/// A recognizer ran out of input in the middle of a construct.
#[derive(Debug)]
pub struct UnexpectEndOfSource {
    pub expect: String,
    pub diagnostic: ParseDiagnostic,
}

/// Any failure a recognizer can produce.
#[derive(Debug)]
pub enum ScanError {
    UnexpectCharacter(UnexpectCharacterError),
    UnexpectEndOfSource(UnexpectEndOfSource),
}

} // verus!
