//! Where a piece of source text came from: memory, a file, or an unknown
//! place. Pure metadata, created once when a buffer is built.

use vstd::prelude::*;

verus! {

/// Describes the origin of a source text.
#[derive(Debug)]
pub struct CodeSource {
    pub from: String,
}

impl CodeSource {
    /// An origin for text whose provenance nobody recorded.
    pub fn unknown_source() -> (r: CodeSource)
        ensures
            r.from@ == "unknown code source"@,
    {
        CodeSource::new("unknown code source")
    }

    /// An origin described by the given text.
    pub fn new(from: &str) -> (r: CodeSource)
        ensures
            r.from@ == from@,
    {
        CodeSource { from: String::from_str(from) }
    }

    /// An origin naming the file the text was read from.
    pub fn from_file(path: &str) -> (r: CodeSource)
        ensures
            r.from@ == "file:"@ + path@,
    {
        let mut from = String::from_str("file:");
        from.append(path);
        CodeSource { from }
    }

    /// The origin of text supplied directly by the caller.
    pub fn from_memory() -> (r: CodeSource)
        ensures
            r.from@ == "memory"@,
    {
        CodeSource::new("memory")
    }
}

} // verus!
