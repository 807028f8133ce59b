//! A part of one source buffer: a half-open range over it, sharing the
//! buffer, used for token locations and diagnostic highlighting.

use std::sync::Arc;

use vstd::prelude::*;
use vstd::string::StrSliceExecFns;

use super::text::SourceText;

verus! {

/// A range `(from, to)` with `from <= to` over one shared source buffer.
/// Token spans and line spans count logical positions; diagnostic spans
/// count bytes, which is what a report renderer wants.
#[derive(Debug)]
pub struct SourceSpan {
    pub source: Arc<SourceText>,
    pub range: (u64, u64),
}

impl SourceSpan {
    /// A span over `source` covering `range`.
    pub fn from(source: Arc<SourceText>, range: (u64, u64)) -> (r: SourceSpan)
        requires
            range.0 <= range.1,
        ensures
            r.source == source,
            r.range == range,
    {
        SourceSpan { source, range }
    }

    /// The substring the span covers, for a span whose range counts logical
    /// positions inside the buffer.
    pub fn text(&self) -> (r: &str)
        requires
            (*self.source).wf(),
            self.range.0 <= self.range.1,
            self.range.1 <= (*self.source).text@.len(),
        ensures
            r@ == (*self.source).text@.subrange(self.range.0 as int, self.range.1 as int),
    {
        let n = self.source.text_chars.len();
        proof {
            assert(self.range.1 <= n);
        }
        self.source.text.as_str().substring_char(self.range.0 as usize, self.range.1 as usize)
    }
}

} // verus!
