//! The immutable source buffer: the raw text together with an index of every
//! Unicode scalar value to its byte offset, built once at construction.

use std::sync::Arc;

use vstd::prelude::*;

use super::source::CodeSource;
use super::unicode::byte_offset_of;
use super::unicode::char_offsets;

verus! {

/// A source text and its character index. `text_chars` has one entry per
/// scalar value of `text`: the byte offset of that scalar value and the
/// scalar value itself. Logical positions index this sequence, never bytes.
#[derive(Debug)]
pub struct SourceText {
    pub source: CodeSource,
    pub text: String,
    pub text_chars: Vec<(u64, char)>,
}

impl SourceText {
    /// The character index is complete and correct: entry `i` holds the
    /// `i`-th scalar value of the text and its byte offset, and the byte
    /// length of the whole text fits below 2^63.
    pub open spec fn wf(self) -> bool {
        &&& self.text_chars@.len() == self.text@.len()
        &&& forall|i: int|
            0 <= i < self.text@.len() ==> (#[trigger] self.text_chars@[i]).1 == self.text@[i]
                && self.text_chars@[i].0 as int == byte_offset_of(self.text@, i)
        &&& byte_offset_of(self.text@, self.text@.len() as int) <= 0x7fff_ffff_ffff_ffff
    }

    /// The character index of `text`: each scalar value in order, paired with
    /// its byte offset.
    pub fn text_to_chars(text: &str) -> (r: Vec<(u64, char)>)
        ensures
            r@.len() == text@.len(),
            forall|i: int|
                0 <= i < r@.len() ==> (#[trigger] r@[i]).1 == text@[i] && r@[i].0 as int
                    == byte_offset_of(text@, i),
            byte_offset_of(text@, text@.len() as int) <= 0x7fff_ffff_ffff_ffff,
    {
        char_offsets(text)
    }

    /// A buffer over text supplied directly by the caller.
    pub fn from_memory(text: &str) -> (r: SourceText)
        ensures
            r.wf(),
            r.text@ == text@,
            r.source.from@ == "memory"@,
    {
        let owned = String::from_str(text);
        SourceText {
            source: CodeSource::from_memory(),
            text_chars: SourceText::text_to_chars(text),
            text: owned,
        }
    }
}

/// Reading a logical position of a well-formed buffer yields a code point
/// exactly when it is the scalar value of the text at that position: for
/// every valid `i`, the indexed character at `i` equals `c` if and only if
/// `c` is the `i`-th scalar value of the text.
pub proof fn lemma_char_at(buffer: SourceText, i: int, c: char)
    requires
        buffer.wf(),
        0 <= i < buffer.text@.len(),
    ensures
        buffer.text_chars@[i].1 == c <==> buffer.text@[i] == c,
{
}

/// Relies on Arc::clone: the returned handle shares the very same buffer.
#[verifier::external_body]
pub(crate) fn share_text(source: &Arc<SourceText>) -> (r: Arc<SourceText>)
    ensures
        r == *source,
{
    source.clone()
}

} // verus!
