//! The cursor-driven scanner: a single mutable logical position over one
//! shared source buffer, with character-level primitives and the recognizers
//! that turn text into values or typed diagnostics.

use std::sync::Arc;

use vstd::prelude::*;

use super::error::ParseDiagnostic;
use super::error::ScanError;
use super::error::UnexpectCharacterError;
use super::error::UnexpectEndOfSource;
use super::span::SourceSpan;
use super::text::SourceText;
use super::text::share_text;
use super::unicode::byte_offset_of;
use super::unicode::hex_digit;
use super::unicode::hex_value;
use super::unicode::hex_digit_value;
use super::unicode::utf8_width;
use super::unicode::utf8_width_of;
use super::unicode::unicode_scalar;
use super::unicode::whitespace;
use super::unicode::xid_continue;
use super::unicode::xid_start;

verus! {

/// First position at or after `i` that is the end of the text or holds a
/// non-whitespace character.
pub open spec fn ws_end(text: Seq<char>, i: int) -> int
    recommends
        0 <= i <= text.len(),
    decreases text.len() - i,
{
    if i < 0 || i >= text.len() {
        i
    } else if !whitespace(text[i]) {
        i
    } else {
        ws_end(text, i + 1)
    }
}

/// Begin of the line holding position `i`: one past the nearest `'\n'`
/// before `i`, or the begin of the text when no `'\n'` precedes `i`.
pub open spec fn line_begin_pos(text: Seq<char>, i: int) -> int
    recommends
        0 <= i <= text.len(),
    decreases i,
{
    if i <= 0 {
        0
    } else if text[i - 1] == '\n' {
        i
    } else {
        line_begin_pos(text, i - 1)
    }
}

/// End of the line holding position `i`: the first position at or after `i`
/// holding `'\n'`, or the end of the text.
pub open spec fn line_end_pos(text: Seq<char>, i: int) -> int
    recommends
        0 <= i <= text.len(),
    decreases text.len() - i,
{
    if i < 0 || i >= text.len() {
        i
    } else if text[i] == '\n' {
        i
    } else {
        line_end_pos(text, i + 1)
    }
}

/// First position at or after `i` that is the end of the text or holds a
/// character without the identifier-continue property.
pub open spec fn ident_end_pos(text: Seq<char>, i: int) -> int
    recommends
        0 <= i <= text.len(),
    decreases text.len() - i,
{
    if i < 0 || i >= text.len() {
        i
    } else if !xid_continue(text[i]) {
        i
    } else {
        ident_end_pos(text, i + 1)
    }
}

/// Characters that may follow a backslash as a one-character escape.
pub open spec fn simple_escape(c: char) -> bool {
    c == '0' || c == '\\' || c == 'r' || c == 'n' || c == 't' || c == '\'' || c == '"'
}

/// The character a one-character escape stands for.
pub open spec fn simple_escape_value(c: char) -> char
    recommends
        simple_escape(c),
{
    if c == '0' {
        '\0'
    } else if c == '\\' {
        '\\'
    } else if c == 'r' {
        '\r'
    } else if c == 'n' {
        '\n'
    } else if c == 't' {
        '\t'
    } else if c == '\'' {
        '\''
    } else {
        '"'
    }
}

/// Outcome of scanning a quoted string's body: the decoded characters and
/// the position past the closing quote; or a character that violates the
/// escape grammar, at its position and with the expectation it violates; or
/// the end of the text reached inside the string, with the cursor position
/// that failure leaves (the backslash itself for a trailing backslash, the
/// end of the text otherwise) and the missing part.
pub enum StringScan {
    Value { chars: Seq<char>, end: int },
    BadChar { at: int, expect: Seq<char>, actual: Seq<char> },
    BadEnd { at: int, expect: Seq<char> },
}

/// Prepends already-decoded characters to a scan outcome.
pub open spec fn scan_prefixed(prefix: Seq<char>, r: StringScan) -> StringScan {
    match r {
        StringScan::Value { chars, end } => StringScan::Value { chars: prefix + chars, end },
        _ => r,
    }
}

/// Scan of a quoted string's body from position `i` (just past the opening
/// quote): decodes every escape, ends at an unescaped quote, and fails on a
/// malformed escape or on the end of the text.
pub open spec fn scan_string_body(text: Seq<char>, i: int) -> StringScan
    recommends
        0 <= i <= text.len(),
    decreases text.len() - i,
{
    if i < 0 || i >= text.len() {
        StringScan::BadEnd { at: text.len() as int, expect: "a \" to end string"@ }
    } else if text[i] == '"' {
        StringScan::Value { chars: seq![], end: i + 1 }
    } else if text[i] == '\\' {
        if i + 1 >= text.len() {
            StringScan::BadEnd { at: i, expect: "a escape sequence after \\"@ }
        } else {
            let e = text[i + 1];
            if simple_escape(e) {
                scan_prefixed(seq![simple_escape_value(e)], scan_string_body(text, i + 2))
            } else if e == 'x' {
                if i + 2 >= text.len() {
                    StringScan::BadEnd { at: text.len() as int, expect: "a hexadecimal unicode code point"@ }
                } else if !hex_digit(text[i + 2]) {
                    StringScan::BadChar { at: i + 2, expect: "a hexadecimal unicode code point"@, actual: "a non-hexadecimal character"@ }
                } else if i + 3 >= text.len() {
                    StringScan::BadEnd { at: text.len() as int, expect: "a hexadecimal unicode code point"@ }
                } else if !hex_digit(text[i + 3]) {
                    StringScan::BadChar { at: i + 3, expect: "a hexadecimal unicode code point"@, actual: "a non-hexadecimal character"@ }
                } else {
                    let v = hex_value(text[i + 2]) * 16 + hex_value(text[i + 3]);
                    scan_prefixed(seq![((v as u32) as char)], scan_string_body(text, i + 4))
                }
            } else if e == 'u' {
                if i + 2 >= text.len() {
                    StringScan::BadEnd { at: text.len() as int, expect: "a hexadecimal unicode code point"@ }
                } else if !hex_digit(text[i + 2]) {
                    StringScan::BadChar { at: i + 2, expect: "a hexadecimal unicode code point"@, actual: "a non-hexadecimal character"@ }
                } else if i + 3 >= text.len() {
                    StringScan::BadEnd { at: text.len() as int, expect: "a hexadecimal unicode code point"@ }
                } else if !hex_digit(text[i + 3]) {
                    StringScan::BadChar { at: i + 3, expect: "a hexadecimal unicode code point"@, actual: "a non-hexadecimal character"@ }
                } else if i + 4 >= text.len() {
                    StringScan::BadEnd { at: text.len() as int, expect: "a hexadecimal unicode code point"@ }
                } else if !hex_digit(text[i + 4]) {
                    StringScan::BadChar { at: i + 4, expect: "a hexadecimal unicode code point"@, actual: "a non-hexadecimal character"@ }
                } else if i + 5 >= text.len() {
                    StringScan::BadEnd { at: text.len() as int, expect: "a hexadecimal unicode code point"@ }
                } else if !hex_digit(text[i + 5]) {
                    StringScan::BadChar { at: i + 5, expect: "a hexadecimal unicode code point"@, actual: "a non-hexadecimal character"@ }
                } else {
                    let v = ((hex_value(text[i + 2]) * 16 + hex_value(text[i + 3])) * 16
                        + hex_value(text[i + 4])) * 16 + hex_value(text[i + 5]);
                    if !unicode_scalar(v as u32) {
                        StringScan::BadChar {
                            at: i + 6,
                            expect: "a unicode scalar value after \\u"@,
                            actual: "a surrogate code point"@,
                        }
                    } else {
                        scan_prefixed(seq![((v as u32) as char)], scan_string_body(text, i + 6))
                    }
                }
            } else {
                StringScan::BadChar {
                    at: i + 1,
                    expect: "a escape sequence after \\"@,
                    actual: "unknown escape sequence"@,
                }
            }
        }
    } else {
        scan_prefixed(seq![text[i]], scan_string_body(text, i + 1))
    }
}

proof fn lemma_scan_prefixed_join(a: Seq<char>, b: Seq<char>, r: StringScan)
    ensures
        scan_prefixed(a, scan_prefixed(b, r)) == scan_prefixed(a + b, r),
{
    match r {
        StringScan::Value { chars, end } => {
            assert(a + (b + chars) =~= (a + b) + chars);
        },
        _ => {},
    }
}

proof fn lemma_line_begin_le(text: Seq<char>, i: int)
    requires
        0 <= i,
    ensures
        0 <= line_begin_pos(text, i) <= i,
    decreases i,
{
    if i > 0 && text[i - 1] != '\n' {
        lemma_line_begin_le(text, i - 1);
    }
}

proof fn lemma_line_end_ge(text: Seq<char>, i: int)
    requires
        0 <= i <= text.len(),
    ensures
        i <= line_end_pos(text, i) <= text.len(),
    decreases text.len() - i,
{
    if i < text.len() && text[i] != '\n' {
        lemma_line_end_ge(text, i + 1);
    }
}

/// A pull-based scanner over one shared source buffer: an exclusive logical
/// cursor in `0 ..= length`, advanced by every primitive and recognizer.
pub struct TokenStream {
    pub source: Arc<SourceText>,
    pub index: u64,
}

impl TokenStream {
    /// The scalar values of the buffer under the cursor.
    pub open spec fn text(self) -> Seq<char> {
        (*self.source).text@
    }

    /// The cursor's logical position.
    pub open spec fn pos(self) -> int {
        self.index as int
    }

    /// The shared buffer the cursor walks.
    pub open spec fn buffer(self) -> Arc<SourceText> {
        self.source
    }

    /// The buffer's index is well formed and the cursor is inside `0 ..= length`.
    pub open spec fn wf(self) -> bool {
        &&& (*self.source).wf()
        &&& 0 <= self.pos() <= self.text().len()
    }

    /// A scanner over `source`, with the cursor at the begin of the text.
    pub fn from(source: Arc<SourceText>) -> (r: TokenStream)
        ensures
            r.buffer() == source,
            r.pos() == 0,
            (*source).wf() ==> r.wf(),
    {
        TokenStream { source, index: 0 }
    }

    /// Whether the cursor is at the begin of the text.
    pub fn is_front(&self) -> (r: bool)
        requires
            self.wf(),
        ensures
            r == (self.pos() == 0),
    {
        self.index == 0
    }

    /// Whether the cursor is at the end of the text.
    pub fn is_end(&self) -> (r: bool)
        requires
            self.wf(),
        ensures
            r == (self.pos() == self.text().len()),
    {
        self.index >= self.source.text_chars.len() as u64
    }

    /// Advances the cursor by one scalar value where one is left, and says
    /// whether the cursor then stands at the end of the text.
    pub fn move_next(&mut self) -> (r: bool)
        requires
            old(self).wf(),
        ensures
            final(self).wf(),
            final(self).buffer() == old(self).buffer(),
            final(self).pos() == if old(self).pos() == old(self).text().len() {
                old(self).pos()
            } else {
                old(self).pos() + 1
            },
            r == (final(self).pos() == final(self).text().len()),
    {
        let n = self.source.text_chars.len() as u64;
        if self.index >= n {
            return true;
        }
        self.index = self.index + 1;
        self.index == n
    }

    /// Moves the cursor back by one scalar value, unless it is at the begin
    /// of the text already.
    pub fn move_back(&mut self)
        requires
            old(self).wf(),
        ensures
            final(self).wf(),
            final(self).buffer() == old(self).buffer(),
            final(self).pos() == if old(self).pos() == 0 {
                0
            } else {
                old(self).pos() - 1
            },
    {
        if self.index == 0 {
            return;
        }
        self.index = self.index - 1;
    }

    /// The scalar value under the cursor: `None` exactly at the end of the
    /// text.
    pub fn get_current(&self) -> (r: Option<char>)
        requires
            self.wf(),
        ensures
            r == if self.pos() < self.text().len() {
                Some(self.text()[self.pos()])
            } else {
                None::<char>
            },
    {
        if self.index >= self.source.text_chars.len() as u64 {
            None
        } else {
            Some(self.source.text_chars[self.index as usize].1)
        }
    }

    /// Takes the next `length` scalar values, advancing the cursor past them.
    /// Where fewer are left, takes all of them, leaves the cursor at the end
    /// of the text, and returns `None`.
    #[verifier::loop_isolation(false)]
    pub fn get_some(&mut self, length: u64) -> (r: Option<String>)
        requires
            old(self).wf(),
        ensures
            final(self).wf(),
            final(self).buffer() == old(self).buffer(),
            ({
                let t = old(self).text();
                let p = old(self).pos();
                if p + length <= t.len() {
                    &&& final(self).pos() == p + length
                    &&& r matches Some(s) && s@ == t.subrange(p, p + length)
                } else {
                    &&& final(self).pos() == t.len()
                    &&& r is None
                }
            }),
    {
        let ghost t = old(self).text();
        let ghost p = old(self).pos();
        let n = self.source.text_chars.len() as u64;
        let mut got = String::new();
        let mut k: u64 = 0;
        while k < length
            invariant
                self.wf(),
                self.source == old(self).source,
                n == t.len(),
                0 <= k <= length,
                self.pos() == p + k,
                self.pos() <= t.len(),
                got@ == t.subrange(p, p + k),
            decreases length - k,
        {
            if self.index >= n {
                return None;
            }
            let c = self.source.text_chars[self.index as usize].1;
            got.push(c);
            self.index = self.index + 1;
            k = k + 1;
            proof {
                assert(got@ =~= t.subrange(p, p + k));
            }
        }
        Some(got)
    }

    /// Advances the cursor past every whitespace scalar value under it.
    #[verifier::loop_isolation(false)]
    pub fn skip_blank(&mut self)
        requires
            old(self).wf(),
        ensures
            final(self).wf(),
            final(self).buffer() == old(self).buffer(),
            final(self).pos() == ws_end(old(self).text(), old(self).pos()),
    {
        let ghost t = old(self).text();
        let ghost p = old(self).pos();
        let n = self.source.text_chars.len() as u64;
        while self.index < n && self.source.text_chars[self.index as usize].1.is_whitespace()
            invariant
                self.wf(),
                self.source == old(self).source,
                n == t.len(),
                p <= self.pos() <= t.len(),
                ws_end(t, p) == ws_end(t, self.pos()),
            decreases t.len() - self.pos(),
        {
            proof {
                assert(ws_end(t, self.pos()) == ws_end(t, self.pos() + 1));
            }
            self.index = self.index + 1;
        }
        proof {
            assert(ws_end(t, self.pos()) == self.pos());
        }
    }

    /// Advances the cursor past the rest of the line: past every scalar value
    /// before the next `'\n'`, then past that `'\n'` itself where there is one.
    #[verifier::loop_isolation(false)]
    pub fn skip_line(&mut self)
        requires
            old(self).wf(),
        ensures
            final(self).wf(),
            final(self).buffer() == old(self).buffer(),
            final(self).pos() == if line_end_pos(old(self).text(), old(self).pos())
                < old(self).text().len() {
                line_end_pos(old(self).text(), old(self).pos()) + 1
            } else {
                old(self).text().len() as int
            },
    {
        let ghost t = old(self).text();
        let ghost p = old(self).pos();
        let n = self.source.text_chars.len() as u64;
        while self.index < n && self.source.text_chars[self.index as usize].1 != '\n'
            invariant
                self.wf(),
                self.source == old(self).source,
                n == t.len(),
                p <= self.pos() <= t.len(),
                line_end_pos(t, p) == line_end_pos(t, self.pos()),
            decreases t.len() - self.pos(),
        {
            proof {
                assert(line_end_pos(t, self.pos()) == line_end_pos(t, self.pos() + 1));
            }
            self.index = self.index + 1;
        }
        proof {
            assert(line_end_pos(t, self.pos()) == self.pos());
        }
        if self.index < n {
            self.index = self.index + 1;
        }
    }

    /// Begin of the line the cursor stands on: one past the nearest `'\n'`
    /// before the cursor, or the begin of the text.
    #[verifier::loop_isolation(false)]
    pub fn get_line_begin(&self) -> (r: u64)
        requires
            self.wf(),
        ensures
            r as int == line_begin_pos(self.text(), self.pos()),
    {
        let ghost t = self.text();
        let n = self.source.text_chars.len() as u64;
        if self.index == 0 {
            return 0;
        }
        let mut r: u64 = self.index - 1;
        proof {
            assert(r < n);
        }
        while r > 0 && self.source.text_chars[r as usize].1 != '\n'
            invariant
                self.wf(),
                0 <= r < self.pos(),
                self.pos() <= t.len(),
                line_begin_pos(t, self.pos()) == line_begin_pos(t, r + 1),
            decreases r,
        {
            proof {
                assert(line_begin_pos(t, r + 1) == line_begin_pos(t, r as int));
            }
            r = r - 1;
        }
        if self.source.text_chars[r as usize].1 == '\n' {
            proof {
                assert(line_begin_pos(t, r + 1) == r + 1);
            }
            r + 1
        } else {
            proof {
                assert(line_begin_pos(t, r + 1) == line_begin_pos(t, r as int));
                assert(line_begin_pos(t, 0) == 0);
            }
            0
        }
    }

    /// End of the line the cursor stands on: the position of the next `'\n'`
    /// at or after the cursor, or the end of the text.
    #[verifier::loop_isolation(false)]
    pub fn get_line_end(&self) -> (r: u64)
        requires
            self.wf(),
        ensures
            r as int == line_end_pos(self.text(), self.pos()),
    {
        let ghost t = self.text();
        let n = self.source.text_chars.len() as u64;
        let mut cur = self.index;
        while cur < n && self.source.text_chars[cur as usize].1 != '\n'
            invariant
                self.wf(),
                n == t.len(),
                self.pos() <= cur <= t.len(),
                line_end_pos(t, self.pos()) == line_end_pos(t, cur as int),
            decreases t.len() - cur,
        {
            proof {
                assert(line_end_pos(t, cur as int) == line_end_pos(t, cur + 1));
            }
            cur = cur + 1;
        }
        cur
    }

    /// The span of the line the cursor stands on, in logical positions, for
    /// diagnostic context.
    pub fn get_current_line_span(&self) -> (r: SourceSpan)
        requires
            self.wf(),
        ensures
            r.source == self.buffer(),
            r.range.0 as int == line_begin_pos(self.text(), self.pos()),
            r.range.1 as int == line_end_pos(self.text(), self.pos()),
    {
        proof {
            lemma_line_begin_le(self.text(), self.pos());
            lemma_line_end_ge(self.text(), self.pos());
        }
        SourceSpan::from(share_text(&self.source), (self.get_line_begin(), self.get_line_end()))
    }

    /// The diagnostic payload for a failure at the cursor: the full source
    /// text, and a byte-accurate span of `length` bytes starting at the
    /// cursor's byte offset.
    pub fn get_diagnotic(&self, length: u64) -> (r: ParseDiagnostic)
        requires
            self.wf(),
            length <= 0x7fff_ffff_ffff_ffff,
        ensures
            r.src@ == self.text(),
            r.err_span.source == self.buffer(),
            r.err_span.range.0 as int == byte_offset_of(self.text(), self.pos()),
            r.err_span.range.1 as int == byte_offset_of(self.text(), self.pos()) + length,
    {
        let ghost t = self.text();
        let n = self.source.text_chars.len();
        let offset: u64 = if self.index < n as u64 {
            self.source.text_chars[self.index as usize].0
        } else {
            if n == 0 {
                0
            } else {
                let last = self.source.text_chars[n - 1];
                proof {
                    assert(byte_offset_of(t, n as int) == byte_offset_of(t, n - 1) + utf8_width(
                        t[n - 1],
                    ));
                }
                last.0 + utf8_width_of(last.1)
            }
        };
        proof {
            lemma_byte_offset_le_total(t, self.pos());
        }
        ParseDiagnostic {
            src: self.source.text.clone(),
            err_span: SourceSpan::from(share_text(&self.source), (offset, offset + length)),
        }
    }

    /// Reads an identifier: one identifier-start character followed by every
    /// identifier-continue character after it. Fails without consuming where
    /// the cursor does not stand on an identifier-start character.
    #[verifier::loop_isolation(false)]
    pub fn read_identification(&mut self) -> (r: Result<String, UnexpectCharacterError>)
        requires
            old(self).wf(),
        ensures
            final(self).wf(),
            final(self).buffer() == old(self).buffer(),
            ({
                let t = old(self).text();
                let p = old(self).pos();
                if p < t.len() && xid_start(t[p]) {
                    &&& r matches Ok(s) && s@ == t.subrange(p, ident_end_pos(t, p + 1))
                    &&& final(self).pos() == ident_end_pos(t, p + 1)
                } else {
                    &&& r matches Err(e) && e.expect@ == "a unicode xid start code point"@
                        && e.actual@ == "others"@ && e.diagnostic.src@ == t
                        && e.diagnostic.err_span.range.0 as int == byte_offset_of(t, p)
                    &&& final(self).pos() == p
                }
            }),
    {
        let ghost t = old(self).text();
        let ghost p = old(self).pos();
        let n = self.source.text_chars.len() as u64;
        let start_ok: bool = if self.index >= n {
            false
        } else {
            unicode_ident::is_xid_start(self.source.text_chars[self.index as usize].1)
        };
        if !start_ok {
            return Err(UnexpectCharacterError {
                diagnostic: self.get_diagnotic(1),
                expect: String::from_str("a unicode xid start code point"),
                actual: String::from_str("others"),
            });
        }
        let mut identification = String::new();
        identification.push(self.source.text_chars[self.index as usize].1);
        self.index = self.index + 1;
        proof {
            assert(identification@ =~= t.subrange(p, p + 1));
        }
        while self.index < n && unicode_ident::is_xid_continue(
            self.source.text_chars[self.index as usize].1,
        )
            invariant
                self.wf(),
                self.source == old(self).source,
                p + 1 <= self.pos() <= t.len(),
                identification@ == t.subrange(p, self.pos()),
                ident_end_pos(t, p + 1) == ident_end_pos(t, self.pos()),
            decreases t.len() - self.pos(),
        {
            proof {
                assert(ident_end_pos(t, self.pos()) == ident_end_pos(t, self.pos() + 1));
            }
            identification.push(self.source.text_chars[self.index as usize].1);
            self.index = self.index + 1;
            proof {
                assert(identification@ =~= t.subrange(p, self.pos()));
            }
        }
        proof {
            assert(ident_end_pos(t, self.pos()) == self.pos());
        }
        Ok(identification)
    }

    /// Reads a quoted string, decoding its escapes: the one-character escapes
    /// after a backslash, `x` with two hexadecimal digits, and `u` with four.
    /// Fails without consuming where the cursor does not stand on `'"'`; on a
    /// malformed escape the cursor is left on the offending character; where
    /// the text ends inside the string it is left at the end, except after a
    /// bare trailing backslash, where it backtracks onto the backslash.
    #[verifier::loop_isolation(false)]
    pub fn read_string(&mut self) -> (r: Result<String, ScanError>)
        requires
            old(self).wf(),
        ensures
            final(self).wf(),
            final(self).buffer() == old(self).buffer(),
            ({
                let t = old(self).text();
                let p = old(self).pos();
                if p < t.len() && t[p] == '"' {
                    match scan_string_body(t, p + 1) {
                        StringScan::Value { chars, end } => {
                            &&& r matches Ok(s) && s@ == chars
                            &&& final(self).pos() == end
                        },
                        StringScan::BadChar { at, expect, actual } => {
                            &&& r matches Err(ScanError::UnexpectCharacter(e)) && e.expect@
                                == expect && e.actual@ == actual && e.diagnostic.src@ == t
                                && e.diagnostic.err_span.range.0 as int == byte_offset_of(t, at)
                            &&& final(self).pos() == at
                        },
                        StringScan::BadEnd { at, expect } => {
                            &&& r matches Err(ScanError::UnexpectEndOfSource(e)) && e.expect@
                                == expect && e.diagnostic.src@ == t
                                && e.diagnostic.err_span.range.0 as int == byte_offset_of(t, at)
                            &&& final(self).pos() == at
                        },
                    }
                } else {
                    &&& r matches Err(ScanError::UnexpectCharacter(e)) && e.expect@
                        == "a string begin with \""@ && e.actual@ == "others"@
                        && e.diagnostic.src@ == t && e.diagnostic.err_span.range.0 as int
                        == byte_offset_of(t, p)
                    &&& final(self).pos() == p
                }
            }),
    {
        let ghost t = old(self).text();
        let ghost p = old(self).pos();
        let n = self.source.text_chars.len() as u64;
        let quote_ok: bool = if self.index >= n {
            false
        } else {
            self.source.text_chars[self.index as usize].1 == '"'
        };
        if !quote_ok {
            return Err(ScanError::UnexpectCharacter(UnexpectCharacterError {
                diagnostic: self.get_diagnotic(1),
                expect: String::from_str("a string begin with \""),
                actual: String::from_str("others"),
            }));
        }
        self.index = self.index + 1;
        let ghost body = p + 1;
        let mut string = String::new();
        loop
            invariant
                self.wf(),
                self.source == old(self).source,
                body <= self.pos() <= t.len(),
                scan_string_body(t, body) == scan_prefixed(string@, scan_string_body(t, self.pos())),
            decreases t.len() - self.pos(),
        {
            let ghost cur = self.pos();
            if self.index >= n {
                return Err(ScanError::UnexpectEndOfSource(UnexpectEndOfSource {
                    expect: String::from_str("a \" to end string"),
                    diagnostic: self.get_diagnotic(1),
                }));
            }
            let c = self.source.text_chars[self.index as usize].1;
            if c == '"' {
                self.index = self.index + 1;
                proof {
                    assert(string@ + Seq::<char>::empty() =~= string@);
                }
                return Ok(string);
            }
            if c == '\\' {
                self.index = self.index + 1;
                if self.index >= n {
                    self.index = self.index - 1;
                    return Err(ScanError::UnexpectEndOfSource(UnexpectEndOfSource {
                        expect: String::from_str("a escape sequence after \\"),
                        diagnostic: self.get_diagnotic(1),
                    }));
                }
                let e = self.source.text_chars[self.index as usize].1;
                if e == '0' || e == '\\' || e == 'r' || e == 'n' || e == 't' || e == '\'' || e
                    == '"' {
                    let decoded: char = if e == '0' {
                        '\0'
                    } else if e == '\\' {
                        '\\'
                    } else if e == 'r' {
                        '\r'
                    } else if e == 'n' {
                        '\n'
                    } else if e == 't' {
                        '\t'
                    } else if e == '\'' {
                        '\''
                    } else {
                        '"'
                    };
                    let ghost before = string@;
                    string.push(decoded);
                    self.index = self.index + 1;
                    proof {
                        assert(scan_string_body(t, cur) == scan_prefixed(
                            seq![simple_escape_value(t[cur + 1])],
                            scan_string_body(t, cur + 2),
                        ));
                        lemma_scan_prefixed_join(
                            before,
                            seq![simple_escape_value(t[cur + 1])],
                            scan_string_body(t, cur + 2),
                        );
                        assert(string@ =~= before + seq![simple_escape_value(t[cur + 1])]);
                    }
                } else if e == 'x' {
                    self.index = self.index + 1;
                    let v1 = match self.read_hex_digit() {
                        Ok(v) => v,
                        Err(err) => return Err(err),
                    };
                    let v2 = match self.read_hex_digit() {
                        Ok(v) => v,
                        Err(err) => return Err(err),
                    };
                    let v: u32 = v1 * 16 + v2;
                    let ghost before = string@;
                    let decoded = char::from_u32(v).unwrap();
                    string.push(decoded);
                    proof {
                        vstd::utf8::char_u32_cast(decoded, v);
                        assert(scan_string_body(t, cur) == scan_prefixed(
                            seq![decoded],
                            scan_string_body(t, cur + 4),
                        ));
                        lemma_scan_prefixed_join(
                            before,
                            seq![decoded],
                            scan_string_body(t, cur + 4),
                        );
                        assert(string@ =~= before + seq![decoded]);
                    }
                } else if e == 'u' {
                    self.index = self.index + 1;
                    let v1 = match self.read_hex_digit() {
                        Ok(v) => v,
                        Err(err) => return Err(err),
                    };
                    let v2 = match self.read_hex_digit() {
                        Ok(v) => v,
                        Err(err) => return Err(err),
                    };
                    let v3 = match self.read_hex_digit() {
                        Ok(v) => v,
                        Err(err) => return Err(err),
                    };
                    let v4 = match self.read_hex_digit() {
                        Ok(v) => v,
                        Err(err) => return Err(err),
                    };
                    let v: u32 = ((v1 * 16 + v2) * 16 + v3) * 16 + v4;
                    match char::from_u32(v) {
                        Some(decoded) => {
                            let ghost before = string@;
                            string.push(decoded);
                            proof {
                                vstd::utf8::char_u32_cast(decoded, v);
                                assert(scan_string_body(t, cur) == scan_prefixed(
                                    seq![decoded],
                                    scan_string_body(t, cur + 6),
                                ));
                                lemma_scan_prefixed_join(
                                    before,
                                    seq![decoded],
                                    scan_string_body(t, cur + 6),
                                );
                                assert(string@ =~= before + seq![decoded]);
                            }
                        },
                        None => {
                            return Err(ScanError::UnexpectCharacter(UnexpectCharacterError {
                                diagnostic: self.get_diagnotic(1),
                                expect: String::from_str("a unicode scalar value after \\u"),
                                actual: String::from_str("a surrogate code point"),
                            }));
                        },
                    }
                } else {
                    return Err(ScanError::UnexpectCharacter(UnexpectCharacterError {
                        diagnostic: self.get_diagnotic(1),
                        expect: String::from_str("a escape sequence after \\"),
                        actual: String::from_str("unknown escape sequence"),
                    }));
                }
            } else {
                let ghost before = string@;
                string.push(c);
                self.index = self.index + 1;
                proof {
                    assert(scan_string_body(t, cur) == scan_prefixed(
                        seq![t[cur]],
                        scan_string_body(t, cur + 1),
                    ));
                    lemma_scan_prefixed_join(before, seq![t[cur]], scan_string_body(t, cur + 1));
                    assert(string@ =~= before + seq![t[cur]]);
                }
            }
        }
    }

    /// One hexadecimal digit of an `x` or `u` escape: reads the character
    /// under the cursor and advances past it, or fails the way the string
    /// recognizer reports a truncated or malformed escape.
    #[verifier::loop_isolation(false)]
    fn read_hex_digit(&mut self) -> (r: Result<u32, ScanError>)
        requires
            old(self).wf(),
        ensures
            final(self).wf(),
            final(self).buffer() == old(self).buffer(),
            ({
                let t = old(self).text();
                let p = old(self).pos();
                if p < t.len() && hex_digit(t[p]) {
                    &&& r matches Ok(v) && v == hex_value(t[p]) && v < 16
                    &&& final(self).pos() == p + 1
                } else if p < t.len() {
                    &&& r matches Err(ScanError::UnexpectCharacter(e)) && e.expect@
                        == "a hexadecimal unicode code point"@ && e.actual@
                        == "a non-hexadecimal character"@ && e.diagnostic.src@ == t
                        && e.diagnostic.err_span.range.0 as int == byte_offset_of(t, p)
                    &&& final(self).pos() == p
                } else {
                    &&& r matches Err(ScanError::UnexpectEndOfSource(e)) && e.expect@
                        == "a hexadecimal unicode code point"@ && e.diagnostic.src@ == t
                        && e.diagnostic.err_span.range.0 as int == byte_offset_of(t, t.len() as int)
                    &&& final(self).pos() == t.len()
                }
            }),
    {
        let n = self.source.text_chars.len() as u64;
        if self.index >= n {
            return Err(ScanError::UnexpectEndOfSource(UnexpectEndOfSource {
                expect: String::from_str("a hexadecimal unicode code point"),
                diagnostic: self.get_diagnotic(1),
            }));
        }
        let c = self.source.text_chars[self.index as usize].1;
        match hex_digit_value(c) {
            Some(v) => {
                self.index = self.index + 1;
                Ok(v)
            },
            None => Err(ScanError::UnexpectCharacter(UnexpectCharacterError {
                diagnostic: self.get_diagnotic(1),
                expect: String::from_str("a hexadecimal unicode code point"),
                actual: String::from_str("a non-hexadecimal character"),
            })),
        }
    }
}

proof fn lemma_ident_end_all_continue(text: Seq<char>, i: int)
    requires
        0 <= i <= text.len(),
        forall|j: int| i <= j < text.len() ==> xid_continue(text[j]),
    ensures
        ident_end_pos(text, i) == text.len(),
    decreases text.len() - i,
{
    if i < text.len() {
        lemma_ident_end_all_continue(text, i + 1);
    }
}

/// Scanning an identifier over a text made of one identifier-start character
/// followed by identifier-continue characters consumes the whole text and
/// returns it unchanged: from position 0 the identifier ends at the end of
/// the text, and the consumed range is the text itself.
pub proof fn lemma_identifier_round_trip(text: Seq<char>)
    requires
        text.len() > 0,
        xid_start(text[0]),
        forall|i: int| 1 <= i < text.len() ==> xid_continue(text[i]),
    ensures
        ident_end_pos(text, 1) == text.len(),
        text.subrange(0, ident_end_pos(text, 1)) == text,
{
    lemma_ident_end_all_continue(text, 1);
    assert(text.subrange(0, text.len() as int) =~= text);
}

proof fn lemma_ws_end_bounds(text: Seq<char>, i: int)
    requires
        0 <= i <= text.len(),
    ensures
        i <= ws_end(text, i) <= text.len(),
        ws_end(text, i) == text.len() || !whitespace(text[ws_end(text, i)]),
    decreases text.len() - i,
{
    if i < text.len() && whitespace(text[i]) {
        lemma_ws_end_bounds(text, i + 1);
    }
}

/// Skipping whitespace is idempotent: where one skip ends, a second skip
/// does not move the cursor.
pub proof fn lemma_skip_blank_idempotent(text: Seq<char>, i: int)
    requires
        0 <= i <= text.len(),
    ensures
        ws_end(text, ws_end(text, i)) == ws_end(text, i),
{
    lemma_ws_end_bounds(text, i);
}

/// Byte offsets never decrease along the text, so each one is at most the
/// total byte length.
proof fn lemma_byte_offset_le_total(text: Seq<char>, i: int)
    requires
        0 <= i <= text.len(),
    ensures
        byte_offset_of(text, i) <= byte_offset_of(text, text.len() as int),
        0 <= byte_offset_of(text, i),
    decreases text.len() - i,
{
    if i < text.len() {
        lemma_byte_offset_le_total(text, i + 1);
    }
    lemma_byte_offset_nonneg(text, i);
}

proof fn lemma_byte_offset_nonneg(text: Seq<char>, i: int)
    ensures
        0 <= byte_offset_of(text, i),
    decreases i,
{
    if i > 0 {
        lemma_byte_offset_nonneg(text, i - 1);
    }
}

} // verus!
