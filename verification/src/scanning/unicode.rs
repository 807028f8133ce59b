//! Character-level ground truth for the scanner: the byte-offset model of a
//! UTF-8 text, identifier and whitespace character classes, hexadecimal
//! digits, and the few outside calls the scanner relies on.

use vstd::prelude::*;

verus! {

/// Number of bytes the UTF-8 encoding of `c` occupies.
pub open spec fn utf8_width(c: char) -> int {
    if (c as u32) < 0x80 {
        1
    } else if (c as u32) < 0x800 {
        2
    } else if (c as u32) < 0x10000 {
        3
    } else {
        4
    }
}

/// Byte offset of the `i`-th scalar value of `text` in its UTF-8 encoding:
/// the sum of the widths of the scalar values before it. At `i == text.len()`
/// this is the byte length of the whole text.
pub open spec fn byte_offset_of(text: Seq<char>, i: int) -> int
    recommends
        i <= text.len(),
    decreases i,
{
    if i <= 0 {
        0
    } else {
        byte_offset_of(text, i - 1) + utf8_width(text[i - 1])
    }
}

/// Whether the character has the Unicode property XID_Start; the meaning is
/// fixed by `unicode_ident::is_xid_start` below.
pub uninterp spec fn xid_start(c: char) -> bool;

/// Whether the character has the Unicode property XID_Continue; the meaning
/// is fixed by `unicode_ident::is_xid_continue` below.
pub uninterp spec fn xid_continue(c: char) -> bool;

/// Whether the character has the Unicode whitespace property; the meaning is
/// fixed by `char::is_whitespace` below.
pub uninterp spec fn whitespace(c: char) -> bool;

/// Relies on unicode_ident::is_xid_start: a pure table lookup, a function of
/// the character alone.
pub assume_specification [ unicode_ident::is_xid_start ](ch: char) -> (r: bool)
    ensures
        r == xid_start(ch),
;

/// Relies on unicode_ident::is_xid_continue: a pure table lookup, a function
/// of the character alone.
pub assume_specification [ unicode_ident::is_xid_continue ](ch: char) -> (r: bool)
    ensures
        r == xid_continue(ch),
;

/// Relies on char::is_whitespace: a pure table lookup, a function of the
/// character alone.
pub assume_specification [ char::is_whitespace ](c: char) -> (r: bool)
    ensures
        r == whitespace(c),
;

/// Whether `v` is a Unicode scalar value, that is, a code point a `char` can
/// hold: not a surrogate and at most U+10FFFF.
pub open spec fn unicode_scalar(v: u32) -> bool {
    v < 0xD800 || (0xE000 <= v && v <= 0x10FFFF)
}

/// Relies on char::from_u32: `Some` exactly on Unicode scalar values, and the
/// returned character is that code point.
pub assume_specification [ char::from_u32 ](v: u32) -> (r: Option<char>)
    ensures
        r is Some <==> unicode_scalar(v),
        r matches Some(c) ==> c as u32 == v,
;

/// Relies on String::push: appends exactly the given character.
pub assume_specification [ String::push ](s: &mut String, c: char)
    ensures
        final(s)@ == old(s)@.push(c),
;

/// Relies on str::char_indices: it yields every scalar value of the text in
/// order, each with its byte offset, which is the sum of the UTF-8 widths of
/// the scalar values before it; and the byte length of a text never exceeds
/// the largest allocation, so every offset and the total fit below 2^63.
#[verifier::external_body]
pub(crate) fn char_offsets(text: &str) -> (r: Vec<(u64, char)>)
    ensures
        r@.len() == text@.len(),
        forall|i: int|
            0 <= i < r@.len() ==> (#[trigger] r@[i]).1 == text@[i] && r@[i].0 as int
                == byte_offset_of(text@, i),
        byte_offset_of(text@, r@.len() as int) <= 0x7fff_ffff_ffff_ffff,
{
    text.char_indices().map(|(offset, c)| (offset as u64, c)).collect()
}

/// Width of the UTF-8 encoding of `c`, computed from its code point.
pub(crate) fn utf8_width_of(c: char) -> (r: u64)
    ensures
        r as int == utf8_width(c),
{
    let v = c as u32;
    if v < 0x80 {
        1
    } else if v < 0x800 {
        2
    } else if v < 0x10000 {
        3
    } else {
        4
    }
}

/// Whether `c` is a hexadecimal digit, in either case.
pub open spec fn hex_digit(c: char) -> bool {
    let v = c as u32;
    (48 <= v && v <= 57) || (65 <= v && v <= 70) || (97 <= v && v <= 102)
}

/// Numeric value of the hexadecimal digit `c`.
pub open spec fn hex_value(c: char) -> u32
    recommends
        hex_digit(c),
{
    let v = c as u32;
    if 48 <= v && v <= 57 {
        (v - 48) as u32
    } else if 65 <= v && v <= 70 {
        (v - 55) as u32
    } else {
        (v - 87) as u32
    }
}

/// Reads `c` as a hexadecimal digit: its value below 16, or `None` when it is
/// no hexadecimal digit.
pub(crate) fn hex_digit_value(c: char) -> (r: Option<u32>)
    ensures
        r is Some <==> hex_digit(c),
        r matches Some(v) ==> v == hex_value(c) && v < 16,
{
    let v = c as u32;
    if 48 <= v && v <= 57 {
        Some(v - 48)
    } else if 65 <= v && v <= 70 {
        Some(v - 55)
    } else if 97 <= v && v <= 102 {
        Some(v - 87)
    } else {
        None
    }
}

} // verus!
