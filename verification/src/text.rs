//! Text: UTF-16 of the driver becomes UTF-8, and a value longer than its
//! column is cut between two characters.

use vstd::prelude::*;
use crate::error::ExportError;

verus! {

/// Whether `unit` is the first half of a surrogate pair.
pub open spec fn is_high_surrogate(unit: u16) -> bool {
    0xD800 <= unit <= 0xDBFF
}

/// Whether `unit` is the second half of a surrogate pair.
pub open spec fn is_low_surrogate(unit: u16) -> bool {
    0xDC00 <= unit <= 0xDFFF
}

/// The code point that a surrogate pair stands for.
pub open spec fn pair_value(high: u16, low: u16) -> int {
    0x10000 + (high - 0xD800) * 0x400 + (low - 0xDC00)
}

/// The UTF-8 bytes of the code point `c`: one to four bytes, the first of
/// which tells how many follow, each of the others holding six bits.
pub open spec fn utf8_of(c: int) -> Seq<u8> {
    if c < 0x80 {
        seq![c as u8]
    } else if c < 0x800 {
        seq![(0xC0 + c / 0x40) as u8, (0x80 + c % 0x40) as u8]
    } else if c < 0x10000 {
        seq![
            (0xE0 + c / 0x1000) as u8,
            (0x80 + (c / 0x40) % 0x40) as u8,
            (0x80 + c % 0x40) as u8,
        ]
    } else {
        seq![
            (0xF0 + c / 0x40000) as u8,
            (0x80 + (c / 0x1000) % 0x40) as u8,
            (0x80 + (c / 0x40) % 0x40) as u8,
            (0x80 + c % 0x40) as u8,
        ]
    }
}

/// `head` put in front of `tail`, where there is a tail.
pub open spec fn prepend(head: Seq<u8>, tail: Option<Seq<u8>>) -> Option<Seq<u8>> {
    match tail {
        Some(tail) => Some(head + tail),
        None => None,
    }
}

/// The UTF-8 bytes of the text that `units` hold from position `i` on, or
/// `None` where a surrogate there has no partner.
pub open spec fn utf16_to_utf8_from(units: Seq<u16>, i: int) -> Option<Seq<u8>>
    decreases units.len() - i,
{
    if i >= units.len() {
        Some(Seq::empty())
    } else if is_high_surrogate(units[i]) {
        if i + 1 < units.len() && is_low_surrogate(units[i + 1]) {
            prepend(utf8_of(pair_value(units[i], units[i + 1])), utf16_to_utf8_from(units, i + 2))
        } else {
            None
        }
    } else if is_low_surrogate(units[i]) {
        None
    } else {
        prepend(utf8_of(units[i] as int), utf16_to_utf8_from(units, i + 1))
    }
}

/// The UTF-8 bytes of the text that `units` hold in UTF-16, or `None` where
/// they are not well formed.
pub open spec fn spec_utf16_to_utf8(units: Seq<u16>) -> Option<Seq<u8>> {
    utf16_to_utf8_from(units, 0)
}

/// The bytes this module writes for a code point are its UTF-8 encoding as
/// the standard defines it: for every Unicode scalar value, `utf8_of` agrees
/// with the encoding that strings have.
pub proof fn lemma_utf8_of_is_the_standard_encoding(c: u32)
    requires
        vstd::utf8::is_scalar(c),
    ensures
        utf8_of(c as int) == vstd::utf8::encode_scalar(c),
{
    assert(c & 0x3F == c % 0x40) by (bit_vector);
    assert((c >> 6) & 0x3F == (c / 0x40) % 0x40) by (bit_vector);
    assert((c >> 12) & 0x3F == (c / 0x1000) % 0x40) by (bit_vector);
    assert(c <= 0x7F ==> c & 0x7F == c) by (bit_vector);
    assert(c <= 0x7FF ==> (c >> 6) & 0x1F == c / 0x40) by (bit_vector);
    assert(c <= 0xFFFF ==> (c >> 12) & 0x0F == c / 0x1000) by (bit_vector);
    assert(c <= 0x10FFFF ==> (c >> 18) & 0x7 == c / 0x40000) by (bit_vector);
    assert(forall|x: u8| x < 0x40 ==> 0x80u8 | x == (0x80u8 + x) as u8) by (bit_vector);
    assert(forall|x: u8| x < 0x20 ==> 0xC0u8 | x == (0xC0u8 + x) as u8) by (bit_vector);
    assert(forall|x: u8| x < 0x10 ==> 0xE0u8 | x == (0xE0u8 + x) as u8) by (bit_vector);
    assert(forall|x: u8| x < 0x08 ==> 0xF0u8 | x == (0xF0u8 + x) as u8) by (bit_vector);
    assert(utf8_of(c as int) =~= vstd::utf8::encode_scalar(c));
}

/// Appends the UTF-8 bytes of the code point `c` to `out`.
fn push_utf8(out: &mut Vec<u8>, c: u32)
    requires
        c < 0x110000,
    ensures
        final(out)@ == old(out)@ + utf8_of(c as int),
{
    if c < 0x80 {
        out.push(c as u8);
    } else if c < 0x800 {
        out.push((0xC0 + c / 0x40) as u8);
        out.push((0x80 + c % 0x40) as u8);
    } else if c < 0x10000 {
        out.push((0xE0 + c / 0x1000) as u8);
        out.push((0x80 + (c / 0x40) % 0x40) as u8);
        out.push((0x80 + c % 0x40) as u8);
    } else {
        out.push((0xF0 + c / 0x40000) as u8);
        out.push((0x80 + (c / 0x1000) % 0x40) as u8);
        out.push((0x80 + (c / 0x40) % 0x40) as u8);
        out.push((0x80 + c % 0x40) as u8);
    }
    assert(out@ =~= old(out)@ + utf8_of(c as int));
}

/// Transcodes the first `len` units of UTF-16 text to UTF-8. Fails with
/// `ValueOutOfRange` exactly where the units are not well formed, that is
/// where a surrogate has no partner.
pub fn utf16_to_utf8(units: &Vec<u16>, len: usize) -> (result: Result<Vec<u8>, ExportError>)
    requires
        len <= units.len(),
    ensures
        match result {
            Ok(bytes) => spec_utf16_to_utf8(units@.take(len as int)) == Some(bytes@),
            Err(e) => spec_utf16_to_utf8(units@.take(len as int)) is None && e
                == ExportError::ValueOutOfRange,
        },
{
    let ghost text = units@.take(len as int);
    let mut out: Vec<u8> = Vec::new();
    let mut i: usize = 0;
    assert(prepend(out@, utf16_to_utf8_from(text, 0)) == utf16_to_utf8_from(text, 0)) by {
        if let Some(tail) = utf16_to_utf8_from(text, 0) {
            assert(out@ + tail =~= tail);
        }
    }
    while i < len
        invariant
            i <= len <= units.len(),
            text == units@.take(len as int),
            spec_utf16_to_utf8(text) == prepend(out@, utf16_to_utf8_from(text, i as int)),
        decreases len - i,
    {
        let unit = units[i];
        let ghost before = out@;
        if 0xD800 <= unit && unit <= 0xDBFF {
            if i + 1 < len && 0xDC00 <= units[i + 1] && units[i + 1] <= 0xDFFF {
                let low = units[i + 1];
                let c: u32 = 0x10000 + (unit as u32 - 0xD800) * 0x400 + (low as u32 - 0xDC00);
                push_utf8(&mut out, c);
                proof {
                    if let Some(tail) = utf16_to_utf8_from(text, i + 2) {
                        assert((before + utf8_of(c as int)) + tail =~= before + (utf8_of(c as int)
                            + tail));
                    }
                }
                i += 2;
            } else {
                return Err(ExportError::ValueOutOfRange);
            }
        } else if 0xDC00 <= unit && unit <= 0xDFFF {
            return Err(ExportError::ValueOutOfRange);
        } else {
            push_utf8(&mut out, unit as u32);
            proof {
                if let Some(tail) = utf16_to_utf8_from(text, i + 1) {
                    assert((before + utf8_of(unit as int)) + tail =~= before + (utf8_of(
                        unit as int,
                    ) + tail));
                }
            }
            i += 1;
        }
    }
    assert(out@ + Seq::<u8>::empty() =~= out@);
    Ok(out)
}

/// Whether `byte` continues a character that an earlier byte began.
pub open spec fn is_continuation(byte: u8) -> bool {
    0x80 <= byte < 0xC0
}

/// Whether UTF-8 text may be cut before position `k`: at either end, or
/// where a character begins.
pub open spec fn is_utf8_boundary(bytes: Seq<u8>, k: int) -> bool {
    0 <= k <= bytes.len() && (k == 0 || k == bytes.len() || !is_continuation(bytes[k]))
}

/// The last position at or before `k` where a character of `bytes` begins;
/// zero where none does.
pub open spec fn back_to_utf8_boundary(bytes: Seq<u8>, k: int) -> int
    decreases k,
{
    if k <= 0 {
        0
    } else if is_continuation(bytes[k]) {
        back_to_utf8_boundary(bytes, k - 1)
    } else {
        k
    }
}

/// Where UTF-8 text is cut to keep at most `max_len` bytes: at its end
/// where it fits, else at the last boundary within `max_len`.
pub open spec fn utf8_cut(bytes: Seq<u8>, max_len: int) -> int {
    if bytes.len() <= max_len {
        bytes.len() as int
    } else {
        back_to_utf8_boundary(bytes, max_len)
    }
}

/// The length of the longest prefix of `bytes` that holds whole characters
/// and at most `max_len` bytes: all of `bytes` where they fit.
pub fn utf8_prefix_len(bytes: &Vec<u8>, max_len: usize) -> (k: usize)
    ensures
        k == utf8_cut(bytes@, max_len as int),
        k <= max_len,
        k <= bytes.len(),
        is_utf8_boundary(bytes@, k as int),
        forall|j: int| k < j <= max_len ==> !is_utf8_boundary(bytes@, j),
{
    if bytes.len() <= max_len {
        return bytes.len();
    }
    let mut k: usize = max_len;
    while k > 0 && 0x80 <= bytes[k] && bytes[k] < 0xC0
        invariant
            k <= max_len < bytes.len(),
            back_to_utf8_boundary(bytes@, max_len as int) == back_to_utf8_boundary(
                bytes@,
                k as int,
            ),
            forall|j: int| k < j <= max_len ==> !is_utf8_boundary(bytes@, j),
        decreases k,
    {
        k -= 1;
    }
    k
}

/// Whether UTF-16 text may be cut before position `k`: at either end, or
/// anywhere but in front of the second half of a surrogate pair.
pub open spec fn is_utf16_boundary(units: Seq<u16>, k: int) -> bool {
    0 <= k <= units.len() && (k == 0 || k == units.len() || !is_low_surrogate(units[k]))
}

/// The last position at or before `k` that does not split a surrogate pair
/// of `units`; zero where none does.
pub open spec fn back_to_utf16_boundary(units: Seq<u16>, k: int) -> int
    decreases k,
{
    if k <= 0 {
        0
    } else if is_low_surrogate(units[k]) {
        back_to_utf16_boundary(units, k - 1)
    } else {
        k
    }
}

/// Where UTF-16 text is cut to keep at most `max_len` units: at its end
/// where it fits, else at the last boundary within `max_len`.
pub open spec fn utf16_cut(units: Seq<u16>, max_len: int) -> int {
    if units.len() <= max_len {
        units.len() as int
    } else {
        back_to_utf16_boundary(units, max_len)
    }
}

/// The length of the longest prefix of `units` that holds whole characters
/// and at most `max_len` units: all of `units` where they fit.
pub fn utf16_prefix_len(units: &Vec<u16>, max_len: usize) -> (k: usize)
    ensures
        k == utf16_cut(units@, max_len as int),
        k <= max_len,
        k <= units.len(),
        is_utf16_boundary(units@, k as int),
        forall|j: int| k < j <= max_len ==> !is_utf16_boundary(units@, j),
{
    if units.len() <= max_len {
        return units.len();
    }
    let mut k: usize = max_len;
    while k > 0 && 0xDC00 <= units[k] && units[k] <= 0xDFFF
        invariant
            k <= max_len < units.len(),
            back_to_utf16_boundary(units@, max_len as int) == back_to_utf16_boundary(
                units@,
                k as int,
            ),
            forall|j: int| k < j <= max_len ==> !is_utf16_boundary(units@, j),
        decreases k,
    {
        k -= 1;
    }
    k
}

/// The first `len` bytes of `bytes`.
pub fn byte_prefix(bytes: &Vec<u8>, len: usize) -> (prefix: Vec<u8>)
    requires
        len <= bytes.len(),
    ensures
        prefix@ == bytes@.take(len as int),
{
    let mut prefix: Vec<u8> = Vec::new();
    let mut i: usize = 0;
    while i < len
        invariant
            i <= len <= bytes.len(),
            prefix@ == bytes@.take(i as int),
        decreases len - i,
    {
        prefix.push(bytes[i]);
        assert(prefix@ =~= bytes@.take(i + 1));
        i += 1;
    }
    prefix
}

} // verus!
