//! Stateless field codecs: sub-byte bit extraction and length-bounded UTF-8
//! text decoding.

use vstd::prelude::*;

verus! {

/// Index of the lowest set bit of `mask`, the amount a masked byte is shifted
/// right to right-align the selected bits (degenerate: 7 when no bit is set).
pub open spec fn spec_mask_shift(mask: u8) -> u8 {
    if mask & 0x01 != 0 {
        0
    } else if mask & 0x02 != 0 {
        1
    } else if mask & 0x04 != 0 {
        2
    } else if mask & 0x08 != 0 {
        3
    } else if mask & 0x10 != 0 {
        4
    } else if mask & 0x20 != 0 {
        5
    } else if mask & 0x40 != 0 {
        6
    } else {
        7
    }
}

/// The bits of `byte` selected by `mask`, shifted right until the mask's
/// lowest set bit lands at bit 0.
pub open spec fn spec_sub_byte_field(byte: u8, mask: u8) -> u8 {
    (byte & mask) >> spec_mask_shift(mask)
}

/// Extracts the bit field of `byte` selected by `mask` (not necessarily
/// contiguous from bit 0) and right-aligns it.
pub fn sub_byte_field(byte: u8, mask: u8) -> (r: u8)
    ensures
        r == spec_sub_byte_field(byte, mask),
{
    let shift: u8 = if mask & 0x01 != 0 {
        0
    } else if mask & 0x02 != 0 {
        1
    } else if mask & 0x04 != 0 {
        2
    } else if mask & 0x08 != 0 {
        3
    } else if mask & 0x10 != 0 {
        4
    } else if mask & 0x20 != 0 {
        5
    } else if mask & 0x40 != 0 {
        6
    } else {
        7
    };
    (byte & mask) >> shift
}

/// The characters the byte sequence decodes to when it is valid UTF-8, and
/// nothing when it is not.
pub uninterp spec fn utf8_chars(bytes: Seq<u8>) -> Option<Seq<char>>;

/// Relies on String::from_utf8: returns the decoded string exactly when the
/// bytes are valid UTF-8 and an error otherwise; the outcome is a function of
/// the bytes alone.
#[verifier::external_body]
pub(crate) fn string_from_utf8(bytes: Vec<u8>) -> (r: Option<String>)
    ensures
        r is Some <==> utf8_chars(bytes@) is Some,
        r matches Some(s) ==> utf8_chars(bytes@) == Some(s@),
{
    String::from_utf8(bytes).ok()
}

} // verus!
