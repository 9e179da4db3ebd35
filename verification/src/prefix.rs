//! The fixed file header ("prefix") and the offsets derived from its version.

use vstd::prelude::*;
use crate::bytes::{le16_at, le64_at, read_u16_le, read_u64_le};

verus! {

/// Size of the prefix region before the layout gained its fixed header.
pub const OLD_PREFIX_SIZE: u64 = 12;

/// Size of the fixed header that every file carries since then.
pub const PREFIX_SIZE: u64 = 100;

/// Size of the legacy info block that version 12 files place right after the
/// header; later versions record the offset in the header instead.
pub const LEGACY_INFO_SIZE: u64 = 436;

/// Stream-fatal and distinctly unsupported layout conditions, as opposed to
/// the per-record recoverable failures of `crate::record::RecordError`.
#[derive(Debug, Clone, Copy, PartialEq, Eq, Structural)]
pub enum LayoutError {
    /// The input ends before the fixed header is complete.
    TruncatedPrefix,
    /// The image offset has no known derivation in this layout.
    ImageOffsetUnknown,
}

/// The parsed fixed header. The reserved byte, the magic/encryption marker
/// and the trailing reserved bytes are consumed by the parser to keep the
/// header size fixed, but carry no information and are not retained.
#[derive(Debug, Clone, Copy, PartialEq, Eq, Structural)]
pub struct Prefix {
    pub detail_offset: u64,
    /// Parsed only to keep the fixed layout accounted for; no derived
    /// computation reads it.
    pub detail_length: u16,
    pub version: u8,
}

/// The header fields as laid out in the first bytes of a file: an 8-byte
/// little-endian offset, a 2-byte little-endian length, a version byte.
pub open spec fn spec_parse_prefix(s: Seq<u8>) -> Prefix {
    Prefix {
        detail_offset: le64_at(s, 0) as u64,
        detail_length: le16_at(s, 8) as u16,
        version: s[10],
    }
}

/// Offset of the info block: the parsed `detail_offset` before version 12,
/// the fixed header size from version 12 on.
pub open spec fn spec_info_offset(p: Prefix) -> u64 {
    if p.version < 12 {
        p.detail_offset
    } else {
        PREFIX_SIZE
    }
}

/// Offset of the record region as a step function of the version, with
/// breakpoints at 6 and 12. The constants encode historical format revisions
/// and follow no formula.
pub open spec fn spec_records_offset(p: Prefix) -> u64 {
    if p.version < 6 {
        OLD_PREFIX_SIZE
    } else if p.version < 12 {
        PREFIX_SIZE
    } else if p.version == 12 {
        (PREFIX_SIZE + LEGACY_INFO_SIZE) as u64
    } else {
        p.detail_offset
    }
}

impl Prefix {
    /// Parses the fixed 100-byte header from the start of `bytes`: the
    /// detail offset, the detail length and the version, in one little-endian
    /// pass; anything shorter is a stream-fatal truncation.
    pub fn parse(bytes: &Vec<u8>) -> (r: Result<Prefix, LayoutError>)
        ensures
            bytes@.len() >= PREFIX_SIZE ==> r == Ok::<Prefix, LayoutError>(
                spec_parse_prefix(bytes@),
            ),
            bytes@.len() < PREFIX_SIZE ==> r == Err::<Prefix, LayoutError>(
                LayoutError::TruncatedPrefix,
            ),
    {
        if (bytes.len() as u64) < PREFIX_SIZE {
            return Err(LayoutError::TruncatedPrefix);
        }
        let detail_offset = read_u64_le(bytes, 0);
        let detail_length = read_u16_le(bytes, 8);
        let version = bytes[10];
        Ok(Prefix { detail_offset, detail_length, version })
    }

    /// Offset of the info block for this header's version.
    pub fn info_offset(&self) -> (r: u64)
        ensures
            r == spec_info_offset(*self),
            self.version < 12 ==> r == self.detail_offset,
            self.version >= 12 ==> r == PREFIX_SIZE,
    {
        if self.version < 12 {
            self.detail_offset
        } else {
            PREFIX_SIZE
        }
    }

    /// Offset of the record region for this header's version: versions past
    /// the highest breakpoint fall through to the parsed `detail_offset` by
    /// design, as the forward-compatible default.
    pub fn records_offset(&self) -> (r: u64)
        ensures
            r == spec_records_offset(*self),
            self.version < 6 ==> r == OLD_PREFIX_SIZE,
            6 <= self.version && self.version < 12 ==> r == PREFIX_SIZE,
            self.version == 12 ==> r == PREFIX_SIZE + LEGACY_INFO_SIZE,
            self.version > 12 ==> r == self.detail_offset,
    {
        if self.version < 6 {
            OLD_PREFIX_SIZE
        } else if self.version < 12 {
            PREFIX_SIZE
        } else if self.version == 12 {
            PREFIX_SIZE + LEGACY_INFO_SIZE
        } else {
            self.detail_offset
        }
    }

    /// No derivation of the image offset is known for this layout, so this
    /// never produces a value: it always fails with the distinct
    /// `LayoutError::ImageOffsetUnknown`, never with a guessed offset.
    pub fn image_offset(&self) -> (r: Result<u64, LayoutError>)
        ensures
            r == Err::<u64, LayoutError>(LayoutError::ImageOffsetUnknown),
    {
        Err(LayoutError::ImageOffsetUnknown)
    }
}

} // verus!
