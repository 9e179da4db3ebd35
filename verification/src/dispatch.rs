//! The record dispatcher: walks the record region frame by frame, routes each
//! payload to the decoder registered for its type tag, and advances by the
//! declared length whatever the decode outcome was.

use vstd::prelude::*;
use crate::app_tip::AppTip;
use crate::bytes::{copy_range, le16_at, read_u16_le};
use crate::codec::utf8_chars;
use crate::prefix::{spec_parse_prefix, spec_records_offset, LayoutError, Prefix, PREFIX_SIZE};
use crate::product::ProductType;
use crate::rc::{spec_parse_rc, RC, RC_PAYLOAD_SIZE};
use crate::record::{Record, RecordError, RecordOutcome};

verus! {

/// Type tag that marks an RC record frame.
pub const RC_RECORD_TYPE: u8 = 4;

/// Type tag that marks an app-tip record frame.
pub const APP_TIP_RECORD_TYPE: u8 = 9;

/// Size of a frame header: one tag byte, then the declared payload length as
/// a little-endian 16-bit value.
pub const FRAME_HEADER_SIZE: usize = 3;

/// Declared payload length of the frame whose header starts at `pos`.
pub open spec fn spec_frame_len(s: Seq<u8>, pos: int) -> int {
    le16_at(s, pos + 1)
}

/// What the dispatcher owes for the single frame at `pos`, whose header and
/// declared payload both lie inside `s`: the outcome of the decoder
/// registered for the frame's tag on exactly the declared bytes, or the
/// reported per-record failure, or the unknown-record fallback.
pub open spec fn spec_outcome(
    s: Seq<u8>,
    pos: int,
    product_type: ProductType,
    o: RecordOutcome,
) -> bool {
    let tag = s[pos];
    let payload = s.subrange(pos + FRAME_HEADER_SIZE, pos + FRAME_HEADER_SIZE + spec_frame_len(s, pos));
    if tag == RC_RECORD_TYPE {
        if payload.len() >= RC_PAYLOAD_SIZE {
            o == RecordOutcome::Decoded(Record::Rc(spec_parse_rc(payload, product_type)))
        } else {
            o == RecordOutcome::Skipped(RecordError::TruncatedPayload)
        }
    } else if tag == APP_TIP_RECORD_TYPE {
        match utf8_chars(payload) {
            Some(cs) => match o {
                RecordOutcome::Decoded(Record::AppTip(t)) => t.tip@ == cs,
                _ => false,
            },
            None => o == RecordOutcome::Skipped(RecordError::InvalidUtf8),
        }
    } else {
        o == RecordOutcome::Decoded(Record::Unknown)
    }
}

/// The dispatcher's whole contract, one frame at a time: iteration ends where
/// no full header is left; a declared payload running past the end of the
/// stream is reported as one final truncation; otherwise the first outcome is
/// the frame's, and the rest are the outcomes of the stream resumed at
/// `pos + FRAME_HEADER_SIZE + declared_length` — by the declared length, not
/// by what the decoder consumed.
pub open spec fn records_ok(
    s: Seq<u8>,
    pos: int,
    product_type: ProductType,
    out: Seq<RecordOutcome>,
) -> bool
    decreases s.len() - pos,
{
    if pos < 0 || pos + FRAME_HEADER_SIZE > s.len() {
        out == Seq::<RecordOutcome>::empty()
    } else if pos + FRAME_HEADER_SIZE + spec_frame_len(s, pos) > s.len() {
        out == seq![RecordOutcome::Skipped(RecordError::TruncatedPayload)]
    } else {
        &&& out.len() >= 1
        &&& spec_outcome(s, pos, product_type, out[0])
        &&& records_ok(
            s,
            pos + FRAME_HEADER_SIZE + spec_frame_len(s, pos),
            product_type,
            out.drop_first(),
        )
    }
}

/// Declared-length skip rule: when a frame's header and declared payload fit
/// in the stream, any outcome sequence the dispatcher owes has one entry for
/// this record, and what follows is exactly what it owes for the stream
/// resumed at `pos + FRAME_HEADER_SIZE + declared_length` — whatever the
/// first outcome was, an unknown tag and a failed decode included.
pub proof fn lemma_advance_by_declared_length(
    s: Seq<u8>,
    pos: int,
    product_type: ProductType,
    out: Seq<RecordOutcome>,
)
    requires
        0 <= pos,
        pos + FRAME_HEADER_SIZE <= s.len(),
        pos + FRAME_HEADER_SIZE + spec_frame_len(s, pos) <= s.len(),
        records_ok(s, pos, product_type, out),
    ensures
        out.len() >= 1,
        spec_outcome(s, pos, product_type, out[0]),
        records_ok(
            s,
            pos + FRAME_HEADER_SIZE + spec_frame_len(s, pos),
            product_type,
            out.drop_first(),
        ),
{
}

/// Decodes the single frame at `pos`: reads the tag and the declared length,
/// hands the decoder exactly the declared bytes, and reports a failed decode
/// in place of a record.
fn decode_frame(bytes: &Vec<u8>, pos: usize, product_type: ProductType) -> (o: RecordOutcome)
    requires
        pos + FRAME_HEADER_SIZE <= bytes@.len(),
        pos + FRAME_HEADER_SIZE + spec_frame_len(bytes@, pos as int) <= bytes@.len(),
    ensures
        spec_outcome(bytes@, pos as int, product_type, o),
{
    // Pins the buffer length to a usize, so index arithmetic cannot overflow.
    let _n: usize = bytes.len();
    let tag = bytes[pos];
    let declared_length = read_u16_le(bytes, pos + 1);
    let payload = copy_range(
        bytes,
        pos + FRAME_HEADER_SIZE,
        pos + FRAME_HEADER_SIZE + declared_length as usize,
    );
    if tag == RC_RECORD_TYPE {
        match RC::parse(&payload, product_type) {
            Ok(rc) => RecordOutcome::Decoded(Record::Rc(rc)),
            Err(e) => RecordOutcome::Skipped(e),
        }
    } else if tag == APP_TIP_RECORD_TYPE {
        match AppTip::parse(payload) {
            Ok(tip) => RecordOutcome::Decoded(Record::AppTip(tip)),
            Err(e) => RecordOutcome::Skipped(e),
        }
    } else {
        RecordOutcome::Decoded(Record::Unknown)
    }
}

/// Walks the frames from `pos` to the end of the stream.
fn records_from(bytes: &Vec<u8>, pos: usize, product_type: ProductType) -> (r: Vec<RecordOutcome>)
    ensures
        records_ok(bytes@, pos as int, product_type, r@),
    decreases bytes@.len() - pos,
{
    let n = bytes.len();
    if n < FRAME_HEADER_SIZE || pos > n - FRAME_HEADER_SIZE {
        let r: Vec<RecordOutcome> = Vec::new();
        return r;
    }
    let declared_length = read_u16_le(bytes, pos + 1);
    if declared_length as usize > n - FRAME_HEADER_SIZE - pos {
        let mut r: Vec<RecordOutcome> = Vec::new();
        r.push(RecordOutcome::Skipped(RecordError::TruncatedPayload));
        proof {
            assert(r@ =~= seq![RecordOutcome::Skipped(RecordError::TruncatedPayload)]);
        }
        return r;
    }
    let o = decode_frame(bytes, pos, product_type);
    let next = pos + FRAME_HEADER_SIZE + declared_length as usize;
    let mut rest = records_from(bytes, next, product_type);
    let ghost rest_view = rest@;
    let mut r: Vec<RecordOutcome> = Vec::new();
    r.push(o);
    r.append(&mut rest);
    proof {
        assert(r@[0] == o);
        assert(r@.drop_first() =~= rest_view);
    }
    r
}

/// Walks the record region that starts at `records_offset`: at each frame,
/// reads the type tag and the declared length, decodes the known record
/// types under the given hardware context, keeps unknown tags as skipped
/// records, and always advances by header size plus declared length.
pub fn read_records(bytes: &Vec<u8>, records_offset: u64, product_type: ProductType) -> (r: Vec<
    RecordOutcome,
>)
    ensures
        records_ok(bytes@, records_offset as int, product_type, r@),
{
    let n = bytes.len();
    if records_offset > n as u64 {
        let r: Vec<RecordOutcome> = Vec::new();
        return r;
    }
    records_from(bytes, records_offset as usize, product_type)
}

/// Decodes a whole file image: parses the prefix, derives the record-region
/// offset from its version, and walks the record region under the given
/// hardware context. A file too short for the prefix is stream-fatal.
pub fn decode_log(bytes: &Vec<u8>, product_type: ProductType) -> (r: Result<
    (Prefix, Vec<RecordOutcome>),
    LayoutError,
>)
    ensures
        r is Ok <==> bytes@.len() >= PREFIX_SIZE,
        r matches Ok(decoded) ==> {
            &&& decoded.0 == spec_parse_prefix(bytes@)
            &&& records_ok(
                bytes@,
                spec_records_offset(spec_parse_prefix(bytes@)) as int,
                product_type,
                decoded.1@,
            )
        },
        r matches Err(e) ==> e == LayoutError::TruncatedPrefix,
{
    match Prefix::parse(bytes) {
        Ok(prefix) => {
            let records = read_records(bytes, prefix.records_offset(), product_type);
            Ok((prefix, records))
        },
        Err(e) => Err(e),
    }
}

} // verus!
