use flightlog::dispatch::{decode_log, read_records, APP_TIP_RECORD_TYPE, RC_RECORD_TYPE};
use flightlog::prefix::LayoutError;
use flightlog::product::ProductType;
use flightlog::record::{Record, RecordError, RecordOutcome};

fn frame(tag: u8, payload: &[u8]) -> Vec<u8> {
    let mut bytes = vec![tag];
    bytes.extend_from_slice(&(payload.len() as u16).to_le_bytes());
    bytes.extend_from_slice(payload);
    bytes
}

fn tip_text(outcome: &RecordOutcome) -> &str {
    match outcome {
        RecordOutcome::Decoded(Record::AppTip(tip)) => &tip.tip,
        other => panic!("expected an app tip, got {:?}", other),
    }
}

#[test]
fn dispatcher_decodes_known_records_in_order() {
    let mut bytes = frame(APP_TIP_RECORD_TYPE, b"hello");
    bytes.extend_from_slice(&frame(RC_RECORD_TYPE, &[0u8; 15]));
    let outcomes = read_records(&bytes, 0, ProductType::Neutral);
    assert_eq!(outcomes.len(), 2);
    assert_eq!(tip_text(&outcomes[0]), "hello");
    match &outcomes[1] {
        RecordOutcome::Decoded(Record::Rc(rc)) => assert_eq!(rc.aileron, 0),
        other => panic!("expected an RC record, got {:?}", other),
    }
}

#[test]
fn dispatcher_skips_unknown_tag_by_declared_length() {
    // An unknown tag with a declared length of 7: the next record must be
    // read at the frame start + header size + 7, so the tip that follows the
    // seven junk bytes is still found.
    let mut bytes = frame(0x77, &[0xDE; 7]);
    bytes.extend_from_slice(&frame(APP_TIP_RECORD_TYPE, b"hi"));
    let outcomes = read_records(&bytes, 0, ProductType::Neutral);
    assert_eq!(outcomes.len(), 2);
    assert_eq!(outcomes[0], RecordOutcome::Decoded(Record::Unknown));
    assert_eq!(tip_text(&outcomes[1]), "hi");
}

#[test]
fn dispatcher_advances_past_invalid_utf8() {
    // Five invalid bytes under the app-tip tag: the record fails on its own,
    // and the dispatcher still advances by the declared five bytes.
    let mut bytes = frame(APP_TIP_RECORD_TYPE, &[0xFF, 0xFE, 0xFD, 0xFC, 0xFB]);
    bytes.extend_from_slice(&frame(APP_TIP_RECORD_TYPE, b"ok"));
    let outcomes = read_records(&bytes, 0, ProductType::Neutral);
    assert_eq!(outcomes.len(), 2);
    assert_eq!(
        outcomes[0],
        RecordOutcome::Skipped(RecordError::InvalidUtf8)
    );
    assert_eq!(tip_text(&outcomes[1]), "ok");
}

#[test]
fn dispatcher_advances_past_short_rc_payload() {
    let mut bytes = frame(RC_RECORD_TYPE, &[0u8; 5]);
    bytes.extend_from_slice(&frame(APP_TIP_RECORD_TYPE, b"after"));
    let outcomes = read_records(&bytes, 0, ProductType::Neutral);
    assert_eq!(outcomes.len(), 2);
    assert_eq!(
        outcomes[0],
        RecordOutcome::Skipped(RecordError::TruncatedPayload)
    );
    assert_eq!(tip_text(&outcomes[1]), "after");
}

#[test]
fn dispatcher_reports_payload_running_past_stream_end() {
    let mut bytes = frame(APP_TIP_RECORD_TYPE, b"abc");
    // A header declaring ten payload bytes, with only two left.
    bytes.extend_from_slice(&[0x77, 10, 0, 1, 2]);
    let outcomes = read_records(&bytes, 0, ProductType::Neutral);
    assert_eq!(outcomes.len(), 2);
    assert_eq!(tip_text(&outcomes[0]), "abc");
    assert_eq!(
        outcomes[1],
        RecordOutcome::Skipped(RecordError::TruncatedPayload)
    );
}

#[test]
fn dispatcher_stops_at_stream_end() {
    let bytes = frame(APP_TIP_RECORD_TYPE, b"xy");
    let outcomes = read_records(&bytes, 0, ProductType::Neutral);
    assert_eq!(outcomes.len(), 1);
    let no_room = read_records(&bytes, bytes.len() as u64 - 1, ProductType::Neutral);
    assert!(no_room.is_empty());
    let past_end = read_records(&bytes, 1_000_000, ProductType::Neutral);
    assert!(past_end.is_empty());
}

fn header(version: u8, detail_offset: u64) -> Vec<u8> {
    let mut bytes = Vec::new();
    bytes.extend_from_slice(&detail_offset.to_le_bytes());
    bytes.extend_from_slice(&7u16.to_le_bytes());
    bytes.push(version);
    bytes.push(0);
    bytes.extend_from_slice(&[0x55; 8]);
    bytes.extend_from_slice(&[0u8; 80]);
    bytes
}

#[test]
fn decode_log_walks_records_at_derived_offset() {
    // Version 6 puts the record region right after the fixed header.
    let mut bytes = header(6, 9999);
    bytes.extend_from_slice(&frame(APP_TIP_RECORD_TYPE, b"hello"));
    bytes.extend_from_slice(&frame(0x77, &[1, 2, 3]));
    let (prefix, outcomes) = decode_log(&bytes, ProductType::Neutral).unwrap();
    assert_eq!(prefix.version, 6);
    assert_eq!(prefix.detail_offset, 9999);
    assert_eq!(outcomes.len(), 2);
    assert_eq!(tip_text(&outcomes[0]), "hello");
    assert_eq!(outcomes[1], RecordOutcome::Decoded(Record::Unknown));
}

#[test]
fn decode_log_follows_detail_offset_for_late_versions() {
    // Version 13 reads the record region at the parsed detail offset.
    let mut bytes = header(13, 105);
    bytes.extend_from_slice(&[0u8; 5]); // padding up to the detail offset
    bytes.extend_from_slice(&frame(APP_TIP_RECORD_TYPE, b"late"));
    let (prefix, outcomes) = decode_log(&bytes, ProductType::Neutral).unwrap();
    assert_eq!(prefix.version, 13);
    assert_eq!(outcomes.len(), 1);
    assert_eq!(tip_text(&outcomes[0]), "late");
}

#[test]
fn decode_log_reads_legacy_region_inside_header() {
    // Before version 6 the record region starts at byte 12, inside what later
    // layouts reserve for the marker: a tip sits there, and the zeroed
    // remainder of the header reads as zero-length unknown frames.
    let mut bytes = header(3, 4444);
    bytes.splice(12..18, frame(APP_TIP_RECORD_TYPE, b"old"));
    bytes[18] = 0;
    bytes[19] = 0;
    assert_eq!(bytes.len(), 100);
    let (prefix, outcomes) = decode_log(&bytes, ProductType::Neutral).unwrap();
    assert_eq!(prefix.version, 3);
    assert_eq!(outcomes.len(), 28);
    assert_eq!(tip_text(&outcomes[0]), "old");
    for outcome in &outcomes[1..] {
        assert_eq!(*outcome, RecordOutcome::Decoded(Record::Unknown));
    }
}

#[test]
fn decode_log_rejects_truncated_prefix() {
    let bytes = vec![0u8; 50];
    assert!(matches!(
        decode_log(&bytes, ProductType::Neutral),
        Err(LayoutError::TruncatedPrefix)
    ));
}
