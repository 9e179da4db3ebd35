//! The record union and the per-record failure taxonomy.

use vstd::prelude::*;
use crate::app_tip::AppTip;
use crate::rc::RC;

verus! {

/// Per-record recoverable failures: the dispatcher reports one and still
/// advances to the next record by the declared length.
#[derive(Debug, Clone, Copy, PartialEq, Eq, Structural)]
pub enum RecordError {
    /// The payload ends before the decoder's fixed layout is complete.
    TruncatedPayload,
    /// An app-tip payload is not valid UTF-8.
    InvalidUtf8,
}

/// One decoded record of the record region, keyed by its type tag.
#[derive(Debug, Clone, PartialEq, Eq)]
pub enum Record {
    AppTip(AppTip),
    Rc(RC),
    /// A type tag without a registered decoder; it carries no structured
    /// payload and is skipped by the declared-length rule like any other
    /// record.
    Unknown,
}

/// What one step of the dispatcher produced: a decoded record, or a
/// recoverable failure reported in place so that no record is silently
/// swallowed.
#[derive(Debug, Clone, PartialEq, Eq)]
pub enum RecordOutcome {
    Decoded(Record),
    Skipped(RecordError),
}

} // verus!
