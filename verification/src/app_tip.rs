//! Decoder for the app-tip record: a single length-bounded UTF-8 string.

use vstd::prelude::*;
use crate::codec::{string_from_utf8, utf8_chars};
use crate::record::RecordError;

verus! {

/// A decoded app-tip record: the record's declared bytes as UTF-8 text, with
/// no further structure.
#[derive(Debug, Clone, PartialEq, Eq)]
pub struct AppTip {
    pub tip: String,
}

impl AppTip {
    /// Decodes a whole payload — the record's declared bytes, exactly — as
    /// UTF-8 text. An invalid byte sequence fails this one record
    /// recoverably; it never aborts the surrounding stream.
    pub fn parse(payload: Vec<u8>) -> (r: Result<AppTip, RecordError>)
        ensures
            r is Ok <==> utf8_chars(payload@) is Some,
            r matches Ok(t) ==> utf8_chars(payload@) == Some(t.tip@),
            r matches Err(e) ==> e == RecordError::InvalidUtf8,
    {
        match string_from_utf8(payload) {
            Some(tip) => Ok(AppTip { tip }),
            None => Err(RecordError::InvalidUtf8),
        }
    }
}

} // verus!
