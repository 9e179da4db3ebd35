//! Decoder for a versioned binary flight-log layout: a fixed 100-byte prefix
//! whose version selects the derived offsets, followed by a region of
//! type-tagged, length-declared telemetry records.

pub mod app_tip;
pub mod bytes;
pub mod codec;
pub mod dispatch;
pub mod prefix;
pub mod product;
pub mod rc;
pub mod record;
