//! Hardware-generation context threaded into the decoders.

use vstd::prelude::*;

verus! {

/// Hardware variant of the remote controller, supplied by the caller as
/// decode context; only the variants a decoder distinguishes are spelled out.
#[derive(Debug, Clone, Copy, PartialEq, Eq, Structural)]
pub enum ProductType {
    /// Neutral context: no hardware-specific remapping is applied. This is
    /// the value to use when the caller does not know the hardware.
    Neutral,
    MavicPro,
}

impl Default for ProductType {
    /// The neutral context.
    fn default() -> (r: Self)
        ensures
            r == ProductType::Neutral,
    {
        ProductType::Neutral
    }
}

} // verus!
