//! Error conditions reported by the protocol engine.

use vstd::prelude::*;

verus! {

/// Errors that can occur when driving the converter.
///
/// Transport failures (a broken serial link, a pin that cannot be driven)
/// belong to the hardware layer that owns the bus and are not represented
/// here; the engine itself only ever reports the conditions below.
#[derive(Debug, Clone, Copy, PartialEq, Eq, Structural)]
pub enum Ads1263Error {
    /// Device initialization failed.
    InitFailed,
    /// The identity register did not hold the expected part number
    /// (expected 1); carries the part number that was read.
    InvalidChipId(u8),
    /// A channel index was out of range; carries the index supplied and
    /// the largest index allowed in the current input mode.
    InvalidChannel(u8, u8),
    /// The data-ready line did not reach its ready level within the bound.
    Timeout,
    /// A data frame's trailing checksum byte did not match.
    ChecksumError,
}

} // verus!
