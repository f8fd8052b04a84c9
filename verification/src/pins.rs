//! Pin assignments for the discrete control lines.

use vstd::prelude::*;

verus! {

/// The three discrete control lines the transport drives, as
/// broadcom-numbered pins. The defaults match the common high-precision
/// acquisition board this chip ships on.
#[derive(Debug, Clone, Copy, PartialEq, Eq, Structural)]
pub struct PinConfig {
    /// Reset line.
    pub rst: u8,
    /// Chip-select line.
    pub cs: u8,
    /// Data-ready line.
    pub drdy: u8,
}

impl Default for PinConfig {
    fn default() -> (r: Self)
        ensures
            r.rst == 18,
            r.cs == 22,
            r.drdy == 17,
    {
        PinConfig { rst: 18, cs: 22, drdy: 17 }
    }
}

} // verus!
