//! Protocol engine for a dual delta-sigma analog-to-digital converter chip
//! driven over a 4-wire synchronous serial bus with discrete reset,
//! chip-select and data-ready lines.
//!
//! The crate covers the protocol itself: register and command encoding, the
//! configuration byte layouts the datasheet mandates, channel-multiplexer
//! encoding for single-ended and differential inputs, data-frame decoding
//! with its checksum discipline, and the raw-code-to-physical-unit math.
//! Every operation that touches the bus is described as data — an exact
//! sequence of bus operations — so that the hardware layer that owns the
//! transport only has to carry bytes; all decisions are made here.

pub mod convert;
pub mod engine;
pub mod error;
pub mod frame;
pub mod pins;
pub mod registers;

pub use engine::Ads1263;
pub use error::Ads1263Error;
pub use pins::PinConfig;
pub use registers::Adc2DataRate;
pub use registers::Adc2Gain;
pub use registers::Command;
pub use registers::DacVoltage;
pub use registers::DataRate;
pub use registers::Delay;
pub use registers::DigitalFilter;
pub use registers::Gain;
pub use registers::InputMode;
pub use registers::ReferenceSource;
pub use registers::Register;
