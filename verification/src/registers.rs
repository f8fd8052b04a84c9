//! Register addresses, command opcodes and the closed sets of legal
//! configuration values for both converter channels.
//!
//! Each enum is a closed value set: only the bytes enumerated here may ever
//! be written to the corresponding register field. The single exception in
//! the whole crate is the channel index, which is range-checked and then
//! packed into the input-multiplexer registers (see the engine module).
//! Every wire byte is exposed twice — as a specification function and as its
//! executable twin — so that contracts can speak of the exact byte a value
//! encodes to.

use vstd::prelude::*;

verus! {

/// Register addresses of the device's configuration and calibration space.
#[derive(Debug, Clone, Copy, PartialEq, Eq, Structural)]
pub enum Register {
    /// Device identity register.
    Id,
    /// Power control register.
    Power,
    /// Interface configuration register.
    Interface,
    /// Mode 0 register (conversion delay, chop).
    Mode0,
    /// Mode 1 register (digital filter).
    Mode1,
    /// Mode 2 register (gain, data rate).
    Mode2,
    /// Input multiplexer register.
    InpMux,
    /// Offset calibration byte 0.
    OfCal0,
    /// Offset calibration byte 1.
    OfCal1,
    /// Offset calibration byte 2.
    OfCal2,
    /// Full-scale calibration byte 0.
    FsCal0,
    /// Full-scale calibration byte 1.
    FsCal1,
    /// Full-scale calibration byte 2.
    FsCal2,
    /// Excitation-current multiplexer register.
    IdacMux,
    /// Excitation-current magnitude register.
    IdacMag,
    /// Reference multiplexer register.
    RefMux,
    /// Positive bias output register.
    TdacP,
    /// Negative bias output register.
    TdacN,
    /// GPIO connection register.
    GpioCon,
    /// GPIO direction register.
    GpioDir,
    /// GPIO data register.
    GpioDat,
    /// Auxiliary converter configuration register.
    Adc2Cfg,
    /// Auxiliary converter input multiplexer register.
    Adc2Mux,
    /// Auxiliary converter offset calibration byte 0.
    Adc2Ofc0,
    /// Auxiliary converter offset calibration byte 1.
    Adc2Ofc1,
    /// Auxiliary converter full-scale calibration byte 0.
    Adc2Fsc0,
    /// Auxiliary converter full-scale calibration byte 1.
    Adc2Fsc1,
}

impl Register {
    /// The register's 8-bit address on the wire.
    pub open spec fn addr_spec(self) -> u8 {
        match self {
            Register::Id => 0x00,
            Register::Power => 0x01,
            Register::Interface => 0x02,
            Register::Mode0 => 0x03,
            Register::Mode1 => 0x04,
            Register::Mode2 => 0x05,
            Register::InpMux => 0x06,
            Register::OfCal0 => 0x07,
            Register::OfCal1 => 0x08,
            Register::OfCal2 => 0x09,
            Register::FsCal0 => 0x0A,
            Register::FsCal1 => 0x0B,
            Register::FsCal2 => 0x0C,
            Register::IdacMux => 0x0D,
            Register::IdacMag => 0x0E,
            Register::RefMux => 0x0F,
            Register::TdacP => 0x10,
            Register::TdacN => 0x11,
            Register::GpioCon => 0x12,
            Register::GpioDir => 0x13,
            Register::GpioDat => 0x14,
            Register::Adc2Cfg => 0x15,
            Register::Adc2Mux => 0x16,
            Register::Adc2Ofc0 => 0x17,
            Register::Adc2Ofc1 => 0x18,
            Register::Adc2Fsc0 => 0x19,
            Register::Adc2Fsc1 => 0x1A,
        }
    }

    /// Executable twin of [`Register::addr_spec`].
    #[verifier::when_used_as_spec(addr_spec)]
    pub fn addr(self) -> (r: u8)
        ensures
            r == self.addr_spec(),
    {
        match self {
            Register::Id => 0x00,
            Register::Power => 0x01,
            Register::Interface => 0x02,
            Register::Mode0 => 0x03,
            Register::Mode1 => 0x04,
            Register::Mode2 => 0x05,
            Register::InpMux => 0x06,
            Register::OfCal0 => 0x07,
            Register::OfCal1 => 0x08,
            Register::OfCal2 => 0x09,
            Register::FsCal0 => 0x0A,
            Register::FsCal1 => 0x0B,
            Register::FsCal2 => 0x0C,
            Register::IdacMux => 0x0D,
            Register::IdacMag => 0x0E,
            Register::RefMux => 0x0F,
            Register::TdacP => 0x10,
            Register::TdacN => 0x11,
            Register::GpioCon => 0x12,
            Register::GpioDir => 0x13,
            Register::GpioDat => 0x14,
            Register::Adc2Cfg => 0x15,
            Register::Adc2Mux => 0x16,
            Register::Adc2Ofc0 => 0x17,
            Register::Adc2Ofc1 => 0x18,
            Register::Adc2Fsc0 => 0x19,
            Register::Adc2Fsc1 => 0x1A,
        }
    }
}

/// Command opcodes.
///
/// The register read/write opcodes are base values: the transmitted byte is
/// the opcode bitwise-ORed with the register address.
#[derive(Debug, Clone, Copy, PartialEq, Eq, Structural)]
pub enum Command {
    /// Reset the device.
    Reset,
    /// Start primary-converter conversions.
    Start1,
    /// Stop primary-converter conversions.
    Stop1,
    /// Start auxiliary-converter conversions.
    Start2,
    /// Stop auxiliary-converter conversions.
    Stop2,
    /// Read primary-converter data.
    RData1,
    /// Read auxiliary-converter data.
    RData2,
    /// Primary-converter system offset calibration.
    SysOCal1,
    /// Primary-converter system gain calibration.
    SysGCal1,
    /// Primary-converter self offset calibration.
    SelfOCal1,
    /// Auxiliary-converter system offset calibration.
    SysOCal2,
    /// Auxiliary-converter system gain calibration.
    SysGCal2,
    /// Auxiliary-converter self offset calibration.
    SelfOCal2,
    /// Read-register base opcode.
    RReg,
    /// Write-register base opcode.
    WReg,
}

impl Command {
    /// The command's 8-bit opcode on the wire.
    pub open spec fn opcode_spec(self) -> u8 {
        match self {
            Command::Reset => 0x06,
            Command::Start1 => 0x08,
            Command::Stop1 => 0x0A,
            Command::Start2 => 0x0C,
            Command::Stop2 => 0x0E,
            Command::RData1 => 0x12,
            Command::RData2 => 0x14,
            Command::SysOCal1 => 0x16,
            Command::SysGCal1 => 0x17,
            Command::SelfOCal1 => 0x19,
            Command::SysOCal2 => 0x1B,
            Command::SysGCal2 => 0x1C,
            Command::SelfOCal2 => 0x1E,
            Command::RReg => 0x20,
            Command::WReg => 0x40,
        }
    }

    /// Executable twin of [`Command::opcode_spec`].
    #[verifier::when_used_as_spec(opcode_spec)]
    pub fn opcode(self) -> (r: u8)
        ensures
            r == self.opcode_spec(),
    {
        match self {
            Command::Reset => 0x06,
            Command::Start1 => 0x08,
            Command::Stop1 => 0x0A,
            Command::Start2 => 0x0C,
            Command::Stop2 => 0x0E,
            Command::RData1 => 0x12,
            Command::RData2 => 0x14,
            Command::SysOCal1 => 0x16,
            Command::SysGCal1 => 0x17,
            Command::SelfOCal1 => 0x19,
            Command::SysOCal2 => 0x1B,
            Command::SysGCal2 => 0x1C,
            Command::SelfOCal2 => 0x1E,
            Command::RReg => 0x20,
            Command::WReg => 0x40,
        }
    }
}

/// Primary-converter programmable-gain-amplifier settings.
#[derive(Debug, Clone, Copy, PartialEq, Eq, Structural)]
pub enum Gain {
    /// Gain of 1 (default).
    Gain1,
    /// Gain of 2.
    Gain2,
    /// Gain of 4.
    Gain4,
    /// Gain of 8.
    Gain8,
    /// Gain of 16.
    Gain16,
    /// Gain of 32.
    Gain32,
    /// Gain of 64.
    Gain64,
}

impl Gain {
    /// The gain field's encoding (occupies bits 4-6 of the mode 2 register).
    pub open spec fn bits_spec(self) -> u8 {
        match self {
            Gain::Gain1 => 0,
            Gain::Gain2 => 1,
            Gain::Gain4 => 2,
            Gain::Gain8 => 3,
            Gain::Gain16 => 4,
            Gain::Gain32 => 5,
            Gain::Gain64 => 6,
        }
    }

    /// Executable twin of [`Gain::bits_spec`].
    #[verifier::when_used_as_spec(bits_spec)]
    pub fn bits(self) -> (r: u8)
        ensures
            r == self.bits_spec(),
    {
        match self {
            Gain::Gain1 => 0,
            Gain::Gain2 => 1,
            Gain::Gain4 => 2,
            Gain::Gain8 => 3,
            Gain::Gain16 => 4,
            Gain::Gain32 => 5,
            Gain::Gain64 => 6,
        }
    }
}

impl Default for Gain {
    fn default() -> (r: Self)
        ensures
            r == Gain::Gain1,
    {
        Gain::Gain1
    }
}

/// Primary-converter data-rate settings, in samples per second.
#[derive(Debug, Clone, Copy, PartialEq, Eq, Structural)]
pub enum DataRate {
    /// 2.5 samples per second.
    Sps2_5,
    /// 5 samples per second.
    Sps5,
    /// 10 samples per second.
    Sps10,
    /// 16.6 samples per second.
    Sps16_6,
    /// 20 samples per second.
    Sps20,
    /// 50 samples per second.
    Sps50,
    /// 60 samples per second.
    Sps60,
    /// 100 samples per second.
    Sps100,
    /// 400 samples per second (default).
    Sps400,
    /// 1200 samples per second.
    Sps1200,
    /// 2400 samples per second.
    Sps2400,
    /// 4800 samples per second.
    Sps4800,
    /// 7200 samples per second.
    Sps7200,
    /// 14400 samples per second.
    Sps14400,
    /// 19200 samples per second.
    Sps19200,
    /// 38400 samples per second.
    Sps38400,
}

impl DataRate {
    /// The data-rate field's encoding (occupies bits 0-3 of the mode 2
    /// register).
    pub open spec fn bits_spec(self) -> u8 {
        match self {
            DataRate::Sps2_5 => 0,
            DataRate::Sps5 => 1,
            DataRate::Sps10 => 2,
            DataRate::Sps16_6 => 3,
            DataRate::Sps20 => 4,
            DataRate::Sps50 => 5,
            DataRate::Sps60 => 6,
            DataRate::Sps100 => 7,
            DataRate::Sps400 => 8,
            DataRate::Sps1200 => 9,
            DataRate::Sps2400 => 10,
            DataRate::Sps4800 => 11,
            DataRate::Sps7200 => 12,
            DataRate::Sps14400 => 13,
            DataRate::Sps19200 => 14,
            DataRate::Sps38400 => 15,
        }
    }

    /// Executable twin of [`DataRate::bits_spec`].
    #[verifier::when_used_as_spec(bits_spec)]
    pub fn bits(self) -> (r: u8)
        ensures
            r == self.bits_spec(),
    {
        match self {
            DataRate::Sps2_5 => 0,
            DataRate::Sps5 => 1,
            DataRate::Sps10 => 2,
            DataRate::Sps16_6 => 3,
            DataRate::Sps20 => 4,
            DataRate::Sps50 => 5,
            DataRate::Sps60 => 6,
            DataRate::Sps100 => 7,
            DataRate::Sps400 => 8,
            DataRate::Sps1200 => 9,
            DataRate::Sps2400 => 10,
            DataRate::Sps4800 => 11,
            DataRate::Sps7200 => 12,
            DataRate::Sps14400 => 13,
            DataRate::Sps19200 => 14,
            DataRate::Sps38400 => 15,
        }
    }
}

impl Default for DataRate {
    fn default() -> (r: Self)
        ensures
            r == DataRate::Sps400,
    {
        DataRate::Sps400
    }
}

/// Primary-converter conversion-delay settings.
#[derive(Debug, Clone, Copy, PartialEq, Eq, Structural)]
pub enum Delay {
    /// No delay.
    Delay0,
    /// 8.7 microsecond delay.
    Delay8_7us,
    /// 17 microsecond delay.
    Delay17us,
    /// 35 microsecond delay (default).
    Delay35us,
    /// 169 microsecond delay.
    Delay169us,
    /// 139 microsecond delay.
    Delay139us,
    /// 278 microsecond delay.
    Delay278us,
    /// 555 microsecond delay.
    Delay555us,
    /// 1.1 millisecond delay.
    Delay1_1ms,
    /// 2.2 millisecond delay.
    Delay2_2ms,
    /// 4.4 millisecond delay.
    Delay4_4ms,
    /// 8.8 millisecond delay.
    Delay8_8ms,
}

impl Delay {
    /// The conversion-delay field's encoding (mode 0 register).
    pub open spec fn bits_spec(self) -> u8 {
        match self {
            Delay::Delay0 => 0,
            Delay::Delay8_7us => 1,
            Delay::Delay17us => 2,
            Delay::Delay35us => 3,
            Delay::Delay169us => 4,
            Delay::Delay139us => 5,
            Delay::Delay278us => 6,
            Delay::Delay555us => 7,
            Delay::Delay1_1ms => 8,
            Delay::Delay2_2ms => 9,
            Delay::Delay4_4ms => 10,
            Delay::Delay8_8ms => 11,
        }
    }

    /// Executable twin of [`Delay::bits_spec`].
    #[verifier::when_used_as_spec(bits_spec)]
    pub fn bits(self) -> (r: u8)
        ensures
            r == self.bits_spec(),
    {
        match self {
            Delay::Delay0 => 0,
            Delay::Delay8_7us => 1,
            Delay::Delay17us => 2,
            Delay::Delay35us => 3,
            Delay::Delay169us => 4,
            Delay::Delay139us => 5,
            Delay::Delay278us => 6,
            Delay::Delay555us => 7,
            Delay::Delay1_1ms => 8,
            Delay::Delay2_2ms => 9,
            Delay::Delay4_4ms => 10,
            Delay::Delay8_8ms => 11,
        }
    }
}

impl Default for Delay {
    fn default() -> (r: Self)
        ensures
            r == Delay::Delay35us,
    {
        Delay::Delay35us
    }
}

/// Auxiliary-converter programmable-gain-amplifier settings.
#[derive(Debug, Clone, Copy, PartialEq, Eq, Structural)]
pub enum Adc2Gain {
    /// Gain of 1 (default).
    Gain1,
    /// Gain of 2.
    Gain2,
    /// Gain of 4.
    Gain4,
    /// Gain of 8.
    Gain8,
    /// Gain of 16.
    Gain16,
    /// Gain of 32.
    Gain32,
    /// Gain of 64.
    Gain64,
    /// Gain of 128.
    Gain128,
}

impl Adc2Gain {
    /// The gain field's encoding (occupies bits 0-2 of the auxiliary
    /// configuration register).
    pub open spec fn bits_spec(self) -> u8 {
        match self {
            Adc2Gain::Gain1 => 0,
            Adc2Gain::Gain2 => 1,
            Adc2Gain::Gain4 => 2,
            Adc2Gain::Gain8 => 3,
            Adc2Gain::Gain16 => 4,
            Adc2Gain::Gain32 => 5,
            Adc2Gain::Gain64 => 6,
            Adc2Gain::Gain128 => 7,
        }
    }

    /// Executable twin of [`Adc2Gain::bits_spec`].
    #[verifier::when_used_as_spec(bits_spec)]
    pub fn bits(self) -> (r: u8)
        ensures
            r == self.bits_spec(),
    {
        match self {
            Adc2Gain::Gain1 => 0,
            Adc2Gain::Gain2 => 1,
            Adc2Gain::Gain4 => 2,
            Adc2Gain::Gain8 => 3,
            Adc2Gain::Gain16 => 4,
            Adc2Gain::Gain32 => 5,
            Adc2Gain::Gain64 => 6,
            Adc2Gain::Gain128 => 7,
        }
    }
}

impl Default for Adc2Gain {
    fn default() -> (r: Self)
        ensures
            r == Adc2Gain::Gain1,
    {
        Adc2Gain::Gain1
    }
}

/// Auxiliary-converter data-rate settings, in samples per second.
#[derive(Debug, Clone, Copy, PartialEq, Eq, Structural)]
pub enum Adc2DataRate {
    /// 10 samples per second.
    Sps10,
    /// 100 samples per second (default).
    Sps100,
    /// 400 samples per second.
    Sps400,
    /// 800 samples per second.
    Sps800,
}

impl Adc2DataRate {
    /// The data-rate field's encoding (occupies bits 6-7 of the auxiliary
    /// configuration register).
    pub open spec fn bits_spec(self) -> u8 {
        match self {
            Adc2DataRate::Sps10 => 0,
            Adc2DataRate::Sps100 => 1,
            Adc2DataRate::Sps400 => 2,
            Adc2DataRate::Sps800 => 3,
        }
    }

    /// Executable twin of [`Adc2DataRate::bits_spec`].
    #[verifier::when_used_as_spec(bits_spec)]
    pub fn bits(self) -> (r: u8)
        ensures
            r == self.bits_spec(),
    {
        match self {
            Adc2DataRate::Sps10 => 0,
            Adc2DataRate::Sps100 => 1,
            Adc2DataRate::Sps400 => 2,
            Adc2DataRate::Sps800 => 3,
        }
    }
}

impl Default for Adc2DataRate {
    fn default() -> (r: Self)
        ensures
            r == Adc2DataRate::Sps100,
    {
        Adc2DataRate::Sps100
    }
}

/// Bias-output voltage levels.
#[derive(Debug, Clone, Copy, PartialEq, Eq, Structural)]
pub enum DacVoltage {
    /// 4.5 volt output.
    Volt4_5,
    /// 3.5 volt output.
    Volt3_5,
    /// 3.0 volt output.
    Volt3_0,
    /// 2.75 volt output.
    Volt2_75,
    /// 2.625 volt output.
    Volt2_625,
    /// 2.5625 volt output.
    Volt2_5625,
    /// 2.53125 volt output.
    Volt2_53125,
    /// 2.515625 volt output.
    Volt2_515625,
    /// 2.5078125 volt output.
    Volt2_5078125,
    /// 2.5 volt output (midpoint).
    Volt2_5,
    /// 2.4921875 volt output.
    Volt2_4921875,
    /// 2.484375 volt output.
    Volt2_484375,
    /// 2.46875 volt output.
    Volt2_46875,
    /// 2.4375 volt output.
    Volt2_4375,
    /// 2.375 volt output.
    Volt2_375,
    /// 2.25 volt output.
    Volt2_25,
    /// 2.0 volt output.
    Volt2_0,
    /// 1.5 volt output.
    Volt1_5,
    /// 0.5 volt output.
    Volt0_5,
}

impl DacVoltage {
    /// The level code written to a bias output register (bits 0-4; the
    /// enable bit is added separately).
    pub open spec fn bits_spec(self) -> u8 {
        match self {
            DacVoltage::Volt4_5 => 0b01001,
            DacVoltage::Volt3_5 => 0b01000,
            DacVoltage::Volt3_0 => 0b00111,
            DacVoltage::Volt2_75 => 0b00110,
            DacVoltage::Volt2_625 => 0b00101,
            DacVoltage::Volt2_5625 => 0b00100,
            DacVoltage::Volt2_53125 => 0b00011,
            DacVoltage::Volt2_515625 => 0b00010,
            DacVoltage::Volt2_5078125 => 0b00001,
            DacVoltage::Volt2_5 => 0b00000,
            DacVoltage::Volt2_4921875 => 0b10001,
            DacVoltage::Volt2_484375 => 0b10010,
            DacVoltage::Volt2_46875 => 0b10011,
            DacVoltage::Volt2_4375 => 0b10100,
            DacVoltage::Volt2_375 => 0b10101,
            DacVoltage::Volt2_25 => 0b10110,
            DacVoltage::Volt2_0 => 0b10111,
            DacVoltage::Volt1_5 => 0b11000,
            DacVoltage::Volt0_5 => 0b11001,
        }
    }

    /// Executable twin of [`DacVoltage::bits_spec`].
    #[verifier::when_used_as_spec(bits_spec)]
    pub fn bits(self) -> (r: u8)
        ensures
            r == self.bits_spec(),
    {
        match self {
            DacVoltage::Volt4_5 => 0b01001,
            DacVoltage::Volt3_5 => 0b01000,
            DacVoltage::Volt3_0 => 0b00111,
            DacVoltage::Volt2_75 => 0b00110,
            DacVoltage::Volt2_625 => 0b00101,
            DacVoltage::Volt2_5625 => 0b00100,
            DacVoltage::Volt2_53125 => 0b00011,
            DacVoltage::Volt2_515625 => 0b00010,
            DacVoltage::Volt2_5078125 => 0b00001,
            DacVoltage::Volt2_5 => 0b00000,
            DacVoltage::Volt2_4921875 => 0b10001,
            DacVoltage::Volt2_484375 => 0b10010,
            DacVoltage::Volt2_46875 => 0b10011,
            DacVoltage::Volt2_4375 => 0b10100,
            DacVoltage::Volt2_375 => 0b10101,
            DacVoltage::Volt2_25 => 0b10110,
            DacVoltage::Volt2_0 => 0b10111,
            DacVoltage::Volt1_5 => 0b11000,
            DacVoltage::Volt0_5 => 0b11001,
        }
    }
}

/// Input mode for the converter channels.
#[derive(Debug, Clone, Copy, PartialEq, Eq, Structural)]
pub enum InputMode {
    /// Single-ended inputs: 10 channels, each measured against the common
    /// reference pin.
    SingleEnded,
    /// Differential inputs: 5 fixed pin pairings.
    Differential,
}

impl Default for InputMode {
    fn default() -> (r: Self)
        ensures
            r == InputMode::SingleEnded,
    {
        InputMode::SingleEnded
    }
}

/// Digital filter selection for the primary converter.
#[derive(Debug, Clone, Copy, PartialEq, Eq, Structural)]
pub enum DigitalFilter {
    /// First-order sinc filter.
    Sinc1,
    /// Second-order sinc filter.
    Sinc2,
    /// Third-order sinc filter.
    Sinc3,
    /// Fourth-order sinc filter.
    Sinc4,
    /// Finite-impulse-response filter (default; best line-noise rejection).
    Fir,
}

impl DigitalFilter {
    /// The filter's encoding as a full mode 1 register byte.
    pub open spec fn bits_spec(self) -> u8 {
        match self {
            DigitalFilter::Sinc1 => 0x04,
            DigitalFilter::Sinc2 => 0x24,
            DigitalFilter::Sinc3 => 0x44,
            DigitalFilter::Sinc4 => 0x64,
            DigitalFilter::Fir => 0x84,
        }
    }

    /// Executable twin of [`DigitalFilter::bits_spec`].
    #[verifier::when_used_as_spec(bits_spec)]
    pub fn bits(self) -> (r: u8)
        ensures
            r == self.bits_spec(),
    {
        match self {
            DigitalFilter::Sinc1 => 0x04,
            DigitalFilter::Sinc2 => 0x24,
            DigitalFilter::Sinc3 => 0x44,
            DigitalFilter::Sinc4 => 0x64,
            DigitalFilter::Fir => 0x84,
        }
    }
}

impl Default for DigitalFilter {
    fn default() -> (r: Self)
        ensures
            r == DigitalFilter::Fir,
    {
        DigitalFilter::Fir
    }
}

/// Reference voltage source selection for the primary converter.
#[derive(Debug, Clone, Copy, PartialEq, Eq, Structural)]
pub enum ReferenceSource {
    /// Internal 2.5 volt reference.
    Internal2_5V,
    /// External reference on analog input pins 0 and 1.
    ExternalAin01,
    /// External reference on analog input pins 2 and 3.
    ExternalAin23,
    /// External reference on analog input pins 4 and 5.
    ExternalAin45,
    /// Analog supply rails as reference (default).
    AvddAvss,
}

impl ReferenceSource {
    /// The source's encoding as a full reference multiplexer register byte.
    pub open spec fn bits_spec(self) -> u8 {
        match self {
            ReferenceSource::Internal2_5V => 0x00,
            ReferenceSource::ExternalAin01 => 0x09,
            ReferenceSource::ExternalAin23 => 0x12,
            ReferenceSource::ExternalAin45 => 0x1B,
            ReferenceSource::AvddAvss => 0x24,
        }
    }

    /// Executable twin of [`ReferenceSource::bits_spec`].
    #[verifier::when_used_as_spec(bits_spec)]
    pub fn bits(self) -> (r: u8)
        ensures
            r == self.bits_spec(),
    {
        match self {
            ReferenceSource::Internal2_5V => 0x00,
            ReferenceSource::ExternalAin01 => 0x09,
            ReferenceSource::ExternalAin23 => 0x12,
            ReferenceSource::ExternalAin45 => 0x1B,
            ReferenceSource::AvddAvss => 0x24,
        }
    }
}

impl Default for ReferenceSource {
    fn default() -> (r: Self)
        ensures
            r == ReferenceSource::AvddAvss,
    {
        ReferenceSource::AvddAvss
    }
}

} // verus!
