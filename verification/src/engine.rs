//! The protocol engine.
//!
//! The engine owns the one piece of session state — the input mode — and
//! turns every acquisition request into the exact register-configuration
//! and command byte sequences the datasheet mandates. Since the engine
//! never touches the bus itself, each operation is described as data: a
//! [`Vec<EngineOp>`] the hardware layer executes in order, or a byte frame
//! it clocks out between chip-select assertions. All range checks,
//! encodings and orderings are decided — and verified — here.

use vstd::prelude::*;

use crate::error::Ads1263Error;
use crate::registers::Adc2DataRate;
use crate::registers::Adc2Gain;
use crate::registers::Command;
use crate::registers::DacVoltage;
use crate::registers::DataRate;
use crate::registers::Delay;
use crate::registers::DigitalFilter;
use crate::registers::Gain;
use crate::registers::InputMode;
use crate::registers::ReferenceSource;
use crate::registers::Register;

verus! {

/// One register write: the target register and the byte to store in it.
#[derive(Debug, Clone, Copy, PartialEq, Eq, Structural)]
pub struct RegWrite {
    /// The register to write.
    pub reg: Register,
    /// The byte to write.
    pub data: u8,
}

/// One bus operation of a plan. The hardware layer executes a plan's
/// operations strictly in order; every decision that shapes a plan has
/// already been made by the engine.
#[derive(Debug, Clone, Copy, PartialEq, Eq, Structural)]
pub enum EngineOp {
    /// Drive the reset line high (true) or low (false).
    SetReset(bool),
    /// Select the device, transmit the command's opcode, deselect.
    SendCommand(Command),
    /// Perform a single-register write (see [`write_reg_frame`]).
    WriteReg(RegWrite),
    /// Perform a single-register write, wait one millisecond for the value
    /// to settle, read the register back and report the comparison (see
    /// [`write_verify_report`]); a mismatch is diagnostic only and never
    /// aborts the plan.
    WriteRegVerified(RegWrite),
    /// Sleep for the given number of milliseconds.
    DelayMs(u64),
    /// Block until the data-ready line reaches its ready level, within a
    /// bounded wait; a timeout aborts the plan with a timeout error.
    WaitReady,
    /// Read one primary-converter data frame (poll the in-frame status
    /// byte for bit 6, then four data bytes and the checksum byte).
    ReadFrame1,
    /// Read one auxiliary-converter data frame (poll the in-frame status
    /// byte for bit 7, then three data bytes, one padding byte and the
    /// checksum byte).
    ReadFrame2,
}

/// The outcome of a verified register write. The operation reports success
/// whether or not the read-back matched: read-only and reserved bits make
/// an exact echo unreliable, so a mismatch is surfaced as a diagnostic,
/// never as a failure.
#[derive(Debug, Clone, Copy, PartialEq, Eq, Structural)]
pub struct WriteVerify {
    /// Always true: a read-back mismatch does not fail the write.
    pub success: bool,
    /// Whether the byte read back equalled the byte written.
    pub matched: bool,
}

/// Compares a verified write's read-back byte against the byte written.
/// The write is reported successful either way; only `matched` records
/// whether the register echoed the value.
pub fn write_verify_report(written: u8, read_back: u8) -> (r: WriteVerify)
    ensures
        r.success,
        r.matched == (written == read_back),
{
    WriteVerify { success: true, matched: written == read_back }
}

/// The byte frame of a single-register write: the write-register base
/// opcode combined with the register address, a count-minus-one byte of
/// zero, then the data byte.
pub open spec fn write_reg_frame_spec(reg: Register, data: u8) -> Seq<u8> {
    seq![(Command::WReg.opcode_spec() + reg.addr_spec()) as u8, 0u8, data]
}

/// Builds the byte frame of a single-register write; the transport clocks
/// these bytes out while the device is selected.
pub fn write_reg_frame(reg: Register, data: u8) -> (r: Vec<u8>)
    ensures
        r@ == write_reg_frame_spec(reg, data),
{
    let a = reg.addr();
    proof {
        assert(0x40u8 | a == 0x40 + a) by (bit_vector)
            requires
                a <= 0x1A,
        ;
    }
    let mut r: Vec<u8> = Vec::new();
    r.push(Command::WReg.opcode() | a);
    r.push(0x00);
    r.push(data);
    proof {
        assert(r@ =~= write_reg_frame_spec(reg, data));
    }
    r
}

/// The request bytes of a single-register read: the read-register base
/// opcode combined with the register address, then a count-minus-one byte
/// of zero. One data byte is read back after these are sent.
pub open spec fn read_reg_request_spec(reg: Register) -> Seq<u8> {
    seq![(Command::RReg.opcode_spec() + reg.addr_spec()) as u8, 0u8]
}

/// Builds the request bytes of a single-register read.
pub fn read_reg_request(reg: Register) -> (r: Vec<u8>)
    ensures
        r@ == read_reg_request_spec(reg),
{
    let a = reg.addr();
    proof {
        assert(0x20u8 | a == 0x20 + a) by (bit_vector)
            requires
                a <= 0x1A,
        ;
    }
    let mut r: Vec<u8> = Vec::new();
    r.push(Command::RReg.opcode() | a);
    r.push(0x00);
    proof {
        assert(r@ =~= read_reg_request_spec(reg));
    }
    r
}

/// Extracts the part number from the identity register: the field occupies
/// the top three bits.
pub fn chip_id_from_register(value: u8) -> (r: u8)
    ensures
        r == value / 32,
{
    proof {
        assert(value >> 5 == value / 32) by (bit_vector);
    }
    value >> 5
}

/// The part number the identity register must report.
pub const EXPECTED_CHIP_ID: u8 = 1;

/// The hardware-reset plan: assert the reset line's active level, hold,
/// release, hold, reassert, hold — 300 milliseconds each, because the
/// device's power-on behavior is timing-sensitive.
pub open spec fn reset_ops_spec() -> Seq<EngineOp> {
    seq![
        EngineOp::SetReset(true),
        EngineOp::DelayMs(300),
        EngineOp::SetReset(false),
        EngineOp::DelayMs(300),
        EngineOp::SetReset(true),
        EngineOp::DelayMs(300),
    ]
}

/// Builds the hardware-reset plan.
pub fn reset_ops() -> (r: Vec<EngineOp>)
    ensures
        r@ == reset_ops_spec(),
{
    let mut r: Vec<EngineOp> = Vec::new();
    r.push(EngineOp::SetReset(true));
    r.push(EngineOp::DelayMs(300));
    r.push(EngineOp::SetReset(false));
    r.push(EngineOp::DelayMs(300));
    r.push(EngineOp::SetReset(true));
    r.push(EngineOp::DelayMs(300));
    proof {
        assert(r@ =~= reset_ops_spec());
    }
    r
}

/// The primary converter's mode 2 control byte: a fixed high bit selecting
/// amplifier bypass, the gain code in bits 4-6 and the data-rate code in
/// bits 0-3.
pub open spec fn mode2_byte_spec(gain: Gain, drate: DataRate) -> u8 {
    (0x80 + gain.bits_spec() * 16 + drate.bits_spec()) as u8
}

/// Builds the primary converter's mode 2 control byte.
pub fn mode2_byte(gain: Gain, drate: DataRate) -> (r: u8)
    ensures
        r == mode2_byte_spec(gain, drate),
{
    let g = gain.bits();
    let d = drate.bits();
    proof {
        assert(0x80u8 | (g << 4) | d == 0x80 + g * 16 + d) by (bit_vector)
            requires
                g <= 6,
                d <= 15,
        ;
    }
    0x80 | (g << 4) | d
}

/// The mode 2 control byte used by the sense-resistor sequence: gain and
/// data rate only, with the amplifier in the path.
pub open spec fn rtd_mode2_byte_spec(gain: Gain, drate: DataRate) -> u8 {
    (gain.bits_spec() * 16 + drate.bits_spec()) as u8
}

/// Builds the sense-resistor sequence's mode 2 control byte.
pub fn rtd_mode2_byte(gain: Gain, drate: DataRate) -> (r: u8)
    ensures
        r == rtd_mode2_byte_spec(gain, drate),
{
    let g = gain.bits();
    let d = drate.bits();
    proof {
        assert((g << 4) | d == g * 16 + d) by (bit_vector)
            requires
                g <= 6,
                d <= 15,
        ;
    }
    (g << 4) | d
}

/// The auxiliary converter's configuration byte: a fixed reference
/// selection (the analog supply rails), the data-rate code in bits 6-7 and
/// the gain code in bits 0-2.
pub open spec fn adc2cfg_byte_spec(gain: Adc2Gain, drate: Adc2DataRate) -> u8 {
    (0x20 + drate.bits_spec() * 64 + gain.bits_spec()) as u8
}

/// Builds the auxiliary converter's configuration byte.
pub fn adc2cfg_byte(gain: Adc2Gain, drate: Adc2DataRate) -> (r: u8)
    ensures
        r == adc2cfg_byte_spec(gain, drate),
{
    let g = gain.bits();
    let d = drate.bits();
    proof {
        assert(0x20u8 | (d << 6) | g == 0x20 + d * 64 + g) by (bit_vector)
            requires
                g <= 7,
                d <= 3,
        ;
    }
    0x20 | (d << 6) | g
}

/// The primary converter's configuration writes, in order: the mode 2
/// control byte, the reference source, the conversion delay, and the
/// digital filter (policy default: the filter with the best line-noise
/// rejection). Each is performed as a verified write.
pub open spec fn config_adc1_writes_spec(gain: Gain, drate: DataRate, delay: Delay) -> Seq<
    RegWrite,
> {
    seq![
        RegWrite { reg: Register::Mode2, data: mode2_byte_spec(gain, drate) },
        RegWrite { reg: Register::RefMux, data: ReferenceSource::AvddAvss.bits_spec() },
        RegWrite { reg: Register::Mode0, data: delay.bits_spec() },
        RegWrite { reg: Register::Mode1, data: DigitalFilter::Fir.bits_spec() },
    ]
}

/// Builds the primary converter's configuration writes.
pub fn config_adc1_plan(gain: Gain, drate: DataRate, delay: Delay) -> (r: Vec<RegWrite>)
    ensures
        r@ == config_adc1_writes_spec(gain, drate, delay),
{
    let mut r: Vec<RegWrite> = Vec::new();
    r.push(RegWrite { reg: Register::Mode2, data: mode2_byte(gain, drate) });
    r.push(RegWrite { reg: Register::RefMux, data: ReferenceSource::AvddAvss.bits() });
    r.push(RegWrite { reg: Register::Mode0, data: delay.bits() });
    r.push(RegWrite { reg: Register::Mode1, data: DigitalFilter::Fir.bits() });
    proof {
        assert(r@ =~= config_adc1_writes_spec(gain, drate, delay));
    }
    r
}

/// The auxiliary converter's configuration writes, in order: the
/// configuration byte, then the conversion delay. Each is performed as a
/// verified write.
pub open spec fn config_adc2_writes_spec(
    gain: Adc2Gain,
    drate: Adc2DataRate,
    delay: Delay,
) -> Seq<RegWrite> {
    seq![
        RegWrite { reg: Register::Adc2Cfg, data: adc2cfg_byte_spec(gain, drate) },
        RegWrite { reg: Register::Mode0, data: delay.bits_spec() },
    ]
}

/// Builds the auxiliary converter's configuration writes.
pub fn config_adc2_plan(gain: Adc2Gain, drate: Adc2DataRate, delay: Delay) -> (r: Vec<RegWrite>)
    ensures
        r@ == config_adc2_writes_spec(gain, drate, delay),
{
    let mut r: Vec<RegWrite> = Vec::new();
    r.push(RegWrite { reg: Register::Adc2Cfg, data: adc2cfg_byte(gain, drate) });
    r.push(RegWrite { reg: Register::Mode0, data: delay.bits() });
    proof {
        assert(r@ =~= config_adc2_writes_spec(gain, drate, delay));
    }
    r
}

/// The plan that initializes the primary converter once the identity
/// check has passed: stop its conversions, apply the configuration with
/// gain 1 and the default conversion delay, then start continuous
/// conversion.
pub open spec fn init_adc1_ops_spec(rate: DataRate) -> Seq<EngineOp> {
    seq![EngineOp::SendCommand(Command::Stop1)]
        + config_adc1_writes_spec(Gain::Gain1, rate, Delay::Delay35us).map(
        |i: int, w: RegWrite| EngineOp::WriteRegVerified(w),
    ) + seq![EngineOp::SendCommand(Command::Start1)]
}

/// Decides primary-converter initialization from the part number read
/// back after the hardware reset: an unexpected part number fails closed
/// — no plan is produced, so no conversion is ever started — and the
/// expected one yields the full configuration plan.
pub fn init_adc1_steps(chip_id: u8, rate: DataRate) -> (r: Result<Vec<EngineOp>, Ads1263Error>)
    ensures
        chip_id == EXPECTED_CHIP_ID ==> (r matches Ok(ops) && ops@ == init_adc1_ops_spec(rate)),
        chip_id != EXPECTED_CHIP_ID ==> (r matches Err(e) && e == Ads1263Error::InvalidChipId(
            chip_id,
        )),
{
    if chip_id != EXPECTED_CHIP_ID {
        return Err(Ads1263Error::InvalidChipId(chip_id));
    }
    let mut ops: Vec<EngineOp> = Vec::new();
    ops.push(EngineOp::SendCommand(Command::Stop1));
    ops.push(EngineOp::WriteRegVerified(RegWrite { reg: Register::Mode2, data: mode2_byte(Gain::Gain1, rate) }));
    ops.push(EngineOp::WriteRegVerified(RegWrite { reg: Register::RefMux, data: ReferenceSource::AvddAvss.bits() }));
    ops.push(EngineOp::WriteRegVerified(RegWrite { reg: Register::Mode0, data: Delay::Delay35us.bits() }));
    ops.push(EngineOp::WriteRegVerified(RegWrite { reg: Register::Mode1, data: DigitalFilter::Fir.bits() }));
    ops.push(EngineOp::SendCommand(Command::Start1));
    proof {
        assert(ops@ =~= init_adc1_ops_spec(rate));
    }
    Ok(ops)
}

/// The plan that initializes the auxiliary converter once the identity
/// check has passed: stop its conversions and apply the configuration with
/// gain 1 and the default conversion delay. It is not started here: the
/// auxiliary converter is started per read.
pub open spec fn init_adc2_ops_spec(rate: Adc2DataRate) -> Seq<EngineOp> {
    seq![EngineOp::SendCommand(Command::Stop2)]
        + config_adc2_writes_spec(Adc2Gain::Gain1, rate, Delay::Delay35us).map(
        |i: int, w: RegWrite| EngineOp::WriteRegVerified(w),
    )
}

/// Decides auxiliary-converter initialization from the part number read
/// back after the hardware reset; fails closed exactly as
/// [`init_adc1_steps`] does.
pub fn init_adc2_steps(chip_id: u8, rate: Adc2DataRate) -> (r: Result<
    Vec<EngineOp>,
    Ads1263Error,
>)
    ensures
        chip_id == EXPECTED_CHIP_ID ==> (r matches Ok(ops) && ops@ == init_adc2_ops_spec(rate)),
        chip_id != EXPECTED_CHIP_ID ==> (r matches Err(e) && e == Ads1263Error::InvalidChipId(
            chip_id,
        )),
{
    if chip_id != EXPECTED_CHIP_ID {
        return Err(Ads1263Error::InvalidChipId(chip_id));
    }
    let mut ops: Vec<EngineOp> = Vec::new();
    ops.push(EngineOp::SendCommand(Command::Stop2));
    ops.push(EngineOp::WriteRegVerified(RegWrite { reg: Register::Adc2Cfg, data: adc2cfg_byte(Adc2Gain::Gain1, rate) }));
    ops.push(EngineOp::WriteRegVerified(RegWrite { reg: Register::Mode0, data: Delay::Delay35us.bits() }));
    proof {
        assert(ops@ =~= init_adc2_ops_spec(rate));
    }
    Ok(ops)
}

/// A single-ended channel's input-multiplexer byte: the channel index in
/// the high nibble, the fixed common-reference code in the low nibble.
/// Meaningful for channel indices up to 10.
pub open spec fn single_ended_mux_spec(channel: u8) -> u8 {
    (channel * 16 + 0x0A) as u8
}

/// Builds a single-ended channel's input-multiplexer byte.
pub fn single_ended_mux(channel: u8) -> (r: u8)
    requires
        channel <= 10,
    ensures
        r == single_ended_mux_spec(channel),
{
    proof {
        assert((channel << 4) | 0x0A == channel * 16 + 0x0A) by (bit_vector)
            requires
                channel <= 10,
        ;
    }
    (channel << 4) | 0x0A
}

/// A differential channel's input-multiplexer byte: the five fixed pin
/// pairings select adjacent pins 2k and 2k+1 as positive and negative
/// inputs. Meaningful for channel indices up to 4; no other pairing is
/// permitted.
pub open spec fn differential_mux_spec(channel: u8) -> u8 {
    ((2 * channel) * 16 + (2 * channel + 1)) as u8
}

/// Builds a differential channel's input-multiplexer byte.
pub fn differential_mux(channel: u8) -> (r: u8)
    requires
        channel <= 4,
    ensures
        r == differential_mux_spec(channel),
{
    match channel {
        0 => 0x01,
        1 => 0x23,
        2 => 0x45,
        3 => 0x67,
        _ => 0x89,
    }
}

/// The protocol engine's session state: the input mode in force, which
/// decides how a channel index is encoded into the input-multiplexer
/// registers and which indices are legal. It is set explicitly before
/// acquisition and persists across reads until changed; the device's own
/// multiplexer register is rewritten on every read.
#[derive(Debug, Clone, Copy, PartialEq, Eq, Structural)]
pub struct Ads1263 {
    /// The input mode in force.
    pub scan_mode: InputMode,
}

impl Ads1263 {
    /// Creates an engine in single-ended mode.
    pub fn new() -> (r: Self)
        ensures
            r.scan_mode == InputMode::SingleEnded,
    {
        Ads1263 { scan_mode: InputMode::SingleEnded }
    }

    /// Sets the input mode.
    pub fn set_mode(&mut self, mode: InputMode)
        ensures
            final(self).scan_mode == mode,
    {
        self.scan_mode = mode;
    }

    /// Returns the input mode in force.
    pub fn get_mode(&self) -> (r: InputMode)
        ensures
            r == self.scan_mode,
    {
        self.scan_mode
    }

    /// Encodes a channel index into an input-multiplexer byte under the
    /// mode in force: indices up to 10 are legal single-ended, indices up
    /// to 4 are legal differential, and anything beyond is rejected with
    /// the index supplied and the maximum allowed.
    pub fn channel_mux(&self, channel: u8) -> (r: Result<u8, Ads1263Error>)
        ensures
            self.scan_mode == InputMode::SingleEnded && channel <= 10 ==> (r matches Ok(b) && b
                == single_ended_mux_spec(channel)),
            self.scan_mode == InputMode::SingleEnded && channel > 10 ==> (r matches Err(e) && e
                == Ads1263Error::InvalidChannel(channel, 10)),
            self.scan_mode == InputMode::Differential && channel <= 4 ==> (r matches Ok(b) && b
                == differential_mux_spec(channel)),
            self.scan_mode == InputMode::Differential && channel > 4 ==> (r matches Err(e) && e
                == Ads1263Error::InvalidChannel(channel, 4)),
    {
        match self.scan_mode {
            InputMode::SingleEnded => {
                if channel > 10 {
                    Err(Ads1263Error::InvalidChannel(channel, 10))
                } else {
                    Ok(single_ended_mux(channel))
                }
            },
            InputMode::Differential => {
                if channel > 4 {
                    Err(Ads1263Error::InvalidChannel(channel, 4))
                } else {
                    Ok(differential_mux(channel))
                }
            },
        }
    }

    /// The register write that routes a channel to the primary converter's
    /// input stage, under the mode in force.
    pub fn channel_write_adc1(&self, channel: u8) -> (r: Result<RegWrite, Ads1263Error>)
        ensures
            r matches Ok(w) ==> w.reg == Register::InpMux && (self.channel_mux_ok(channel)
                matches Some(b) && w.data == b),
            r matches Err(e) ==> self.channel_mux_ok(channel) is None && e
                == self.channel_mux_err(channel),
    {
        match self.channel_mux(channel) {
            Ok(b) => Ok(RegWrite { reg: Register::InpMux, data: b }),
            Err(e) => Err(e),
        }
    }

    /// The register write that routes a channel to the auxiliary
    /// converter's input stage, under the mode in force.
    pub fn channel_write_adc2(&self, channel: u8) -> (r: Result<RegWrite, Ads1263Error>)
        ensures
            r matches Ok(w) ==> w.reg == Register::Adc2Mux && (self.channel_mux_ok(channel)
                matches Some(b) && w.data == b),
            r matches Err(e) ==> self.channel_mux_ok(channel) is None && e
                == self.channel_mux_err(channel),
    {
        match self.channel_mux(channel) {
            Ok(b) => Ok(RegWrite { reg: Register::Adc2Mux, data: b }),
            Err(e) => Err(e),
        }
    }

    /// The multiplexer byte a channel encodes to under the mode in force,
    /// or nothing where the index is out of range.
    pub open spec fn channel_mux_ok(&self, channel: u8) -> Option<u8> {
        match self.scan_mode {
            InputMode::SingleEnded => if channel <= 10 {
                Some(single_ended_mux_spec(channel))
            } else {
                None
            },
            InputMode::Differential => if channel <= 4 {
                Some(differential_mux_spec(channel))
            } else {
                None
            },
        }
    }

    /// The range error an out-of-range channel index is rejected with
    /// under the mode in force.
    pub open spec fn channel_mux_err(&self, channel: u8) -> Ads1263Error {
        match self.scan_mode {
            InputMode::SingleEnded => Ads1263Error::InvalidChannel(channel, 10),
            InputMode::Differential => Ads1263Error::InvalidChannel(channel, 4),
        }
    }

    /// The plan that acquires one primary-converter sample from a routed
    /// channel: route the channel, block on the data-ready line, read one
    /// frame. The primary converter free-runs once started, so no start
    /// command is issued here.
    pub fn acquire_adc1_ops(&self, channel: u8) -> (r: Result<Vec<EngineOp>, Ads1263Error>)
        ensures
            r matches Ok(ops) ==> (self.channel_mux_ok(channel) matches Some(b) && ops@
                == acquire_adc1_ops_spec(b)),
            r matches Err(e) ==> self.channel_mux_ok(channel) is None && e
                == self.channel_mux_err(channel),
    {
        let w = match self.channel_write_adc1(channel) {
            Ok(w) => w,
            Err(e) => {
                return Err(e);
            },
        };
        let mut ops: Vec<EngineOp> = Vec::new();
        ops.push(EngineOp::WriteReg(w));
        ops.push(EngineOp::WaitReady);
        ops.push(EngineOp::ReadFrame1);
        proof {
            assert(ops@ =~= acquire_adc1_ops_spec(w.data));
        }
        Ok(ops)
    }

    /// The plan that acquires one auxiliary-converter sample from a routed
    /// channel: route the channel, issue the start command, read one frame
    /// immediately. Unlike the primary-converter path there is no wait on
    /// the external data-ready line; that asymmetry is deliberate and
    /// mirrors the device's on-demand acquisition model.
    pub fn acquire_adc2_ops(&self, channel: u8) -> (r: Result<Vec<EngineOp>, Ads1263Error>)
        ensures
            r matches Ok(ops) ==> (self.channel_mux_ok(channel) matches Some(b) && ops@
                == acquire_adc2_ops_spec(b)),
            r matches Err(e) ==> self.channel_mux_ok(channel) is None && e
                == self.channel_mux_err(channel),
    {
        let w = match self.channel_write_adc2(channel) {
            Ok(w) => w,
            Err(e) => {
                return Err(e);
            },
        };
        let mut ops: Vec<EngineOp> = Vec::new();
        ops.push(EngineOp::WriteReg(w));
        ops.push(EngineOp::SendCommand(Command::Start2));
        ops.push(EngineOp::ReadFrame2);
        proof {
            assert(ops@ =~= acquire_adc2_ops_spec(w.data));
        }
        Ok(ops)
    }

    /// The plan that scans all 10 single-ended channels of the auxiliary
    /// converter in channel order, stopping its conversions after each
    /// read: the auxiliary converter is not continuously running. In
    /// differential mode the scan is rejected with the range error its
    /// first out-of-range index would produce.
    pub fn scan_adc2_ops(&self) -> (r: Result<Vec<EngineOp>, Ads1263Error>)
        ensures
            self.scan_mode == InputMode::SingleEnded ==> (r matches Ok(ops) && ops@
                == scan_adc2_ops_spec()),
            self.scan_mode == InputMode::Differential ==> (r matches Err(e) && e
                == Ads1263Error::InvalidChannel(5, 4)),
    {
        match self.scan_mode {
            InputMode::Differential => Err(Ads1263Error::InvalidChannel(5, 4)),
            InputMode::SingleEnded => {
                let mut ops: Vec<EngineOp> = Vec::new();
                let mut ch: u8 = 0;
                while ch < 10
                    invariant
                        ch <= 10,
                        ops@ == adc2_scan_prefix_spec(ch as nat),
                    decreases 10 - ch,
                {
                    let mux = single_ended_mux(ch);
                    ops.push(EngineOp::WriteReg(RegWrite { reg: Register::Adc2Mux, data: mux }));
                    ops.push(EngineOp::SendCommand(Command::Start2));
                    ops.push(EngineOp::ReadFrame2);
                    ops.push(EngineOp::SendCommand(Command::Stop2));
                    proof {
                        assert(ops@ =~= adc2_scan_prefix_spec((ch + 1) as nat));
                    }
                    ch = ch + 1;
                }
                Ok(ops)
            },
        }
    }
}

/// The operations of one primary-converter acquisition, given the
/// multiplexer byte the channel encodes to.
pub open spec fn acquire_adc1_ops_spec(mux: u8) -> Seq<EngineOp> {
    seq![
        EngineOp::WriteReg(RegWrite { reg: Register::InpMux, data: mux }),
        EngineOp::WaitReady,
        EngineOp::ReadFrame1,
    ]
}

/// The operations of one auxiliary-converter acquisition, given the
/// multiplexer byte the channel encodes to.
pub open spec fn acquire_adc2_ops_spec(mux: u8) -> Seq<EngineOp> {
    seq![
        EngineOp::WriteReg(RegWrite { reg: Register::Adc2Mux, data: mux }),
        EngineOp::SendCommand(Command::Start2),
        EngineOp::ReadFrame2,
    ]
}

/// One group of the auxiliary-converter scan: acquire one single-ended
/// channel, then stop conversions.
pub open spec fn adc2_scan_group_spec(channel: u8) -> Seq<EngineOp> {
    acquire_adc2_ops_spec(single_ended_mux_spec(channel)) + seq![
        EngineOp::SendCommand(Command::Stop2),
    ]
}

/// The first `n` groups of the auxiliary-converter scan, in channel order.
pub open spec fn adc2_scan_prefix_spec(n: nat) -> Seq<EngineOp>
    decreases n,
{
    if n == 0 {
        Seq::empty()
    } else {
        adc2_scan_prefix_spec((n - 1) as nat) + adc2_scan_group_spec((n - 1) as u8)
    }
}

/// The full auxiliary-converter scan: all 10 single-ended channels.
pub open spec fn scan_adc2_ops_spec() -> Seq<EngineOp> {
    adc2_scan_prefix_spec(10)
}

/// The full scan is exactly ten four-operation groups, one per channel,
/// in channel order: the group at positions 4·ch to 4·ch+3 acquires
/// channel ch and then stops conversions.
pub proof fn lemma_scan_adc2_in_channel_order()
    ensures
        scan_adc2_ops_spec().len() == 40,
        forall|ch: u8|
            ch < 10 ==> #[trigger] scan_adc2_ops_spec().subrange(
                4 * (ch as int),
                4 * (ch as int) + 4,
            ) == adc2_scan_group_spec(ch),
{
    lemma_adc2_scan_prefix_shape(10);
}

proof fn lemma_adc2_scan_prefix_shape(n: nat)
    requires
        n <= 10,
    ensures
        adc2_scan_prefix_spec(n).len() == 4 * n,
        forall|ch: u8|
            (ch as nat) < n ==> #[trigger] adc2_scan_prefix_spec(n).subrange(
                4 * (ch as int),
                4 * (ch as int) + 4,
            ) == adc2_scan_group_spec(ch),
    decreases n,
{
    if n > 0 {
        lemma_adc2_scan_prefix_shape((n - 1) as nat);
        let prev = adc2_scan_prefix_spec((n - 1) as nat);
        let cur = adc2_scan_prefix_spec(n);
        let g = adc2_scan_group_spec((n - 1) as u8);
        assert(g.len() == 4);
        assert forall|ch: u8| (ch as nat) < n implies cur.subrange(
            4 * (ch as int),
            4 * (ch as int) + 4,
        ) == adc2_scan_group_spec(ch) by {
            if (ch as nat) + 1 < n {
                assert(prev.subrange(4 * (ch as int), 4 * (ch as int) + 4)
                    == adc2_scan_group_spec(ch));
                assert(cur.subrange(4 * (ch as int), 4 * (ch as int) + 4) =~= prev.subrange(
                    4 * (ch as int),
                    4 * (ch as int) + 4,
                ));
            } else {
                assert(cur.subrange(4 * (ch as int), 4 * (ch as int) + 4) =~= g);
            }
        }
    }
}

/// The bias-output register write: the positive or negative output
/// register, holding either zero (output disabled) or the level code with
/// the enable bit set. No verification pass is applied to this write.
pub fn set_dac_write(voltage: DacVoltage, positive: bool, enable: bool) -> (r: RegWrite)
    ensures
        positive ==> r.reg == Register::TdacP,
        !positive ==> r.reg == Register::TdacN,
        enable ==> r.data == voltage.bits_spec() + 0x80,
        !enable ==> r.data == 0,
{
    let reg = if positive {
        Register::TdacP
    } else {
        Register::TdacN
    };
    let data = if enable {
        let b = voltage.bits();
        proof {
            assert(b | 0x80 == b + 0x80) by (bit_vector)
                requires
                    b <= 0x19,
            ;
        }
        b | 0x80
    } else {
        0x00
    };
    RegWrite { reg, data }
}

/// The sense-resistor measurement plan, a fixed configuration
/// micro-sequence distinct from normal acquisition. In order: conversion
/// delay; excitation-current routing (source 2 to the common pin, source 1
/// to its fixed auxiliary pin); excitation magnitude (250 microamperes on
/// both sources); gain and data rate as requested; the fixed sense-pin
/// input pair; the fixed external reference pair. Each write is followed
/// by a one-millisecond settling wait — the analog paths need time to
/// stabilize, and omitting the waits corrupts the first sample. Then one
/// conversion is taken: start, settle, block on data-ready, read one
/// frame, stop.
pub open spec fn read_rtd_ops_spec(delay: Delay, gain: Gain, drate: DataRate) -> Seq<EngineOp> {
    seq![
        EngineOp::WriteReg(RegWrite { reg: Register::Mode0, data: delay.bits_spec() }),
        EngineOp::DelayMs(1),
        EngineOp::WriteReg(RegWrite { reg: Register::IdacMux, data: 0xA3 }),
        EngineOp::DelayMs(1),
        EngineOp::WriteReg(RegWrite { reg: Register::IdacMag, data: 0x33 }),
        EngineOp::DelayMs(1),
        EngineOp::WriteReg(RegWrite { reg: Register::Mode2, data: rtd_mode2_byte_spec(gain, drate) }),
        EngineOp::DelayMs(1),
        EngineOp::WriteReg(RegWrite { reg: Register::InpMux, data: 0x76 }),
        EngineOp::DelayMs(1),
        EngineOp::WriteReg(RegWrite { reg: Register::RefMux, data: 0x1B }),
        EngineOp::DelayMs(1),
        EngineOp::SendCommand(Command::Start1),
        EngineOp::DelayMs(10),
        EngineOp::WaitReady,
        EngineOp::ReadFrame1,
        EngineOp::SendCommand(Command::Stop1),
    ]
}

/// Builds the sense-resistor measurement plan.
pub fn read_rtd_ops(delay: Delay, gain: Gain, drate: DataRate) -> (r: Vec<EngineOp>)
    ensures
        r@ == read_rtd_ops_spec(delay, gain, drate),
{
    let mut r: Vec<EngineOp> = Vec::new();
    r.push(EngineOp::WriteReg(RegWrite { reg: Register::Mode0, data: delay.bits() }));
    r.push(EngineOp::DelayMs(1));
    r.push(EngineOp::WriteReg(RegWrite { reg: Register::IdacMux, data: 0xA3 }));
    r.push(EngineOp::DelayMs(1));
    r.push(EngineOp::WriteReg(RegWrite { reg: Register::IdacMag, data: 0x33 }));
    r.push(EngineOp::DelayMs(1));
    r.push(EngineOp::WriteReg(RegWrite { reg: Register::Mode2, data: rtd_mode2_byte(gain, drate) }));
    r.push(EngineOp::DelayMs(1));
    r.push(EngineOp::WriteReg(RegWrite { reg: Register::InpMux, data: 0x76 }));
    r.push(EngineOp::DelayMs(1));
    r.push(EngineOp::WriteReg(RegWrite { reg: Register::RefMux, data: 0x1B }));
    r.push(EngineOp::DelayMs(1));
    r.push(EngineOp::SendCommand(Command::Start1));
    r.push(EngineOp::DelayMs(10));
    r.push(EngineOp::WaitReady);
    r.push(EngineOp::ReadFrame1);
    r.push(EngineOp::SendCommand(Command::Stop1));
    proof {
        assert(r@ =~= read_rtd_ops_spec(delay, gain, drate));
    }
    r
}

} // verus!
