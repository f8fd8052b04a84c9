//! The register/command map must match the datasheet values exactly.

use ads1263::registers::Adc2DataRate;
use ads1263::registers::Adc2Gain;
use ads1263::registers::Command;
use ads1263::registers::DacVoltage;
use ads1263::registers::DataRate;
use ads1263::registers::Delay;
use ads1263::registers::DigitalFilter;
use ads1263::registers::Gain;
use ads1263::registers::InputMode;
use ads1263::registers::ReferenceSource;
use ads1263::registers::Register;

#[test]
fn register_addresses_match_datasheet() {
    assert_eq!(Register::Id.addr(), 0x00);
    assert_eq!(Register::Power.addr(), 0x01);
    assert_eq!(Register::Interface.addr(), 0x02);
    assert_eq!(Register::Mode0.addr(), 0x03);
    assert_eq!(Register::Mode1.addr(), 0x04);
    assert_eq!(Register::Mode2.addr(), 0x05);
    assert_eq!(Register::InpMux.addr(), 0x06);
    assert_eq!(Register::OfCal0.addr(), 0x07);
    assert_eq!(Register::OfCal1.addr(), 0x08);
    assert_eq!(Register::OfCal2.addr(), 0x09);
    assert_eq!(Register::FsCal0.addr(), 0x0A);
    assert_eq!(Register::FsCal1.addr(), 0x0B);
    assert_eq!(Register::FsCal2.addr(), 0x0C);
    assert_eq!(Register::IdacMux.addr(), 0x0D);
    assert_eq!(Register::IdacMag.addr(), 0x0E);
    assert_eq!(Register::RefMux.addr(), 0x0F);
    assert_eq!(Register::TdacP.addr(), 0x10);
    assert_eq!(Register::TdacN.addr(), 0x11);
    assert_eq!(Register::GpioCon.addr(), 0x12);
    assert_eq!(Register::GpioDir.addr(), 0x13);
    assert_eq!(Register::GpioDat.addr(), 0x14);
    assert_eq!(Register::Adc2Cfg.addr(), 0x15);
    assert_eq!(Register::Adc2Mux.addr(), 0x16);
    assert_eq!(Register::Adc2Ofc0.addr(), 0x17);
    assert_eq!(Register::Adc2Ofc1.addr(), 0x18);
    assert_eq!(Register::Adc2Fsc0.addr(), 0x19);
    assert_eq!(Register::Adc2Fsc1.addr(), 0x1A);
}

#[test]
fn command_opcodes_match_datasheet() {
    assert_eq!(Command::Reset.opcode(), 0x06);
    assert_eq!(Command::Start1.opcode(), 0x08);
    assert_eq!(Command::Stop1.opcode(), 0x0A);
    assert_eq!(Command::Start2.opcode(), 0x0C);
    assert_eq!(Command::Stop2.opcode(), 0x0E);
    assert_eq!(Command::RData1.opcode(), 0x12);
    assert_eq!(Command::RData2.opcode(), 0x14);
    assert_eq!(Command::SysOCal1.opcode(), 0x16);
    assert_eq!(Command::SysGCal1.opcode(), 0x17);
    assert_eq!(Command::SelfOCal1.opcode(), 0x19);
    assert_eq!(Command::SysOCal2.opcode(), 0x1B);
    assert_eq!(Command::SysGCal2.opcode(), 0x1C);
    assert_eq!(Command::SelfOCal2.opcode(), 0x1E);
    assert_eq!(Command::RReg.opcode(), 0x20);
    assert_eq!(Command::WReg.opcode(), 0x40);
}

#[test]
fn gain_encodings() {
    assert_eq!(Gain::Gain1.bits(), 0);
    assert_eq!(Gain::Gain2.bits(), 1);
    assert_eq!(Gain::Gain4.bits(), 2);
    assert_eq!(Gain::Gain8.bits(), 3);
    assert_eq!(Gain::Gain16.bits(), 4);
    assert_eq!(Gain::Gain32.bits(), 5);
    assert_eq!(Gain::Gain64.bits(), 6);
}

#[test]
fn data_rate_encodings() {
    assert_eq!(DataRate::Sps2_5.bits(), 0);
    assert_eq!(DataRate::Sps5.bits(), 1);
    assert_eq!(DataRate::Sps10.bits(), 2);
    assert_eq!(DataRate::Sps16_6.bits(), 3);
    assert_eq!(DataRate::Sps20.bits(), 4);
    assert_eq!(DataRate::Sps50.bits(), 5);
    assert_eq!(DataRate::Sps60.bits(), 6);
    assert_eq!(DataRate::Sps100.bits(), 7);
    assert_eq!(DataRate::Sps400.bits(), 8);
    assert_eq!(DataRate::Sps1200.bits(), 9);
    assert_eq!(DataRate::Sps2400.bits(), 10);
    assert_eq!(DataRate::Sps4800.bits(), 11);
    assert_eq!(DataRate::Sps7200.bits(), 12);
    assert_eq!(DataRate::Sps14400.bits(), 13);
    assert_eq!(DataRate::Sps19200.bits(), 14);
    assert_eq!(DataRate::Sps38400.bits(), 15);
}

#[test]
fn delay_encodings() {
    assert_eq!(Delay::Delay0.bits(), 0);
    assert_eq!(Delay::Delay8_7us.bits(), 1);
    assert_eq!(Delay::Delay17us.bits(), 2);
    assert_eq!(Delay::Delay35us.bits(), 3);
    assert_eq!(Delay::Delay169us.bits(), 4);
    assert_eq!(Delay::Delay139us.bits(), 5);
    assert_eq!(Delay::Delay278us.bits(), 6);
    assert_eq!(Delay::Delay555us.bits(), 7);
    assert_eq!(Delay::Delay1_1ms.bits(), 8);
    assert_eq!(Delay::Delay2_2ms.bits(), 9);
    assert_eq!(Delay::Delay4_4ms.bits(), 10);
    assert_eq!(Delay::Delay8_8ms.bits(), 11);
}

#[test]
fn adc2_gain_encodings() {
    assert_eq!(Adc2Gain::Gain1.bits(), 0);
    assert_eq!(Adc2Gain::Gain2.bits(), 1);
    assert_eq!(Adc2Gain::Gain4.bits(), 2);
    assert_eq!(Adc2Gain::Gain8.bits(), 3);
    assert_eq!(Adc2Gain::Gain16.bits(), 4);
    assert_eq!(Adc2Gain::Gain32.bits(), 5);
    assert_eq!(Adc2Gain::Gain64.bits(), 6);
    assert_eq!(Adc2Gain::Gain128.bits(), 7);
}

#[test]
fn adc2_data_rate_encodings() {
    assert_eq!(Adc2DataRate::Sps10.bits(), 0);
    assert_eq!(Adc2DataRate::Sps100.bits(), 1);
    assert_eq!(Adc2DataRate::Sps400.bits(), 2);
    assert_eq!(Adc2DataRate::Sps800.bits(), 3);
}

#[test]
fn dac_voltage_encodings() {
    assert_eq!(DacVoltage::Volt4_5.bits(), 0b01001);
    assert_eq!(DacVoltage::Volt3_5.bits(), 0b01000);
    assert_eq!(DacVoltage::Volt3_0.bits(), 0b00111);
    assert_eq!(DacVoltage::Volt2_75.bits(), 0b00110);
    assert_eq!(DacVoltage::Volt2_625.bits(), 0b00101);
    assert_eq!(DacVoltage::Volt2_5625.bits(), 0b00100);
    assert_eq!(DacVoltage::Volt2_53125.bits(), 0b00011);
    assert_eq!(DacVoltage::Volt2_515625.bits(), 0b00010);
    assert_eq!(DacVoltage::Volt2_5078125.bits(), 0b00001);
    assert_eq!(DacVoltage::Volt2_5.bits(), 0b00000);
    assert_eq!(DacVoltage::Volt2_4921875.bits(), 0b10001);
    assert_eq!(DacVoltage::Volt2_484375.bits(), 0b10010);
    assert_eq!(DacVoltage::Volt2_46875.bits(), 0b10011);
    assert_eq!(DacVoltage::Volt2_4375.bits(), 0b10100);
    assert_eq!(DacVoltage::Volt2_375.bits(), 0b10101);
    assert_eq!(DacVoltage::Volt2_25.bits(), 0b10110);
    assert_eq!(DacVoltage::Volt2_0.bits(), 0b10111);
    assert_eq!(DacVoltage::Volt1_5.bits(), 0b11000);
    assert_eq!(DacVoltage::Volt0_5.bits(), 0b11001);
}

#[test]
fn digital_filter_encodings() {
    assert_eq!(DigitalFilter::Sinc1.bits(), 0x04);
    assert_eq!(DigitalFilter::Sinc2.bits(), 0x24);
    assert_eq!(DigitalFilter::Sinc3.bits(), 0x44);
    assert_eq!(DigitalFilter::Sinc4.bits(), 0x64);
    assert_eq!(DigitalFilter::Fir.bits(), 0x84);
}

#[test]
fn reference_source_encodings() {
    assert_eq!(ReferenceSource::Internal2_5V.bits(), 0x00);
    assert_eq!(ReferenceSource::ExternalAin01.bits(), 0x09);
    assert_eq!(ReferenceSource::ExternalAin23.bits(), 0x12);
    assert_eq!(ReferenceSource::ExternalAin45.bits(), 0x1B);
    assert_eq!(ReferenceSource::AvddAvss.bits(), 0x24);
}

#[test]
fn configuration_defaults() {
    assert_eq!(Gain::default(), Gain::Gain1);
    assert_eq!(DataRate::default(), DataRate::Sps400);
    assert_eq!(Delay::default(), Delay::Delay35us);
    assert_eq!(Adc2Gain::default(), Adc2Gain::Gain1);
    assert_eq!(Adc2DataRate::default(), Adc2DataRate::Sps100);
    assert_eq!(InputMode::default(), InputMode::SingleEnded);
    assert_eq!(DigitalFilter::default(), DigitalFilter::Fir);
    assert_eq!(ReferenceSource::default(), ReferenceSource::AvddAvss);
}

#[test]
fn default_pins() {
    let pins = ads1263::PinConfig::default();
    assert_eq!(pins.rst, 18);
    assert_eq!(pins.cs, 22);
    assert_eq!(pins.drdy, 17);
}
