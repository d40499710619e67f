//! Default construction: every field at its zero bit pattern, so the
//! default value encodes to all-zero bytes.

use sx1231_regs::fields::DataMode;
use sx1231_regs::fields::LnaGainSelect;
use sx1231_regs::fields::ModemMode;
use sx1231_regs::fields::ModulationType;
use sx1231_regs::fields::RampTime;
use sx1231_regs::frontend::Lna;
use sx1231_regs::frontend::Ocp;
use sx1231_regs::frontend::PaLevel;
use sx1231_regs::frontend::PaRamp;
use sx1231_regs::frontend::RssiConfig;
use sx1231_regs::modem::Bitrate;
use sx1231_regs::modem::CarrierFreq;
use sx1231_regs::modem::DataModulation;
use sx1231_regs::modem::Listen;
use sx1231_regs::modem::OpMode;
use sx1231_regs::packet::IrqFlags;
use sx1231_regs::packet::PacketConfig1;
use sx1231_regs::packet::PacketConfig2;
use sx1231_regs::packet::Preamble;
use sx1231_regs::packet::SyncConfig;

#[test]
fn single_byte_defaults_encode_to_zero() {
    assert_eq!(OpMode::default().encode(), 0x00);
    assert_eq!(DataModulation::default().encode(), 0x00);
    assert_eq!(PaLevel::default().encode(), 0x00);
    assert_eq!(PaRamp::default().encode(), 0x00);
    assert_eq!(Ocp::default().encode(), 0x00);
    assert_eq!(Lna::default().encode(), 0x00);
    assert_eq!(RssiConfig::default().encode(), 0x00);
    assert_eq!(SyncConfig::default().encode(), 0x00);
    assert_eq!(PacketConfig1::default().encode(), 0x00);
    assert_eq!(PacketConfig2::default().encode(), 0x00);
}

#[test]
fn multi_byte_defaults_encode_to_zero() {
    assert_eq!(Bitrate::default().encode(), [0x00, 0x00]);
    assert_eq!(CarrierFreq::default().encode(), [0x00, 0x00, 0x00]);
    assert_eq!(Preamble::default().encode(), [0x00, 0x00]);
    assert_eq!(Listen::default().encode(), [0x00, 0x00, 0x00]);
    assert_eq!(IrqFlags::default().encode(), [0x00, 0x00]);
}

#[test]
fn default_fields_hold_zero_discriminants() {
    let v = OpMode::default();
    assert_eq!(v.modem_mode, ModemMode::Sleep);
    assert!(!v.sequencer_off);
    let d = DataModulation::default();
    assert_eq!(d.mod_type, ModulationType::Fsk);
    assert_eq!(d.mode, DataMode::Packet);
    assert_eq!(PaRamp::default().time, RampTime::Ramp3400us);
    assert_eq!(Lna::default().gain_select, LnaGainSelect::Agc);
    assert_eq!(IrqFlags::default().flag_names(), "");
}
