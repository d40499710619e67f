//! Reserved-discriminant rejection: byte patterns whose enumerated-field
//! bits match no declared variant must fail decode, never coerce to a
//! declared variant.

use sx1231_regs::DecodeError;
use sx1231_regs::fields::DataMode;
use sx1231_regs::fields::LnaGainSelect;
use sx1231_regs::fields::ModemMode;
use sx1231_regs::frontend::Lna;
use sx1231_regs::frontend::PaRamp;
use sx1231_regs::frontend::RxBw;
use sx1231_regs::modem::DataModulation;
use sx1231_regs::modem::Listen;
use sx1231_regs::modem::OpMode;
use sx1231_regs::packet::PacketConfig1;

#[test]
fn op_mode_rejects_reserved_modes() {
    // Mode bits 5, 6 and 7 are reserved.
    assert_eq!(OpMode::decode(5 << 2), Err(DecodeError::ReservedDiscriminant));
    assert_eq!(OpMode::decode(6 << 2), Err(DecodeError::ReservedDiscriminant));
    assert_eq!(OpMode::decode(7 << 2), Err(DecodeError::ReservedDiscriminant));
    assert!(ModemMode::from_bits(5).is_none());
}

#[test]
fn data_modulation_rejects_reserved_patterns() {
    // Reserved modulation discriminant 0b01011.
    assert_eq!(DataModulation::decode(0x0B), Err(DecodeError::ReservedDiscriminant));
    // Any modulation discriminant with the high bit set is reserved.
    assert_eq!(DataModulation::decode(0x10), Err(DecodeError::ReservedDiscriminant));
    // Reserved data-mode discriminant 0b10 in bits 5-6.
    assert_eq!(DataModulation::decode(2 << 5), Err(DecodeError::ReservedDiscriminant));
    assert!(DataMode::from_bits(2).is_none());
}

#[test]
fn listen_rejects_reserved_patterns() {
    // End action 0b11 in bits 1-2 is reserved.
    assert_eq!(Listen::decode([3 << 1, 0, 0]), Err(DecodeError::ReservedDiscriminant));
    // Receive resolution 0b11 in bits 4-5 is reserved.
    assert_eq!(Listen::decode([3 << 4, 0, 0]), Err(DecodeError::ReservedDiscriminant));
    // Idle resolution 0b11 in bits 6-7 is reserved.
    assert_eq!(Listen::decode([3 << 6, 0, 0]), Err(DecodeError::ReservedDiscriminant));
}

#[test]
fn lna_rejects_reserved_gain() {
    // Gain selection 0b111 is reserved.
    assert_eq!(Lna::decode(0x07), Err(DecodeError::ReservedDiscriminant));
    assert!(LnaGainSelect::from_bits(7).is_none());
}

#[test]
fn rx_bw_rejects_reserved_bandwidth() {
    // Bandwidth code 0 is reserved, whatever the canceller bits hold.
    assert_eq!(RxBw::decode(0x00), Err(DecodeError::ReservedDiscriminant));
    assert_eq!(RxBw::decode(0x40), Err(DecodeError::ReservedDiscriminant));
    // Bandwidth codes 0x18 through 0x1F are reserved.
    assert_eq!(RxBw::decode(0x18), Err(DecodeError::ReservedDiscriminant));
    assert_eq!(RxBw::decode(0x1F), Err(DecodeError::ReservedDiscriminant));
}

#[test]
fn packet_config1_rejects_reserved_patterns() {
    // Address filter 0b11 in bits 1-2 is reserved.
    assert_eq!(PacketConfig1::decode(3 << 1), Err(DecodeError::ReservedDiscriminant));
    // DC-free encoding 0b11 in bits 5-6 is reserved.
    assert_eq!(PacketConfig1::decode(3 << 5), Err(DecodeError::ReservedDiscriminant));
}

#[test]
fn pa_ramp_decode_is_total() {
    // Every four-bit ramp pattern is declared, so no byte is rejected.
    for b in 0..=255u8 {
        assert!(PaRamp::decode(b).is_ok());
    }
}
