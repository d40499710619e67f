//! Concrete byte-level scenarios for the register codec.

use sx1231_regs::fields::Bandwidth;
use sx1231_regs::fields::DccFreq;
use sx1231_regs::fields::ModemMode;
use sx1231_regs::fields::ModulationType;
use sx1231_regs::frontend::RxBw;
use sx1231_regs::modem::Bitrate;
use sx1231_regs::modem::CarrierFreq;
use sx1231_regs::modem::OpMode;
use sx1231_regs::packet::IrqFlags;

#[test]
fn op_mode_receiver_encodes_mode_bits_only() {
    let v = OpMode::new(ModemMode::Receiver, false, false, false);
    // Receiver has discriminant 4, placed in bits 2-4: 4 << 2 == 0x10.
    assert_eq!(v.encode(), 0x10);
    let back = OpMode::decode(0x10).unwrap();
    assert_eq!(back, v);
    assert_eq!(back.modem_mode, ModemMode::Receiver);
    assert!(!back.sequencer_off);
    assert!(!back.listen_on);
    assert!(!back.listen_abort);
}

#[test]
fn rx_bw_places_dcc_high_and_bw_low() {
    let v = RxBw { bw: Bandwidth::Bw125000, dcc: DccFreq::Fc4 };
    // dcc discriminant 2 in the top 3 bits, bw discriminant 0x02 in the
    // bottom 5 bits: (2 << 5) | 0x02 == 0x42.
    assert_eq!(v.encode(), 0x42);
    let back = RxBw::decode(0x42).unwrap();
    assert_eq!(back.bw, Bandwidth::Bw125000);
    assert_eq!(back.dcc, DccFreq::Fc4);
}

#[test]
fn bitrate_encodes_big_endian() {
    let v = Bitrate { bitrate: 0x1A0B };
    assert_eq!(v.encode(), [0x1A, 0x0B]);
}

#[test]
fn carrier_freq_encodes_big_endian() {
    let v = CarrierFreq { freq: 0x6C8000 };
    assert_eq!(v.encode(), [0x6C, 0x80, 0x00]);
}

#[test]
fn irq_flags_render_crc_ok_and_payload_ready() {
    // Second byte: crc_ok in bit 1, payload_ready in bit 2.
    let v = IrqFlags::decode([0x00, 0x06]).unwrap();
    assert!(v.crc_ok);
    assert!(v.payload_ready);
    assert!(!v.sync_address_match);
    assert!(!v.mode_ready);
    assert!(!v.packet_sent);
    assert!(!v.fifo_full);
    assert_eq!(v.flag_names(), "CrcOk PayloadReady ");
}

#[test]
fn reserved_modulation_pattern_fails_decode() {
    // 0b01011 is a reserved modulation discriminant.
    assert!(ModulationType::from_bits(0b01011).is_none());
}

#[test]
fn reserved_bandwidth_patterns_fail_decode() {
    // The five-bit patterns outside the bandwidth table are reserved.
    assert!(Bandwidth::from_bits(0x00).is_none());
    assert!(Bandwidth::from_bits(0x08).is_none());
    assert!(Bandwidth::from_bits(0x10).is_none());
    for b in 0x18..0x20 {
        assert!(Bandwidth::from_bits(b).is_none());
    }
    // Every declared pattern decodes, and to the right variant.
    assert_eq!(Bandwidth::from_bits(0x0B), Some(Bandwidth::Bw50000));
    assert_eq!(Bandwidth::from_bits(0x01), Some(Bandwidth::Bw250000));
    assert_eq!(Bandwidth::from_bits(0x17), Some(Bandwidth::Bw2600));
}
