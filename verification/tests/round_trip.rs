//! Round-trip and reserved-filler-preservation checks, one register kind at
//! a time: decoding the encoding of a typed value gives the value back, and
//! encoding the decoding of raw bytes gives the bytes back, reserved bit
//! positions included.

use sx1231_regs::fields::AddressFilter;
use sx1231_regs::fields::Aes;
use sx1231_regs::fields::AutoRxRestart;
use sx1231_regs::fields::Bandwidth;
use sx1231_regs::fields::Crc;
use sx1231_regs::fields::CrcAutoClear;
use sx1231_regs::fields::DataMode;
use sx1231_regs::fields::DcFree;
use sx1231_regs::fields::DccFreq;
use sx1231_regs::fields::FifoFillCondition;
use sx1231_regs::fields::ListenBaseDuration;
use sx1231_regs::fields::ListenCriteria;
use sx1231_regs::fields::ListenEnd;
use sx1231_regs::fields::LnaGainSelect;
use sx1231_regs::fields::LnaZin;
use sx1231_regs::fields::ModemMode;
use sx1231_regs::fields::ModulationType;
use sx1231_regs::fields::PacketFormat;
use sx1231_regs::fields::RampTime;
use sx1231_regs::fields::TxStartCondition;
use sx1231_regs::frontend::AfcBw;
use sx1231_regs::frontend::Lna;
use sx1231_regs::frontend::Ocp;
use sx1231_regs::frontend::PaLevel;
use sx1231_regs::frontend::PaRamp;
use sx1231_regs::frontend::RssiConfig;
use sx1231_regs::frontend::RssiThreshold;
use sx1231_regs::frontend::RssiValue;
use sx1231_regs::frontend::RxBw;
use sx1231_regs::modem::AfcControl;
use sx1231_regs::modem::AfcFei;
use sx1231_regs::modem::Bitrate;
use sx1231_regs::modem::CarrierFreq;
use sx1231_regs::modem::DataModulation;
use sx1231_regs::modem::Fdev;
use sx1231_regs::modem::FreqDev;
use sx1231_regs::modem::Listen;
use sx1231_regs::modem::OpMode;
use sx1231_regs::modem::Oscillator;
use sx1231_regs::modem::Version;
use sx1231_regs::packet::FifoThreshold;
use sx1231_regs::packet::IrqFlags;
use sx1231_regs::packet::PacketConfig1;
use sx1231_regs::packet::PacketConfig2;
use sx1231_regs::packet::PayloadLength;
use sx1231_regs::packet::Preamble;
use sx1231_regs::packet::SyncConfig;
use sx1231_regs::packet::SyncValue;

#[test]
fn op_mode_round_trips_with_reserved_bits() {
    // 0x93: sequencer-off set, mode 4, reserved bits 0b11.
    let v = OpMode::decode(0x93).unwrap();
    assert_eq!(v.reserved, 0x03);
    assert_eq!(v.modem_mode, ModemMode::Receiver);
    assert!(v.sequencer_off);
    assert_eq!(v.encode(), 0x93);

    let t = OpMode::new(ModemMode::Standby, true, false, true);
    assert_eq!(OpMode::decode(t.encode()).unwrap(), t);
}

#[test]
fn data_modulation_round_trips() {
    let t = DataModulation::new(ModulationType::Ook2Br, DataMode::Continous);
    assert_eq!(t.encode(), 0x0A | (3 << 5));
    assert_eq!(DataModulation::decode(t.encode()).unwrap(), t);
    // The unused high bit is preserved verbatim.
    let v = DataModulation::decode(0x81).unwrap();
    assert!(v.unused);
    assert_eq!(v.mod_type, ModulationType::Gfsk1);
    assert_eq!(v.encode(), 0x81);
}

#[test]
fn bitrate_round_trips() {
    let t = Bitrate { bitrate: 0xFFFF };
    assert_eq!(Bitrate::decode(t.encode()).unwrap(), t);
    assert_eq!(Bitrate::decode([0xAB, 0xCD]).unwrap().bitrate, 0xABCD);
    assert_eq!(Bitrate::decode([0xAB, 0xCD]).unwrap().encode(), [0xAB, 0xCD]);
}

#[test]
fn fdev_and_freq_dev_round_trip() {
    let t = Fdev { freq_dev: 0x0123 };
    assert_eq!(t.encode(), [0x01, 0x23]);
    assert_eq!(Fdev::decode(t.encode()).unwrap(), t);
    let u = FreqDev { freq_dev: 0x0123 };
    assert_eq!(u.encode(), [0x01, 0x23]);
    assert_eq!(FreqDev::decode(u.encode()).unwrap(), u);
}

#[test]
fn carrier_freq_round_trips() {
    let t = CarrierFreq { freq: 0xFFFFFF };
    assert_eq!(t.encode(), [0xFF, 0xFF, 0xFF]);
    assert_eq!(CarrierFreq::decode(t.encode()).unwrap(), t);
    assert_eq!(CarrierFreq::decode([0x12, 0x34, 0x56]).unwrap().freq, 0x123456);
}

#[test]
fn oscillator_round_trips_with_unused_bits() {
    let v = Oscillator::decode(0xFF).unwrap();
    assert_eq!(v.unused, 0x3F);
    assert!(v.rc_cal_done);
    assert!(v.rc_cal_start);
    assert_eq!(v.encode(), 0xFF);
    let t = Oscillator::new(false, true);
    assert_eq!(t.encode(), 0x80);
    assert_eq!(Oscillator::decode(0x80).unwrap(), t);
}

#[test]
fn afc_control_round_trips_with_unused_bits() {
    let v = AfcControl::decode(0xFF).unwrap();
    assert_eq!(v.unused, 0x1F);
    assert!(v.low_beta_on);
    assert_eq!(v.unused2, 0x03);
    assert_eq!(v.encode(), 0xFF);
    let t = AfcControl::new(true);
    assert_eq!(t.encode(), 0x20);
}

#[test]
fn listen_round_trips() {
    let t = Listen::new(
        ListenEnd::Idle,
        ListenCriteria::RssiAndSync,
        ListenBaseDuration::Dur4_1ms,
        ListenBaseDuration::Dur262ms,
        0xF5,
        0x20,
    );
    // end 2 in bits 1-2, criteria 1 in bit 3, rx 1 in bits 4-5, idle 2 in
    // bits 6-7 of the first byte.
    assert_eq!(t.encode(), [0x04 | 0x08 | 0x10 | 0x80, 0xF5, 0x20]);
    assert_eq!(Listen::decode(t.encode()).unwrap(), t);
    // The unused low bit of the first byte is preserved verbatim.
    let v = Listen::decode([0x01, 0x00, 0x00]).unwrap();
    assert!(v.unused);
    assert_eq!(v.encode(), [0x01, 0x00, 0x00]);
}

#[test]
fn afc_fei_round_trips_with_unused_bits() {
    let v = AfcFei::decode(0xBF).unwrap();
    assert_eq!(v.unused, 0x1F);
    assert!(v.afc_auto_on);
    assert!(!v.afc_clear);
    assert!(v.afc_start);
    assert_eq!(v.encode(), 0xBF);
    let t = AfcFei::new(true, true, false);
    assert_eq!(t.encode(), 0x60);
}

#[test]
fn version_round_trips() {
    let v = Version::decode(0x24).unwrap();
    assert_eq!(v.version, 0x24);
    assert_eq!(v.encode(), 0x24);
}

#[test]
fn pa_level_round_trips() {
    let t = PaLevel { level: 31, pa2_on: false, pa1_on: true, pa0_on: true };
    assert_eq!(t.encode(), 31 | 0x40 | 0x80);
    assert_eq!(PaLevel::decode(t.encode()).unwrap(), t);
}

#[test]
fn pa_ramp_round_trips_with_unused_bits() {
    let v = PaRamp::decode(0xF7).unwrap();
    assert_eq!(v.time, RampTime::Ramp62us);
    assert_eq!(v.unused, 0x0F);
    assert_eq!(v.encode(), 0xF7);
    let t = PaRamp::new(RampTime::Ramp1000us);
    assert_eq!(t.encode(), 0x02);
}

#[test]
fn ocp_round_trips_with_unused_bits() {
    let v = Ocp::decode(0xFF).unwrap();
    assert_eq!(v.trim, 0x0F);
    assert!(v.ocp_on);
    assert_eq!(v.unused, 0x07);
    assert_eq!(v.encode(), 0xFF);
    let t = Ocp::new(0x0A, true);
    assert_eq!(t.encode(), 0x1A);
}

#[test]
fn lna_round_trips_with_unused_bit() {
    let t = Lna::new(LnaGainSelect::G3, LnaZin::Zin200Ohm);
    assert_eq!(t.encode(), 0x03 | 0x80);
    assert_eq!(Lna::decode(t.encode()).unwrap(), t);
    // Current gain and the unused bit come back verbatim.
    let v = Lna::decode(0x6B).unwrap();
    assert_eq!(v.gain_select, LnaGainSelect::G3);
    assert_eq!(v.current_gain, 0x05);
    assert!(v.unused);
    assert_eq!(v.zin, LnaZin::Zin50Ohm);
    assert_eq!(v.encode(), 0x6B);
}

#[test]
fn afc_bw_round_trips() {
    let t = AfcBw { bw: Bandwidth::Bw2600, dcc: DccFreq::Fc0125 };
    assert_eq!(t.encode(), 0x17 | (7 << 5));
    assert_eq!(AfcBw::decode(t.encode()).unwrap(), t);
}

#[test]
fn rx_bw_round_trips_every_bandwidth() {
    let all = [
        Bandwidth::Bw2600,
        Bandwidth::Bw3100,
        Bandwidth::Bw3900,
        Bandwidth::Bw5200,
        Bandwidth::Bw6300,
        Bandwidth::Bw7800,
        Bandwidth::Bw10400,
        Bandwidth::Bw12500,
        Bandwidth::Bw15600,
        Bandwidth::Bw20800,
        Bandwidth::Bw25000,
        Bandwidth::Bw31300,
        Bandwidth::Bw41700,
        Bandwidth::Bw50000,
        Bandwidth::Bw62500,
        Bandwidth::Bw83333,
        Bandwidth::Bw100000,
        Bandwidth::Bw125000,
        Bandwidth::Bw166700,
        Bandwidth::Bw200000,
        Bandwidth::Bw250000,
    ];
    for bw in all {
        let t = RxBw { bw, dcc: DccFreq::Fc16 };
        assert_eq!(RxBw::decode(t.encode()).unwrap(), t);
    }
}

#[test]
fn rssi_registers_round_trip() {
    let v = RssiConfig::decode(0xFF).unwrap();
    assert!(v.start);
    assert!(v.done);
    assert_eq!(v.unused, 0x3F);
    assert_eq!(v.encode(), 0xFF);
    let t = RssiConfig::new(true, false);
    assert_eq!(t.encode(), 0x01);

    assert_eq!(RssiValue::decode(0x7E).unwrap().encode(), 0x7E);
    assert_eq!(RssiThreshold::decode(0xE4).unwrap().encode(), 0xE4);
}

#[test]
fn irq_flags_round_trip() {
    let v = IrqFlags::decode([0xFF, 0xFF]).unwrap();
    assert!(v.sync_address_match);
    assert!(v.mode_ready);
    assert!(v.unused);
    assert!(v.fifo_full);
    assert_eq!(v.encode(), [0xFF, 0xFF]);

    let v = IrqFlags::decode([0xAA, 0x55]).unwrap();
    assert!(!v.sync_address_match);
    assert!(v.auto_mode);
    assert!(!v.timeout);
    assert!(v.rssi);
    assert!(v.unused);
    assert!(!v.crc_ok);
    assert_eq!(v.encode(), [0xAA, 0x55]);
}

#[test]
fn preamble_round_trips() {
    let t = Preamble { size: 0x1234 };
    assert_eq!(t.encode(), [0x12, 0x34]);
    assert_eq!(Preamble::decode(t.encode()).unwrap(), t);
}

#[test]
fn sync_config_round_trips() {
    let t = SyncConfig {
        tolerated_bit_errors: 5,
        size_minus_one: 7,
        fifo_fill_condition: FifoFillCondition::FifoFillConditionBit,
        sync_on: true,
    };
    assert_eq!(t.encode(), 5 | (7 << 3) | 0x40 | 0x80);
    assert_eq!(SyncConfig::decode(t.encode()).unwrap(), t);
}

#[test]
fn sync_value_round_trips_verbatim() {
    let v = SyncValue::decode(0xAB).unwrap();
    assert_eq!(v.encode(), 0xAB);
}

#[test]
fn packet_config1_round_trips() {
    let t = PacketConfig1::new(
        AddressFilter::MatchNodeOrBroadcast,
        CrcAutoClear::Off,
        Crc::On,
        DcFree::Whitening,
        PacketFormat::Variable,
    );
    assert_eq!(t.encode(), (2 << 1) | (1 << 3) | (1 << 4) | (2 << 5) | 0x80);
    assert_eq!(PacketConfig1::decode(t.encode()).unwrap(), t);
    // The unused low bit is preserved verbatim.
    let v = PacketConfig1::decode(0x01).unwrap();
    assert!(v.unused);
    assert_eq!(v.encode(), 0x01);
}

#[test]
fn payload_length_round_trips() {
    assert_eq!(PayloadLength::decode(0x42).unwrap().value, 0x42);
    assert_eq!(PayloadLength::decode(0x42).unwrap().encode(), 0x42);
}

#[test]
fn fifo_threshold_round_trips() {
    let t = FifoThreshold { threshold: 127, start_condition: TxStartCondition::FifoNotEmpty };
    assert_eq!(t.encode(), 0xFF);
    assert_eq!(FifoThreshold::decode(0xFF).unwrap(), t);
    let t = FifoThreshold { threshold: 15, start_condition: TxStartCondition::FifoLevel };
    assert_eq!(t.encode(), 0x0F);
    assert_eq!(FifoThreshold::decode(0x0F).unwrap(), t);
}

#[test]
fn packet_config2_round_trips() {
    let t = PacketConfig2 {
        aes: Aes::On,
        auto_rx_restart: AutoRxRestart::On,
        rx_restart: true,
        inter_packet_rx_delay: 31,
    };
    assert_eq!(t.encode(), 0x01 | 0x02 | 0x04 | (31 << 3));
    assert_eq!(PacketConfig2::decode(t.encode()).unwrap(), t);
}
