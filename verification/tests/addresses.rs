//! Bus-address checks: each register type reports its chip-defined
//! address, the catalog lookup agrees, and all addresses are distinct apart
//! from the documented frequency-deviation alias.

use sx1231_regs::Reg;
use sx1231_regs::catalog::RegisterKind;
use sx1231_regs::catalog::lookup_address;
use sx1231_regs::frontend::AfcBw;
use sx1231_regs::frontend::Lna;
use sx1231_regs::frontend::Ocp;
use sx1231_regs::frontend::PaLevel;
use sx1231_regs::frontend::PaRamp;
use sx1231_regs::frontend::RssiConfig;
use sx1231_regs::frontend::RssiThreshold;
use sx1231_regs::frontend::RssiValue;
use sx1231_regs::frontend::RxBw;
use sx1231_regs::modem::AfcControl;
use sx1231_regs::modem::AfcFei;
use sx1231_regs::modem::Bitrate;
use sx1231_regs::modem::CarrierFreq;
use sx1231_regs::modem::DataModulation;
use sx1231_regs::modem::Fdev;
use sx1231_regs::modem::FreqDev;
use sx1231_regs::modem::Listen;
use sx1231_regs::modem::OpMode;
use sx1231_regs::modem::Oscillator;
use sx1231_regs::modem::Version;
use sx1231_regs::packet::Fifo;
use sx1231_regs::packet::FifoThreshold;
use sx1231_regs::packet::IrqFlags;
use sx1231_regs::packet::PacketConfig1;
use sx1231_regs::packet::PacketConfig2;
use sx1231_regs::packet::PayloadLength;
use sx1231_regs::packet::Preamble;
use sx1231_regs::packet::SyncConfig;
use sx1231_regs::packet::SyncValue;

fn all_kinds() -> Vec<RegisterKind> {
    vec![
        RegisterKind::Fifo,
        RegisterKind::OpMode,
        RegisterKind::DataModulation,
        RegisterKind::Bitrate,
        RegisterKind::Fdev,
        RegisterKind::FreqDev,
        RegisterKind::CarrierFreq,
        RegisterKind::Oscillator,
        RegisterKind::AfcControl,
        RegisterKind::Listen,
        RegisterKind::AfcFei,
        RegisterKind::Version,
        RegisterKind::PaLevel,
        RegisterKind::PaRamp,
        RegisterKind::Ocp,
        RegisterKind::Lna,
        RegisterKind::RxBw,
        RegisterKind::AfcBw,
        RegisterKind::RssiConfig,
        RegisterKind::RssiValue,
        RegisterKind::IrqFlags,
        RegisterKind::RssiThreshold,
        RegisterKind::Preamble,
        RegisterKind::SyncConfig,
        RegisterKind::SyncValue,
        RegisterKind::PacketConfig1,
        RegisterKind::PayloadLength,
        RegisterKind::FifoThreshold,
        RegisterKind::PacketConfig2,
    ]
}

#[test]
fn register_types_report_chip_addresses() {
    assert_eq!(Fifo::address(), 0x00);
    assert_eq!(OpMode::address(), 0x01);
    assert_eq!(DataModulation::address(), 0x02);
    assert_eq!(Bitrate::address(), 0x03);
    assert_eq!(Fdev::address(), 0x05);
    assert_eq!(FreqDev::address(), 0x05);
    assert_eq!(CarrierFreq::address(), 0x07);
    assert_eq!(Oscillator::address(), 0x0A);
    assert_eq!(AfcControl::address(), 0x0B);
    assert_eq!(Listen::address(), 0x0D);
    assert_eq!(AfcFei::address(), 0x0E);
    assert_eq!(Version::address(), 0x10);
    assert_eq!(PaLevel::address(), 0x11);
    assert_eq!(PaRamp::address(), 0x12);
    assert_eq!(Ocp::address(), 0x13);
    assert_eq!(Lna::address(), 0x18);
    assert_eq!(RxBw::address(), 0x19);
    assert_eq!(AfcBw::address(), 0x20);
    assert_eq!(RssiConfig::address(), 0x23);
    assert_eq!(RssiValue::address(), 0x24);
    assert_eq!(IrqFlags::address(), 0x27);
    assert_eq!(RssiThreshold::address(), 0x29);
    assert_eq!(Preamble::address(), 0x2C);
    assert_eq!(SyncConfig::address(), 0x2E);
    assert_eq!(SyncValue::address(), 0x2F);
    assert_eq!(PacketConfig1::address(), 0x37);
    assert_eq!(PayloadLength::address(), 0x38);
    assert_eq!(FifoThreshold::address(), 0x3C);
    assert_eq!(PacketConfig2::address(), 0x3D);
}

#[test]
fn catalog_lookup_matches_register_types() {
    assert_eq!(lookup_address(RegisterKind::Fifo), Fifo::address());
    assert_eq!(lookup_address(RegisterKind::OpMode), OpMode::address());
    assert_eq!(lookup_address(RegisterKind::Bitrate), Bitrate::address());
    assert_eq!(lookup_address(RegisterKind::Fdev), Fdev::address());
    assert_eq!(lookup_address(RegisterKind::FreqDev), FreqDev::address());
    assert_eq!(lookup_address(RegisterKind::IrqFlags), IrqFlags::address());
    assert_eq!(lookup_address(RegisterKind::PacketConfig2), PacketConfig2::address());
}

#[test]
fn addresses_are_unique_apart_from_the_alias() {
    let kinds = all_kinds();
    for (i, a) in kinds.iter().enumerate() {
        for (j, b) in kinds.iter().enumerate() {
            if i == j {
                continue;
            }
            let alias = matches!(
                (a, b),
                (RegisterKind::Fdev, RegisterKind::FreqDev)
                    | (RegisterKind::FreqDev, RegisterKind::Fdev)
            );
            if alias {
                assert_eq!(lookup_address(*a), lookup_address(*b));
            } else {
                assert_ne!(lookup_address(*a), lookup_address(*b));
            }
        }
    }
}
