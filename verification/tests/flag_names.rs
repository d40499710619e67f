//! The human-readable interrupt-flag listing: names of set flags only, in
//! declared bit order, each followed by one space.

use sx1231_regs::packet::IrqFlags;

#[test]
fn no_flags_renders_empty() {
    let v = IrqFlags::decode([0x00, 0x00]).unwrap();
    assert_eq!(v.flag_names(), "");
}

#[test]
fn unused_filler_is_never_named() {
    // Only the unused bit of the second byte is set.
    let v = IrqFlags::decode([0x00, 0x01]).unwrap();
    assert!(v.unused);
    assert_eq!(v.flag_names(), "");
}

#[test]
fn all_flags_render_in_declared_order() {
    let v = IrqFlags::decode([0xFF, 0xFF]).unwrap();
    assert_eq!(
        v.flag_names(),
        "SyncAddressMatch AutoMode Timeout Rssi PllLock TxReady RxReady ModeReady \
         CrcOk PayloadReady PacketSent FifoOverrun FifoLevel FifoNotEmpty FifoFull "
    );
}

#[test]
fn first_byte_flags_render() {
    // Timeout (bit 2) and mode-ready (bit 7) of the first byte.
    let v = IrqFlags::decode([0x84, 0x00]).unwrap();
    assert_eq!(v.flag_names(), "Timeout ModeReady ");
}
