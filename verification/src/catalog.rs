//! Address and layout catalog.
//!
//! [`RegisterKind`] names every register of the chip; `address_of` gives each
//! kind its fixed one-byte bus address, and `field_widths` records each
//! kind's bit layout as the ordered list of its field widths.  Widths are
//! listed from the least significant bit of the byte at the register's own
//! address upward, continuing through any following bytes in bus-address
//! order, so they cover every bit position of the register exactly once —
//! `lemma_bit_coverage` proves that the widths of each kind sum to the
//! register's total bit width.
//!
//! Two kinds, `Fdev` and `FreqDev`, are historical names for the same
//! frequency-deviation register and intentionally share the address `0x05`;
//! `lemma_address_uniqueness` proves that every other pair of distinct kinds
//! has distinct addresses.

use vstd::prelude::*;

verus! {

/// Every register kind in the catalog, one per register type.
#[derive(Clone, Copy, PartialEq, Eq, Structural, Debug)]
pub enum RegisterKind {
    Fifo,
    OpMode,
    DataModulation,
    Bitrate,
    Fdev,
    FreqDev,
    CarrierFreq,
    Oscillator,
    AfcControl,
    Listen,
    AfcFei,
    Version,
    PaLevel,
    PaRamp,
    Ocp,
    Lna,
    RxBw,
    AfcBw,
    RssiConfig,
    RssiValue,
    IrqFlags,
    RssiThreshold,
    Preamble,
    SyncConfig,
    SyncValue,
    PacketConfig1,
    PayloadLength,
    FifoThreshold,
    PacketConfig2,
}

/// The fixed one-byte bus address of each register kind.
pub open spec fn address_of(k: RegisterKind) -> u8 {
    match k {
        RegisterKind::Fifo => 0x00,
        RegisterKind::OpMode => 0x01,
        RegisterKind::DataModulation => 0x02,
        RegisterKind::Bitrate => 0x03,
        RegisterKind::Fdev => 0x05,
        RegisterKind::FreqDev => 0x05,
        RegisterKind::CarrierFreq => 0x07,
        RegisterKind::Oscillator => 0x0A,
        RegisterKind::AfcControl => 0x0B,
        RegisterKind::Listen => 0x0D,
        RegisterKind::AfcFei => 0x0E,
        RegisterKind::Version => 0x10,
        RegisterKind::PaLevel => 0x11,
        RegisterKind::PaRamp => 0x12,
        RegisterKind::Ocp => 0x13,
        RegisterKind::Lna => 0x18,
        RegisterKind::RxBw => 0x19,
        RegisterKind::AfcBw => 0x20,
        RegisterKind::RssiConfig => 0x23,
        RegisterKind::RssiValue => 0x24,
        RegisterKind::IrqFlags => 0x27,
        RegisterKind::RssiThreshold => 0x29,
        RegisterKind::Preamble => 0x2C,
        RegisterKind::SyncConfig => 0x2E,
        RegisterKind::SyncValue => 0x2F,
        RegisterKind::PacketConfig1 => 0x37,
        RegisterKind::PayloadLength => 0x38,
        RegisterKind::FifoThreshold => 0x3C,
        RegisterKind::PacketConfig2 => 0x3D,
    }
}

/// Bus-address lookup by register kind.
pub fn lookup_address(k: RegisterKind) -> (a: u8)
    ensures
        a == address_of(k),
{
    match k {
        RegisterKind::Fifo => 0x00,
        RegisterKind::OpMode => 0x01,
        RegisterKind::DataModulation => 0x02,
        RegisterKind::Bitrate => 0x03,
        RegisterKind::Fdev => 0x05,
        RegisterKind::FreqDev => 0x05,
        RegisterKind::CarrierFreq => 0x07,
        RegisterKind::Oscillator => 0x0A,
        RegisterKind::AfcControl => 0x0B,
        RegisterKind::Listen => 0x0D,
        RegisterKind::AfcFei => 0x0E,
        RegisterKind::Version => 0x10,
        RegisterKind::PaLevel => 0x11,
        RegisterKind::PaRamp => 0x12,
        RegisterKind::Ocp => 0x13,
        RegisterKind::Lna => 0x18,
        RegisterKind::RxBw => 0x19,
        RegisterKind::AfcBw => 0x20,
        RegisterKind::RssiConfig => 0x23,
        RegisterKind::RssiValue => 0x24,
        RegisterKind::IrqFlags => 0x27,
        RegisterKind::RssiThreshold => 0x29,
        RegisterKind::Preamble => 0x2C,
        RegisterKind::SyncConfig => 0x2E,
        RegisterKind::SyncValue => 0x2F,
        RegisterKind::PacketConfig1 => 0x37,
        RegisterKind::PayloadLength => 0x38,
        RegisterKind::FifoThreshold => 0x3C,
        RegisterKind::PacketConfig2 => 0x3D,
    }
}

/// The one intentional address alias: `Fdev` and `FreqDev` both name the
/// frequency-deviation register at `0x05`.
pub open spec fn aliased(a: RegisterKind, b: RegisterKind) -> bool {
    (a == RegisterKind::Fdev && b == RegisterKind::FreqDev) || (a == RegisterKind::FreqDev
        && b == RegisterKind::Fdev)
}

/// Address uniqueness: distinct register kinds have distinct bus addresses,
/// except for the documented `Fdev`/`FreqDev` alias pair.
pub proof fn lemma_address_uniqueness(a: RegisterKind, b: RegisterKind)
    requires
        a != b,
        !aliased(a, b),
    ensures
        address_of(a) != address_of(b),
{
}

/// Total bit width of each register kind.  The FIFO port is a data window,
/// not a configuration register, and carries no field layout.
pub open spec fn total_bits(k: RegisterKind) -> nat {
    match k {
        RegisterKind::Fifo => 0,
        RegisterKind::OpMode => 8,
        RegisterKind::DataModulation => 8,
        RegisterKind::Bitrate => 16,
        RegisterKind::Fdev => 16,
        RegisterKind::FreqDev => 16,
        RegisterKind::CarrierFreq => 24,
        RegisterKind::Oscillator => 8,
        RegisterKind::AfcControl => 8,
        RegisterKind::Listen => 24,
        RegisterKind::AfcFei => 8,
        RegisterKind::Version => 8,
        RegisterKind::PaLevel => 8,
        RegisterKind::PaRamp => 8,
        RegisterKind::Ocp => 8,
        RegisterKind::Lna => 8,
        RegisterKind::RxBw => 8,
        RegisterKind::AfcBw => 8,
        RegisterKind::RssiConfig => 8,
        RegisterKind::RssiValue => 8,
        RegisterKind::IrqFlags => 16,
        RegisterKind::RssiThreshold => 8,
        RegisterKind::Preamble => 16,
        RegisterKind::SyncConfig => 8,
        RegisterKind::SyncValue => 8,
        RegisterKind::PacketConfig1 => 8,
        RegisterKind::PayloadLength => 8,
        RegisterKind::FifoThreshold => 8,
        RegisterKind::PacketConfig2 => 8,
    }
}

/// Ordered field widths of each register kind, reserved filler included,
/// from the least significant bit of the first byte upward.
pub open spec fn field_widths(k: RegisterKind) -> Seq<nat> {
    match k {
        RegisterKind::Fifo => seq![],
        RegisterKind::OpMode => seq![2, 3, 1, 1, 1],
        RegisterKind::DataModulation => seq![5, 2, 1],
        RegisterKind::Bitrate => seq![16],
        RegisterKind::Fdev => seq![16],
        RegisterKind::FreqDev => seq![16],
        RegisterKind::CarrierFreq => seq![24],
        RegisterKind::Oscillator => seq![6, 1, 1],
        RegisterKind::AfcControl => seq![5, 1, 2],
        RegisterKind::Listen => seq![1, 2, 1, 2, 2, 8, 8],
        RegisterKind::AfcFei => seq![5, 1, 1, 1],
        RegisterKind::Version => seq![8],
        RegisterKind::PaLevel => seq![5, 1, 1, 1],
        RegisterKind::PaRamp => seq![4, 4],
        RegisterKind::Ocp => seq![4, 1, 3],
        RegisterKind::Lna => seq![3, 3, 1, 1],
        RegisterKind::RxBw => seq![5, 3],
        RegisterKind::AfcBw => seq![5, 3],
        RegisterKind::RssiConfig => seq![1, 1, 6],
        RegisterKind::RssiValue => seq![8],
        RegisterKind::IrqFlags => seq![1, 1, 1, 1, 1, 1, 1, 1, 1, 1, 1, 1, 1, 1, 1, 1],
        RegisterKind::RssiThreshold => seq![8],
        RegisterKind::Preamble => seq![16],
        RegisterKind::SyncConfig => seq![3, 3, 1, 1],
        RegisterKind::SyncValue => seq![8],
        RegisterKind::PacketConfig1 => seq![1, 2, 1, 1, 2, 1],
        RegisterKind::PayloadLength => seq![8],
        RegisterKind::FifoThreshold => seq![7, 1],
        RegisterKind::PacketConfig2 => seq![1, 1, 1, 5],
    }
}

/// Sum of a list of field widths.
pub open spec fn width_sum(s: Seq<nat>) -> nat
    decreases s.len(),
{
    if s.len() == 0 {
        0
    } else {
        width_sum(s.drop_last()) + s.last()
    }
}

/// Bit coverage: for every register kind, the declared field widths sum to
/// the register's total bit width — the layout has no overlap and no gap.
pub proof fn lemma_bit_coverage(k: RegisterKind)
    ensures
        width_sum(field_widths(k)) == total_bits(k),
{
    reveal_with_fuel(width_sum, 17);
    assert(width_sum(seq![2nat, 3, 1, 1, 1]) == 8);
    assert(width_sum(seq![5nat, 2, 1]) == 8);
    assert(width_sum(seq![16nat]) == 16);
    assert(width_sum(seq![24nat]) == 24);
    assert(width_sum(seq![6nat, 1, 1]) == 8);
    assert(width_sum(seq![5nat, 1, 2]) == 8);
    assert(width_sum(seq![1nat, 2, 1, 2, 2, 8, 8]) == 24);
    assert(width_sum(seq![5nat, 1, 1, 1]) == 8);
    assert(width_sum(seq![8nat]) == 8);
    assert(width_sum(seq![4nat, 4]) == 8);
    assert(width_sum(seq![4nat, 1, 3]) == 8);
    assert(width_sum(seq![3nat, 3, 1, 1]) == 8);
    assert(width_sum(seq![5nat, 3]) == 8);
    assert(width_sum(seq![1nat, 1, 6]) == 8);
    assert(width_sum(seq![1nat, 1, 1, 1, 1, 1, 1, 1, 1, 1, 1, 1, 1, 1, 1, 1]) == 16);
    assert(width_sum(seq![1nat, 2, 1, 1, 2, 1]) == 8);
    assert(width_sum(seq![7nat, 1]) == 8);
    assert(width_sum(seq![1nat, 1, 1, 5]) == 8);
}

} // verus!
