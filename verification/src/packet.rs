//! FIFO, interrupt, preamble, synchronization and packet-engine registers.

use vstd::prelude::*;

use crate::DecodeError;
use crate::Reg;
use crate::bit;
use crate::catalog::RegisterKind;
use crate::catalog::address_of;
use crate::fields::AddressFilter;
use crate::fields::Aes;
use crate::fields::AutoRxRestart;
use crate::fields::Crc;
use crate::fields::CrcAutoClear;
use crate::fields::DcFree;
use crate::fields::FifoFillCondition;
use crate::fields::PacketFormat;
use crate::fields::TxStartCondition;

verus! {

/// The FIFO data port.  Bytes written to or read from this address stream
/// through the chip's packet FIFO; the port itself has no field layout, so
/// it carries an address only.
#[derive(Clone, Copy, PartialEq, Eq, Structural, Debug)]
pub struct Fifo {}

impl Reg for Fifo {
    open spec fn spec_address() -> u8 {
        address_of(RegisterKind::Fifo)
    }

    fn address() -> u8 {
        0x00
    }
}

/// Interrupt-flags register pair: every interrupt and status flag of the
/// chip, one bit each.
///
/// Two bytes in bus-address order.  The first byte holds, from bit 0
/// upward: sync-address-match, auto-mode, timeout, RSSI, PLL-lock,
/// TX-ready, RX-ready and mode-ready.  The second holds, from bit 0
/// upward: unused filler, CRC-ok, payload-ready, packet-sent,
/// FIFO-overrun, FIFO-level, FIFO-not-empty and FIFO-full.
#[derive(Clone, Copy, PartialEq, Eq, Structural)]
pub struct IrqFlags {
    pub sync_address_match: bool,
    pub auto_mode: bool,
    pub timeout: bool,
    pub rssi: bool,
    pub pll_lock: bool,
    pub tx_ready: bool,
    pub rx_ready: bool,
    pub mode_ready: bool,
    /// Hardware-unused bit, preserved verbatim across decode/encode.
    pub unused: bool,
    pub crc_ok: bool,
    pub payload_ready: bool,
    pub packet_sent: bool,
    pub fifo_overrun: bool,
    pub fifo_level: bool,
    pub fifo_not_empty: bool,
    pub fifo_full: bool,
}

/// Pack eight flag bits into one byte, least significant first.
pub open spec fn spec_pack_flags(
    b0: bool,
    b1: bool,
    b2: bool,
    b3: bool,
    b4: bool,
    b5: bool,
    b6: bool,
    b7: bool,
) -> u8 {
    (bit(b0) + bit(b1) * 2 + bit(b2) * 4 + bit(b3) * 8 + bit(b4) * 16 + bit(b5) * 32 + bit(b6) * 64
        + bit(b7) * 128) as u8
}

/// Exec twin of [`spec_pack_flags`].
fn pack_flags(b0: bool, b1: bool, b2: bool, b3: bool, b4: bool, b5: bool, b6: bool, b7: bool) -> (s:
    u8)
    ensures
        s == spec_pack_flags(b0, b1, b2, b3, b4, b5, b6, b7),
{
    let mut s: u8 = 0;
    if b0 {
        s = s + 1;
    }
    if b1 {
        s = s + 2;
    }
    if b2 {
        s = s + 4;
    }
    if b3 {
        s = s + 8;
    }
    if b4 {
        s = s + 16;
    }
    if b5 {
        s = s + 32;
    }
    if b6 {
        s = s + 64;
    }
    if b7 {
        s = s + 128;
    }
    s
}

/// Each flag bit is recovered from the packed byte by the matching
/// divide-and-reduce extraction.
proof fn lemma_pack_flags_bits(
    b0: bool,
    b1: bool,
    b2: bool,
    b3: bool,
    b4: bool,
    b5: bool,
    b6: bool,
    b7: bool,
)
    ensures
        ({
            let s = spec_pack_flags(b0, b1, b2, b3, b4, b5, b6, b7) as int;
            s % 2 == bit(b0) && (s / 2) % 2 == bit(b1) && (s / 4) % 2 == bit(b2) && (s / 8) % 2
                == bit(b3) && (s / 16) % 2 == bit(b4) && (s / 32) % 2 == bit(b5) && (s / 64) % 2
                == bit(b6) && (s / 128) % 2 == bit(b7)
        }),
{
}

/// Packing the eight extracted bits of a byte yields the byte again: the
/// flag bits cover the byte with no overlap and no gap.
proof fn lemma_pack_flags_exhaustive(s: u8)
    ensures
        spec_pack_flags(
            (s as int) % 2 == 1,
            ((s as int) / 2) % 2 == 1,
            ((s as int) / 4) % 2 == 1,
            ((s as int) / 8) % 2 == 1,
            ((s as int) / 16) % 2 == 1,
            ((s as int) / 32) % 2 == 1,
            ((s as int) / 64) % 2 == 1,
            ((s as int) / 128) % 2 == 1,
        ) == s,
{
    let si = s as int;
    vstd::arithmetic::div_mod::lemma_div_denominator(si, 2, 2);
    vstd::arithmetic::div_mod::lemma_div_denominator(si, 4, 2);
    vstd::arithmetic::div_mod::lemma_div_denominator(si, 8, 2);
    vstd::arithmetic::div_mod::lemma_div_denominator(si, 16, 2);
    vstd::arithmetic::div_mod::lemma_div_denominator(si, 32, 2);
    vstd::arithmetic::div_mod::lemma_div_denominator(si, 64, 2);
    vstd::arithmetic::div_mod::lemma_div_denominator(si, 128, 2);
    assert(si / 256 == 0);
}

/// The flag-name rendering step: append `name` exactly when the flag is
/// set.
pub open spec fn append_flag(s: Seq<char>, set: bool, name: Seq<char>) -> Seq<char> {
    if set {
        s + name
    } else {
        s
    }
}

impl IrqFlags {
    /// Every field value fits its declared bit width.
    pub open spec fn wf(self) -> bool {
        true
    }

    /// Canonical two-byte form.
    pub open spec fn spec_encode(self) -> Seq<u8> {
        seq![
            spec_pack_flags(
                self.sync_address_match,
                self.auto_mode,
                self.timeout,
                self.rssi,
                self.pll_lock,
                self.tx_ready,
                self.rx_ready,
                self.mode_ready,
            ),
            spec_pack_flags(
                self.unused,
                self.crc_ok,
                self.payload_ready,
                self.packet_sent,
                self.fifo_overrun,
                self.fifo_level,
                self.fifo_not_empty,
                self.fifo_full,
            ),
        ]
    }

    /// Field extraction from the canonical bytes; total.
    pub open spec fn spec_decode(b: Seq<u8>) -> Option<IrqFlags>
        recommends
            b.len() == 2,
    {
        Some(
            IrqFlags {
                sync_address_match: (b[0] as int) % 2 == 1,
                auto_mode: ((b[0] as int) / 2) % 2 == 1,
                timeout: ((b[0] as int) / 4) % 2 == 1,
                rssi: ((b[0] as int) / 8) % 2 == 1,
                pll_lock: ((b[0] as int) / 16) % 2 == 1,
                tx_ready: ((b[0] as int) / 32) % 2 == 1,
                rx_ready: ((b[0] as int) / 64) % 2 == 1,
                mode_ready: ((b[0] as int) / 128) % 2 == 1,
                unused: (b[1] as int) % 2 == 1,
                crc_ok: ((b[1] as int) / 2) % 2 == 1,
                payload_ready: ((b[1] as int) / 4) % 2 == 1,
                packet_sent: ((b[1] as int) / 8) % 2 == 1,
                fifo_overrun: ((b[1] as int) / 16) % 2 == 1,
                fifo_level: ((b[1] as int) / 32) % 2 == 1,
                fifo_not_empty: ((b[1] as int) / 64) % 2 == 1,
                fifo_full: ((b[1] as int) / 128) % 2 == 1,
            },
        )
    }

    /// The human-readable flag listing: the name of every set flag followed
    /// by one space, in declared bit order, unused filler skipped.
    pub open spec fn spec_flag_names(self) -> Seq<char> {
        let s = append_flag(Seq::empty(), self.sync_address_match, "SyncAddressMatch "@);
        let s = append_flag(s, self.auto_mode, "AutoMode "@);
        let s = append_flag(s, self.timeout, "Timeout "@);
        let s = append_flag(s, self.rssi, "Rssi "@);
        let s = append_flag(s, self.pll_lock, "PllLock "@);
        let s = append_flag(s, self.tx_ready, "TxReady "@);
        let s = append_flag(s, self.rx_ready, "RxReady "@);
        let s = append_flag(s, self.mode_ready, "ModeReady "@);
        let s = append_flag(s, self.crc_ok, "CrcOk "@);
        let s = append_flag(s, self.payload_ready, "PayloadReady "@);
        let s = append_flag(s, self.packet_sent, "PacketSent "@);
        let s = append_flag(s, self.fifo_overrun, "FifoOverrun "@);
        let s = append_flag(s, self.fifo_level, "FifoLevel "@);
        let s = append_flag(s, self.fifo_not_empty, "FifoNotEmpty "@);
        let s = append_flag(s, self.fifo_full, "FifoFull "@);
        s
    }

    /// Pack the flags into the register pair's two-byte bus form.
    pub fn encode(&self) -> (r: [u8; 2])
        requires
            self.wf(),
        ensures
            r@ == self.spec_encode(),
            r@.len() == 2,
    {
        let a: u8 = pack_flags(
            self.sync_address_match,
            self.auto_mode,
            self.timeout,
            self.rssi,
            self.pll_lock,
            self.tx_ready,
            self.rx_ready,
            self.mode_ready,
        );
        let b: u8 = pack_flags(
            self.unused,
            self.crc_ok,
            self.payload_ready,
            self.packet_sent,
            self.fifo_overrun,
            self.fifo_level,
            self.fifo_not_empty,
            self.fifo_full,
        );
        [a, b]
    }

    /// Decoded bytes re-encode to the same bytes: every bit position is
    /// covered by exactly one flag.
    #[verifier::rlimit(60)]
    proof fn lemma_decode_encode(b: Seq<u8>)
        requires
            b.len() == 2,
        ensures
            Self::spec_decode(b) matches Some(v) ==> v.spec_encode() == b,
    {
        let v = Self::spec_decode(b)->Some_0;
        assert(v.spec_encode()[0] == b[0]) by {
            lemma_pack_flags_exhaustive(b[0]);
        }
        assert(v.spec_encode()[1] == b[1]) by {
            lemma_pack_flags_exhaustive(b[1]);
        }
        assert(v.spec_encode() =~= b);
    }

    /// Unpack the register pair's bus bytes; never fails.
    #[verifier::rlimit(60)]
    pub fn decode(b: [u8; 2]) -> (r: Result<IrqFlags, DecodeError>)
        ensures
            r matches Ok(v) && Self::spec_decode(b@) == Some(v) && v.wf() && v.spec_encode() == b@,
    {
        proof {
            Self::lemma_decode_encode(b@);
        }
        let v = IrqFlags {
            sync_address_match: b[0] % 2 == 1,
            auto_mode: (b[0] / 2) % 2 == 1,
            timeout: (b[0] / 4) % 2 == 1,
            rssi: (b[0] / 8) % 2 == 1,
            pll_lock: (b[0] / 16) % 2 == 1,
            tx_ready: (b[0] / 32) % 2 == 1,
            rx_ready: (b[0] / 64) % 2 == 1,
            mode_ready: (b[0] / 128) % 2 == 1,
            unused: b[1] % 2 == 1,
            crc_ok: (b[1] / 2) % 2 == 1,
            payload_ready: (b[1] / 4) % 2 == 1,
            packet_sent: (b[1] / 8) % 2 == 1,
            fifo_overrun: (b[1] / 16) % 2 == 1,
            fifo_level: (b[1] / 32) % 2 == 1,
            fifo_not_empty: (b[1] / 64) % 2 == 1,
            fifo_full: (b[1] / 128) % 2 == 1,
        };
        Ok(v)
    }

    /// Render the names of all set flags, space-terminated, in declared bit
    /// order — a diagnostic convenience, not part of the codec contract.
    pub fn flag_names(&self) -> (r: String)
        ensures
            r@ == self.spec_flag_names(),
    {
        let mut r = String::new();
        if self.sync_address_match {
            r.append("SyncAddressMatch ");
        }
        if self.auto_mode {
            r.append("AutoMode ");
        }
        if self.timeout {
            r.append("Timeout ");
        }
        if self.rssi {
            r.append("Rssi ");
        }
        if self.pll_lock {
            r.append("PllLock ");
        }
        if self.tx_ready {
            r.append("TxReady ");
        }
        if self.rx_ready {
            r.append("RxReady ");
        }
        if self.mode_ready {
            r.append("ModeReady ");
        }
        if self.crc_ok {
            r.append("CrcOk ");
        }
        if self.payload_ready {
            r.append("PayloadReady ");
        }
        if self.packet_sent {
            r.append("PacketSent ");
        }
        if self.fifo_overrun {
            r.append("FifoOverrun ");
        }
        if self.fifo_level {
            r.append("FifoLevel ");
        }
        if self.fifo_not_empty {
            r.append("FifoNotEmpty ");
        }
        if self.fifo_full {
            r.append("FifoFull ");
        }
        r
    }

    /// Round trip: decoding the encoding of any value yields the value
    /// back, unused filler included.
    #[verifier::rlimit(60)]
    pub proof fn lemma_round_trip(v: IrqFlags)
        requires
            v.wf(),
        ensures
            Self::spec_decode(v.spec_encode()) == Some(v),
    {
        assert(v.spec_encode()[0] == spec_pack_flags(
            v.sync_address_match,
            v.auto_mode,
            v.timeout,
            v.rssi,
            v.pll_lock,
            v.tx_ready,
            v.rx_ready,
            v.mode_ready,
        ));
        assert(v.spec_encode()[1] == spec_pack_flags(
            v.unused,
            v.crc_ok,
            v.payload_ready,
            v.packet_sent,
            v.fifo_overrun,
            v.fifo_level,
            v.fifo_not_empty,
            v.fifo_full,
        ));
        lemma_pack_flags_bits(
            v.sync_address_match,
            v.auto_mode,
            v.timeout,
            v.rssi,
            v.pll_lock,
            v.tx_ready,
            v.rx_ready,
            v.mode_ready,
        );
        lemma_pack_flags_bits(
            v.unused,
            v.crc_ok,
            v.payload_ready,
            v.packet_sent,
            v.fifo_overrun,
            v.fifo_level,
            v.fifo_not_empty,
            v.fifo_full,
        );
    }
}

impl Default for IrqFlags {
    /// The all-zero register: every field at its zero bit pattern.
    fn default() -> (r: IrqFlags)
        ensures
            r == (IrqFlags {
            sync_address_match: false,
            auto_mode: false,
            timeout: false,
            rssi: false,
            pll_lock: false,
            tx_ready: false,
            rx_ready: false,
            mode_ready: false,
            unused: false,
            crc_ok: false,
            payload_ready: false,
            packet_sent: false,
            fifo_overrun: false,
            fifo_level: false,
            fifo_not_empty: false,
            fifo_full: false,
            }),
            r.wf(),
    {
        IrqFlags {
            sync_address_match: false,
            auto_mode: false,
            timeout: false,
            rssi: false,
            pll_lock: false,
            tx_ready: false,
            rx_ready: false,
            mode_ready: false,
            unused: false,
            crc_ok: false,
            payload_ready: false,
            packet_sent: false,
            fifo_overrun: false,
            fifo_level: false,
            fifo_not_empty: false,
            fifo_full: false,
        }
    }
}

impl Reg for IrqFlags {
    open spec fn spec_address() -> u8 {
        address_of(RegisterKind::IrqFlags)
    }

    fn address() -> u8 {
        0x27
    }
}

/// Preamble-size register: the 16-bit number of preamble bytes to send.
///
/// Two bytes, most significant first.
#[derive(Clone, Copy, PartialEq, Eq, Structural, Debug)]
pub struct Preamble {
    pub size: u16,
}

impl Preamble {
    /// Every field value fits its declared bit width.
    pub open spec fn wf(self) -> bool {
        true
    }

    /// Canonical two-byte big-endian form.
    pub open spec fn spec_encode(self) -> Seq<u8> {
        seq![((self.size as int) / 256) as u8, ((self.size as int) % 256) as u8]
    }

    /// Field extraction from the canonical bytes; total.
    pub open spec fn spec_decode(b: Seq<u8>) -> Option<Preamble>
        recommends
            b.len() == 2,
    {
        Some(Preamble { size: (b[0] as int * 256 + b[1] as int) as u16 })
    }

    /// Pack the field into the register's two-byte bus form.
    pub fn encode(&self) -> (r: [u8; 2])
        ensures
            r@ == self.spec_encode(),
            r@.len() == 2,
    {
        [(self.size / 256) as u8, (self.size % 256) as u8]
    }

    /// Unpack the register's bus bytes; never fails.
    pub fn decode(b: [u8; 2]) -> (r: Result<Preamble, DecodeError>)
        ensures
            r matches Ok(v) && Self::spec_decode(b@) == Some(v) && v.wf() && v.spec_encode() == b@,
    {
        Ok(Preamble { size: (b[0] as u16) * 256 + (b[1] as u16) })
    }

    /// Round trip: decoding the encoding of any value yields the value back.
    pub proof fn lemma_round_trip(v: Preamble)
        requires
            v.wf(),
        ensures
            Self::spec_decode(v.spec_encode()) == Some(v),
    {
    }
}

impl Default for Preamble {
    /// The all-zero register: every field at its zero bit pattern.
    fn default() -> (r: Preamble)
        ensures
            r == (Preamble {
            size: 0,
            }),
            r.wf(),
    {
        Preamble {
            size: 0,
        }
    }
}

impl Reg for Preamble {
    open spec fn spec_address() -> u8 {
        address_of(RegisterKind::Preamble)
    }

    fn address() -> u8 {
        0x2C
    }
}

/// Synchronization-word configuration register.
///
/// One byte: the tolerated bit errors in bits 0-2, the sync-word size minus
/// one in bits 3-5, the FIFO fill condition in bit 6 and sync-on in bit 7.
#[derive(Clone, Copy, PartialEq, Eq, Structural, Debug)]
pub struct SyncConfig {
    pub tolerated_bit_errors: u8,
    pub size_minus_one: u8,
    pub fifo_fill_condition: FifoFillCondition,
    pub sync_on: bool,
}

impl SyncConfig {
    /// Every field value fits its declared bit width: both counts are 3
    /// bits.
    pub open spec fn wf(self) -> bool {
        self.tolerated_bit_errors < 8 && self.size_minus_one < 8
    }

    /// Canonical single-byte form.
    pub open spec fn spec_encode(self) -> u8 {
        (self.tolerated_bit_errors as int + self.size_minus_one as int * 8
            + self.fifo_fill_condition.spec_bits() as int * 64 + bit(self.sync_on) * 128) as u8
    }

    /// Field extraction from the canonical byte; total.
    pub open spec fn spec_decode(b: u8) -> Option<SyncConfig> {
        match FifoFillCondition::spec_from_bits((((b as int) / 64) % 2) as u8) {
            Some(f) => Some(
                SyncConfig {
                    tolerated_bit_errors: ((b as int) % 8) as u8,
                    size_minus_one: (((b as int) / 8) % 8) as u8,
                    fifo_fill_condition: f,
                    sync_on: ((b as int) / 128) % 2 == 1,
                },
            ),
            None => None,
        }
    }

    /// Pack the fields into the register's one-byte bus form.
    pub fn encode(&self) -> (b: u8)
        requires
            self.wf(),
        ensures
            b == self.spec_encode(),
    {
        let f: u8 = self.fifo_fill_condition.bits();
        let mut b: u8 = self.tolerated_bit_errors + self.size_minus_one * 8 + f * 64;
        if self.sync_on {
            b = b + 128;
        }
        b
    }

    /// Unpack the register's bus byte; never fails, since every one-bit
    /// fill-condition pattern is declared.
    pub fn decode(b: u8) -> (r: Result<SyncConfig, DecodeError>)
        ensures
            (r is Ok) == (Self::spec_decode(b) is Some),
            r matches Ok(v) ==> Self::spec_decode(b) == Some(v) && v.wf(),
            r matches Ok(v) ==> v.spec_encode() == b,
            r matches Err(e) ==> e == DecodeError::ReservedDiscriminant,
    {
        match FifoFillCondition::from_bits((b / 64) % 2) {
            Some(f) => Ok(
                SyncConfig {
                    tolerated_bit_errors: b % 8,
                    size_minus_one: (b / 8) % 8,
                    fifo_fill_condition: f,
                    sync_on: (b / 128) % 2 == 1,
                },
            ),
            None => Err(DecodeError::ReservedDiscriminant),
        }
    }

    /// Round trip: decoding the encoding of any well-formed value yields the
    /// value back.
    pub proof fn lemma_round_trip(v: SyncConfig)
        requires
            v.wf(),
        ensures
            Self::spec_decode(v.spec_encode()) == Some(v),
    {
    }
}

impl Default for SyncConfig {
    /// The all-zero register: every field at its zero bit pattern.
    fn default() -> (r: SyncConfig)
        ensures
            r == (SyncConfig {
            tolerated_bit_errors: 0,
            size_minus_one: 0,
            fifo_fill_condition: FifoFillCondition::SyncAddressInterrupt,
            sync_on: false,
            }),
            r.wf(),
            r.spec_encode() == 0,
    {
        SyncConfig {
            tolerated_bit_errors: 0,
            size_minus_one: 0,
            fifo_fill_condition: FifoFillCondition::SyncAddressInterrupt,
            sync_on: false,
        }
    }
}

impl Reg for SyncConfig {
    open spec fn spec_address() -> u8 {
        address_of(RegisterKind::SyncConfig)
    }

    fn address() -> u8 {
        0x2E
    }
}

/// First synchronization-word byte register.
///
/// The whole byte is hardware-defined sync-word storage with no named
/// sub-fields; it is carried verbatim, so a read-modify-write cycle leaves
/// it untouched.
#[derive(Clone, Copy, PartialEq, Eq, Structural, Debug)]
pub struct SyncValue {
    /// The stored sync-word byte, preserved verbatim across decode/encode.
    pub unused: u8,
}

impl SyncValue {
    /// Every field value fits its declared bit width.
    pub open spec fn wf(self) -> bool {
        true
    }

    /// Canonical single-byte form.
    pub open spec fn spec_encode(self) -> u8 {
        self.unused
    }

    /// Field extraction from the canonical byte; total.
    pub open spec fn spec_decode(b: u8) -> Option<SyncValue> {
        Some(SyncValue { unused: b })
    }

    /// Pack the field into the register's one-byte bus form.
    pub fn encode(&self) -> (b: u8)
        requires
            self.wf(),
        ensures
            b == self.spec_encode(),
    {
        self.unused
    }

    /// Unpack the register's bus byte; never fails.
    pub fn decode(b: u8) -> (r: Result<SyncValue, DecodeError>)
        ensures
            r matches Ok(v) && Self::spec_decode(b) == Some(v) && v.wf() && v.spec_encode() == b,
    {
        Ok(SyncValue { unused: b })
    }

    /// Round trip: decoding the encoding of any value yields the value back.
    pub proof fn lemma_round_trip(v: SyncValue)
        requires
            v.wf(),
        ensures
            Self::spec_decode(v.spec_encode()) == Some(v),
    {
    }
}

impl Default for SyncValue {
    /// The all-zero register: every field at its zero bit pattern.
    fn default() -> (r: SyncValue)
        ensures
            r == (SyncValue {
            unused: 0,
            }),
            r.wf(),
            r.spec_encode() == 0,
    {
        SyncValue {
            unused: 0,
        }
    }
}

impl Reg for SyncValue {
    open spec fn spec_address() -> u8 {
        address_of(RegisterKind::SyncValue)
    }

    fn address() -> u8 {
        0x2F
    }
}

/// First packet-configuration register: format, encoding, CRC and address
/// filtering.
///
/// One byte: unused filler in bit 0, the address filter in bits 1-2,
/// CRC-auto-clear in bit 3, CRC-on in bit 4, the DC-free encoding in bits
/// 5-6 and the packet format in bit 7.
#[derive(Clone, Copy, PartialEq, Eq, Structural, Debug)]
pub struct PacketConfig1 {
    /// Hardware-unused low bit, preserved verbatim across decode/encode.
    pub unused: bool,
    pub address_filter: AddressFilter,
    pub crc_auto_clear: CrcAutoClear,
    pub crc: Crc,
    pub dc_free: DcFree,
    pub packet_format: PacketFormat,
}

impl PacketConfig1 {
    /// Every field value fits its declared bit width.
    pub open spec fn wf(self) -> bool {
        true
    }

    /// Canonical single-byte form.
    pub open spec fn spec_encode(self) -> u8 {
        (bit(self.unused) + self.address_filter.spec_bits() as int * 2
            + self.crc_auto_clear.spec_bits() as int * 8 + self.crc.spec_bits() as int * 16
            + self.dc_free.spec_bits() as int * 32 + self.packet_format.spec_bits() as int
            * 128) as u8
    }

    /// Field extraction from the canonical byte; `None` when the address
    /// filter or the DC-free encoding holds a reserved pattern.
    pub open spec fn spec_decode(b: u8) -> Option<PacketConfig1> {
        match (
            AddressFilter::spec_from_bits((((b as int) / 2) % 4) as u8),
            CrcAutoClear::spec_from_bits((((b as int) / 8) % 2) as u8),
            Crc::spec_from_bits((((b as int) / 16) % 2) as u8),
            DcFree::spec_from_bits((((b as int) / 32) % 4) as u8),
            PacketFormat::spec_from_bits((((b as int) / 128) % 2) as u8),
        ) {
            (Some(af), Some(cac), Some(c), Some(df), Some(pf)) => Some(
                PacketConfig1 {
                    unused: (b as int) % 2 == 1,
                    address_filter: af,
                    crc_auto_clear: cac,
                    crc: c,
                    dc_free: df,
                    packet_format: pf,
                },
            ),
            _ => None,
        }
    }

    /// Field-by-field construction; the unused filler defaults to zero.
    pub fn new(
        address_filter: AddressFilter,
        crc_auto_clear: CrcAutoClear,
        crc: Crc,
        dc_free: DcFree,
        packet_format: PacketFormat,
    ) -> (r: PacketConfig1)
        ensures
            r == (PacketConfig1 {
                unused: false,
                address_filter,
                crc_auto_clear,
                crc,
                dc_free,
                packet_format,
            }),
            r.wf(),
    {
        PacketConfig1 { unused: false, address_filter, crc_auto_clear, crc, dc_free, packet_format }
    }

    /// Pack the fields into the register's one-byte bus form.
    pub fn encode(&self) -> (b: u8)
        requires
            self.wf(),
        ensures
            b == self.spec_encode(),
    {
        let af: u8 = self.address_filter.bits();
        let cac: u8 = self.crc_auto_clear.bits();
        let c: u8 = self.crc.bits();
        let df: u8 = self.dc_free.bits();
        let pf: u8 = self.packet_format.bits();
        let mut b: u8 = af * 2 + cac * 8 + c * 16 + df * 32 + pf * 128;
        if self.unused {
            b = b + 1;
        }
        b
    }

    /// Unpack the register's bus byte; a reserved address-filter or DC-free
    /// pattern is rejected.
    #[verifier::rlimit(60)]
    pub fn decode(b: u8) -> (r: Result<PacketConfig1, DecodeError>)
        ensures
            (r is Ok) == (Self::spec_decode(b) is Some),
            r matches Ok(v) ==> Self::spec_decode(b) == Some(v) && v.wf(),
            r matches Ok(v) ==> v.spec_encode() == b,
            r matches Err(e) ==> e == DecodeError::ReservedDiscriminant,
    {
        proof {
            let si = b as int;
            vstd::arithmetic::div_mod::lemma_div_denominator(si, 2, 4);
            vstd::arithmetic::div_mod::lemma_div_denominator(si, 8, 2);
            vstd::arithmetic::div_mod::lemma_div_denominator(si, 16, 2);
            vstd::arithmetic::div_mod::lemma_div_denominator(si, 32, 4);
            vstd::arithmetic::div_mod::lemma_div_denominator(si, 128, 2);
            assert(si / 256 == 0);
        }
        match (
            AddressFilter::from_bits((b / 2) % 4),
            CrcAutoClear::from_bits((b / 8) % 2),
            Crc::from_bits((b / 16) % 2),
            DcFree::from_bits((b / 32) % 4),
            PacketFormat::from_bits((b / 128) % 2),
        ) {
            (Some(af), Some(cac), Some(c), Some(df), Some(pf)) => Ok(
                PacketConfig1 {
                    unused: b % 2 == 1,
                    address_filter: af,
                    crc_auto_clear: cac,
                    crc: c,
                    dc_free: df,
                    packet_format: pf,
                },
            ),
            _ => Err(DecodeError::ReservedDiscriminant),
        }
    }

    /// Round trip: decoding the encoding of any well-formed value yields the
    /// value back, unused filler included.
    pub proof fn lemma_round_trip(v: PacketConfig1)
        requires
            v.wf(),
        ensures
            Self::spec_decode(v.spec_encode()) == Some(v),
    {
    }
}

impl Default for PacketConfig1 {
    /// The all-zero register: every field at its zero bit pattern.
    fn default() -> (r: PacketConfig1)
        ensures
            r == (PacketConfig1 {
            unused: false,
            address_filter: AddressFilter::Off,
            crc_auto_clear: CrcAutoClear::On,
            crc: Crc::Off,
            dc_free: DcFree::Off,
            packet_format: PacketFormat::Fixed,
            }),
            r.wf(),
            r.spec_encode() == 0,
    {
        PacketConfig1 {
            unused: false,
            address_filter: AddressFilter::Off,
            crc_auto_clear: CrcAutoClear::On,
            crc: Crc::Off,
            dc_free: DcFree::Off,
            packet_format: PacketFormat::Fixed,
        }
    }
}

impl Reg for PacketConfig1 {
    open spec fn spec_address() -> u8 {
        address_of(RegisterKind::PacketConfig1)
    }

    fn address() -> u8 {
        0x37
    }
}

/// Payload-length register: fixed length, or maximum accepted length in
/// variable-length mode.
#[derive(Clone, Copy, PartialEq, Eq, Structural, Debug)]
pub struct PayloadLength {
    pub value: u8,
}

impl PayloadLength {
    /// Every field value fits its declared bit width.
    pub open spec fn wf(self) -> bool {
        true
    }

    /// Canonical single-byte form.
    pub open spec fn spec_encode(self) -> u8 {
        self.value
    }

    /// Field extraction from the canonical byte; total.
    pub open spec fn spec_decode(b: u8) -> Option<PayloadLength> {
        Some(PayloadLength { value: b })
    }

    /// Pack the field into the register's one-byte bus form.
    pub fn encode(&self) -> (b: u8)
        requires
            self.wf(),
        ensures
            b == self.spec_encode(),
    {
        self.value
    }

    /// Unpack the register's bus byte; never fails.
    pub fn decode(b: u8) -> (r: Result<PayloadLength, DecodeError>)
        ensures
            r matches Ok(v) && Self::spec_decode(b) == Some(v) && v.wf() && v.spec_encode() == b,
    {
        Ok(PayloadLength { value: b })
    }

    /// Round trip: decoding the encoding of any value yields the value back.
    pub proof fn lemma_round_trip(v: PayloadLength)
        requires
            v.wf(),
        ensures
            Self::spec_decode(v.spec_encode()) == Some(v),
    {
    }
}

impl Default for PayloadLength {
    /// The all-zero register: every field at its zero bit pattern.
    fn default() -> (r: PayloadLength)
        ensures
            r == (PayloadLength {
            value: 0,
            }),
            r.wf(),
            r.spec_encode() == 0,
    {
        PayloadLength {
            value: 0,
        }
    }
}

impl Reg for PayloadLength {
    open spec fn spec_address() -> u8 {
        address_of(RegisterKind::PayloadLength)
    }

    fn address() -> u8 {
        0x38
    }
}

/// FIFO-threshold register: transmit start condition and threshold level.
///
/// One byte: the threshold in bits 0-6 and the start condition in bit 7.
#[derive(Clone, Copy, PartialEq, Eq, Structural, Debug)]
pub struct FifoThreshold {
    pub threshold: u8,
    pub start_condition: TxStartCondition,
}

impl FifoThreshold {
    /// Every field value fits its declared bit width: the threshold is 7
    /// bits.
    pub open spec fn wf(self) -> bool {
        self.threshold < 128
    }

    /// Canonical single-byte form.
    pub open spec fn spec_encode(self) -> u8 {
        (self.threshold as int + self.start_condition.spec_bits() as int * 128) as u8
    }

    /// Field extraction from the canonical byte; total.
    pub open spec fn spec_decode(b: u8) -> Option<FifoThreshold> {
        match TxStartCondition::spec_from_bits((((b as int) / 128) % 2) as u8) {
            Some(sc) => Some(
                FifoThreshold { threshold: ((b as int) % 128) as u8, start_condition: sc },
            ),
            None => None,
        }
    }

    /// Pack the fields into the register's one-byte bus form.
    pub fn encode(&self) -> (b: u8)
        requires
            self.wf(),
        ensures
            b == self.spec_encode(),
    {
        let sc: u8 = self.start_condition.bits();
        self.threshold + sc * 128
    }

    /// Unpack the register's bus byte; never fails, since every one-bit
    /// start-condition pattern is declared.
    pub fn decode(b: u8) -> (r: Result<FifoThreshold, DecodeError>)
        ensures
            (r is Ok) == (Self::spec_decode(b) is Some),
            r matches Ok(v) ==> Self::spec_decode(b) == Some(v) && v.wf(),
            r matches Ok(v) ==> v.spec_encode() == b,
            r matches Err(e) ==> e == DecodeError::ReservedDiscriminant,
    {
        match TxStartCondition::from_bits((b / 128) % 2) {
            Some(sc) => Ok(FifoThreshold { threshold: b % 128, start_condition: sc }),
            None => Err(DecodeError::ReservedDiscriminant),
        }
    }

    /// Round trip: decoding the encoding of any well-formed value yields the
    /// value back.
    pub proof fn lemma_round_trip(v: FifoThreshold)
        requires
            v.wf(),
        ensures
            Self::spec_decode(v.spec_encode()) == Some(v),
    {
    }
}

impl Default for FifoThreshold {
    /// The all-zero register: every field at its zero bit pattern.
    fn default() -> (r: FifoThreshold)
        ensures
            r == (FifoThreshold {
            threshold: 0,
            start_condition: TxStartCondition::FifoLevel,
            }),
            r.wf(),
            r.spec_encode() == 0,
    {
        FifoThreshold {
            threshold: 0,
            start_condition: TxStartCondition::FifoLevel,
        }
    }
}

impl Reg for FifoThreshold {
    open spec fn spec_address() -> u8 {
        address_of(RegisterKind::FifoThreshold)
    }

    fn address() -> u8 {
        0x3C
    }
}

/// Second packet-configuration register: encryption, receiver restart and
/// inter-packet delay.
///
/// One byte: AES-on in bit 0, auto-RX-restart in bit 1, RX-restart in bit 2
/// and the inter-packet receive delay in bits 3-7.
#[derive(Clone, Copy, PartialEq, Eq, Structural, Debug)]
pub struct PacketConfig2 {
    pub aes: Aes,
    pub auto_rx_restart: AutoRxRestart,
    pub rx_restart: bool,
    pub inter_packet_rx_delay: u8,
}

impl PacketConfig2 {
    /// Every field value fits its declared bit width: the delay is 5 bits.
    pub open spec fn wf(self) -> bool {
        self.inter_packet_rx_delay < 32
    }

    /// Canonical single-byte form.
    pub open spec fn spec_encode(self) -> u8 {
        (self.aes.spec_bits() as int + self.auto_rx_restart.spec_bits() as int * 2 + bit(
            self.rx_restart,
        ) * 4 + self.inter_packet_rx_delay as int * 8) as u8
    }

    /// Field extraction from the canonical byte; total.
    pub open spec fn spec_decode(b: u8) -> Option<PacketConfig2> {
        match (
            Aes::spec_from_bits(((b as int) % 2) as u8),
            AutoRxRestart::spec_from_bits((((b as int) / 2) % 2) as u8),
        ) {
            (Some(a), Some(ar)) => Some(
                PacketConfig2 {
                    aes: a,
                    auto_rx_restart: ar,
                    rx_restart: ((b as int) / 4) % 2 == 1,
                    inter_packet_rx_delay: (((b as int) / 8) % 32) as u8,
                },
            ),
            _ => None,
        }
    }

    /// Pack the fields into the register's one-byte bus form.
    pub fn encode(&self) -> (b: u8)
        requires
            self.wf(),
        ensures
            b == self.spec_encode(),
    {
        let a: u8 = self.aes.bits();
        let ar: u8 = self.auto_rx_restart.bits();
        let mut b: u8 = a + ar * 2 + self.inter_packet_rx_delay * 8;
        if self.rx_restart {
            b = b + 4;
        }
        b
    }

    /// Unpack the register's bus byte; never fails, since every one-bit
    /// pattern of both enumerated fields is declared.
    pub fn decode(b: u8) -> (r: Result<PacketConfig2, DecodeError>)
        ensures
            (r is Ok) == (Self::spec_decode(b) is Some),
            r matches Ok(v) ==> Self::spec_decode(b) == Some(v) && v.wf(),
            r matches Ok(v) ==> v.spec_encode() == b,
            r matches Err(e) ==> e == DecodeError::ReservedDiscriminant,
    {
        match (Aes::from_bits(b % 2), AutoRxRestart::from_bits((b / 2) % 2)) {
            (Some(a), Some(ar)) => Ok(
                PacketConfig2 {
                    aes: a,
                    auto_rx_restart: ar,
                    rx_restart: (b / 4) % 2 == 1,
                    inter_packet_rx_delay: (b / 8) % 32,
                },
            ),
            _ => Err(DecodeError::ReservedDiscriminant),
        }
    }

    /// Round trip: decoding the encoding of any well-formed value yields the
    /// value back.
    pub proof fn lemma_round_trip(v: PacketConfig2)
        requires
            v.wf(),
        ensures
            Self::spec_decode(v.spec_encode()) == Some(v),
    {
    }
}

impl Default for PacketConfig2 {
    /// The all-zero register: every field at its zero bit pattern.
    fn default() -> (r: PacketConfig2)
        ensures
            r == (PacketConfig2 {
            aes: Aes::Off,
            auto_rx_restart: AutoRxRestart::Off,
            rx_restart: false,
            inter_packet_rx_delay: 0,
            }),
            r.wf(),
            r.spec_encode() == 0,
    {
        PacketConfig2 {
            aes: Aes::Off,
            auto_rx_restart: AutoRxRestart::Off,
            rx_restart: false,
            inter_packet_rx_delay: 0,
        }
    }
}

impl Reg for PacketConfig2 {
    open spec fn spec_address() -> u8 {
        address_of(RegisterKind::PacketConfig2)
    }

    fn address() -> u8 {
        0x3D
    }
}

} // verus!
