//! Power-amplifier, over-current, gain, bandwidth and RSSI registers.

use vstd::prelude::*;

use crate::DecodeError;
use crate::Reg;
use crate::bit;
use crate::catalog::RegisterKind;
use crate::catalog::address_of;
use crate::fields::Bandwidth;
use crate::fields::DccFreq;
use crate::fields::LnaGainSelect;
use crate::fields::LnaZin;
use crate::fields::RampTime;

verus! {

/// Power-amplifier level register: output power and amplifier selection.
///
/// One byte: the output-power level in bits 0-4, PA2-on in bit 5, PA1-on in
/// bit 6 and PA0-on in bit 7.
#[derive(Clone, Copy, PartialEq, Eq, Structural, Debug)]
pub struct PaLevel {
    pub level: u8,
    pub pa2_on: bool,
    pub pa1_on: bool,
    pub pa0_on: bool,
}

impl PaLevel {
    /// Every field value fits its declared bit width: the level is 5 bits.
    pub open spec fn wf(self) -> bool {
        self.level < 32
    }

    /// Canonical single-byte form.
    pub open spec fn spec_encode(self) -> u8 {
        (self.level as int + bit(self.pa2_on) * 32 + bit(self.pa1_on) * 64 + bit(self.pa0_on)
            * 128) as u8
    }

    /// Field extraction from the canonical byte; total.
    pub open spec fn spec_decode(b: u8) -> Option<PaLevel> {
        Some(
            PaLevel {
                level: ((b as int) % 32) as u8,
                pa2_on: ((b as int) / 32) % 2 == 1,
                pa1_on: ((b as int) / 64) % 2 == 1,
                pa0_on: ((b as int) / 128) % 2 == 1,
            },
        )
    }

    /// Pack the fields into the register's one-byte bus form.
    pub fn encode(&self) -> (b: u8)
        requires
            self.wf(),
        ensures
            b == self.spec_encode(),
    {
        let mut b: u8 = self.level;
        if self.pa2_on {
            b = b + 32;
        }
        if self.pa1_on {
            b = b + 64;
        }
        if self.pa0_on {
            b = b + 128;
        }
        b
    }

    /// Unpack the register's bus byte; never fails.
    pub fn decode(b: u8) -> (r: Result<PaLevel, DecodeError>)
        ensures
            r matches Ok(v) && Self::spec_decode(b) == Some(v) && v.wf() && v.spec_encode() == b,
    {
        Ok(
            PaLevel {
                level: b % 32,
                pa2_on: (b / 32) % 2 == 1,
                pa1_on: (b / 64) % 2 == 1,
                pa0_on: (b / 128) % 2 == 1,
            },
        )
    }

    /// Round trip: decoding the encoding of any well-formed value yields the
    /// value back.
    pub proof fn lemma_round_trip(v: PaLevel)
        requires
            v.wf(),
        ensures
            Self::spec_decode(v.spec_encode()) == Some(v),
    {
    }
}

impl Default for PaLevel {
    /// The all-zero register: every field at its zero bit pattern.
    fn default() -> (r: PaLevel)
        ensures
            r == (PaLevel {
            level: 0,
            pa2_on: false,
            pa1_on: false,
            pa0_on: false,
            }),
            r.wf(),
            r.spec_encode() == 0,
    {
        PaLevel {
            level: 0,
            pa2_on: false,
            pa1_on: false,
            pa0_on: false,
        }
    }
}

impl Reg for PaLevel {
    open spec fn spec_address() -> u8 {
        address_of(RegisterKind::PaLevel)
    }

    fn address() -> u8 {
        0x11
    }
}

/// Power-amplifier ramp register: rise and fall time in FSK mode.
///
/// One byte: the ramp time in bits 0-3 and unused filler in bits 4-7.
#[derive(Clone, Copy, PartialEq, Eq, Structural, Debug)]
pub struct PaRamp {
    pub time: RampTime,
    /// Hardware-unused high bits, preserved verbatim across decode/encode.
    pub unused: u8,
}

impl PaRamp {
    /// Every field value fits its declared bit width.
    pub open spec fn wf(self) -> bool {
        self.unused < 16
    }

    /// Canonical single-byte form.
    pub open spec fn spec_encode(self) -> u8 {
        (self.time.spec_bits() as int + self.unused as int * 16) as u8
    }

    /// Field extraction from the canonical byte; total, since every
    /// four-bit ramp pattern is declared.
    pub open spec fn spec_decode(b: u8) -> Option<PaRamp> {
        match RampTime::spec_from_bits(((b as int) % 16) as u8) {
            Some(t) => Some(PaRamp { time: t, unused: (((b as int) / 16) % 16) as u8 }),
            None => None,
        }
    }

    /// Field-by-field construction; the unused filler defaults to zero.
    pub fn new(time: RampTime) -> (r: PaRamp)
        ensures
            r == (PaRamp { time, unused: 0 }),
            r.wf(),
    {
        PaRamp { time, unused: 0 }
    }

    /// Pack the fields into the register's one-byte bus form.
    pub fn encode(&self) -> (b: u8)
        requires
            self.wf(),
        ensures
            b == self.spec_encode(),
    {
        let t: u8 = self.time.bits();
        t + self.unused * 16
    }

    /// Unpack the register's bus byte; never fails, since every four-bit
    /// ramp pattern is declared.
    pub fn decode(b: u8) -> (r: Result<PaRamp, DecodeError>)
        ensures
            (r is Ok) == (Self::spec_decode(b) is Some),
            r matches Ok(v) ==> Self::spec_decode(b) == Some(v) && v.wf(),
            r matches Ok(v) ==> v.spec_encode() == b,
            r matches Err(e) ==> e == DecodeError::ReservedDiscriminant,
    {
        match RampTime::from_bits(b % 16) {
            Some(t) => Ok(PaRamp { time: t, unused: (b / 16) % 16 }),
            None => Err(DecodeError::ReservedDiscriminant),
        }
    }

    /// Round trip: decoding the encoding of any well-formed value yields the
    /// value back, unused filler included.
    pub proof fn lemma_round_trip(v: PaRamp)
        requires
            v.wf(),
        ensures
            Self::spec_decode(v.spec_encode()) == Some(v),
    {
    }
}

impl Default for PaRamp {
    /// The all-zero register: every field at its zero bit pattern.
    fn default() -> (r: PaRamp)
        ensures
            r == (PaRamp {
            time: RampTime::Ramp3400us,
            unused: 0,
            }),
            r.wf(),
            r.spec_encode() == 0,
    {
        PaRamp {
            time: RampTime::Ramp3400us,
            unused: 0,
        }
    }
}

impl Reg for PaRamp {
    open spec fn spec_address() -> u8 {
        address_of(RegisterKind::PaRamp)
    }

    fn address() -> u8 {
        0x12
    }
}

/// Over-current-protection register.
///
/// One byte: the trim value in bits 0-3, protection-on in bit 4 and unused
/// filler in bits 5-7.
#[derive(Clone, Copy, PartialEq, Eq, Structural, Debug)]
pub struct Ocp {
    pub trim: u8,
    pub ocp_on: bool,
    /// Hardware-unused high bits, preserved verbatim across decode/encode.
    pub unused: u8,
}

impl Ocp {
    /// Every field value fits its declared bit width: the trim is 4 bits.
    pub open spec fn wf(self) -> bool {
        self.trim < 16 && self.unused < 8
    }

    /// Canonical single-byte form.
    pub open spec fn spec_encode(self) -> u8 {
        (self.trim as int + bit(self.ocp_on) * 16 + self.unused as int * 32) as u8
    }

    /// Field extraction from the canonical byte; total.
    pub open spec fn spec_decode(b: u8) -> Option<Ocp> {
        Some(
            Ocp {
                trim: ((b as int) % 16) as u8,
                ocp_on: ((b as int) / 16) % 2 == 1,
                unused: (((b as int) / 32) % 8) as u8,
            },
        )
    }

    /// Field-by-field construction; the unused filler defaults to zero.
    pub fn new(trim: u8, ocp_on: bool) -> (r: Ocp)
        requires
            trim < 16,
        ensures
            r == (Ocp { trim, ocp_on, unused: 0 }),
            r.wf(),
    {
        Ocp { trim, ocp_on, unused: 0 }
    }

    /// Pack the fields into the register's one-byte bus form.
    pub fn encode(&self) -> (b: u8)
        requires
            self.wf(),
        ensures
            b == self.spec_encode(),
    {
        let mut b: u8 = self.trim + self.unused * 32;
        if self.ocp_on {
            b = b + 16;
        }
        b
    }

    /// Unpack the register's bus byte; never fails.
    pub fn decode(b: u8) -> (r: Result<Ocp, DecodeError>)
        ensures
            r matches Ok(v) && Self::spec_decode(b) == Some(v) && v.wf() && v.spec_encode() == b,
    {
        Ok(Ocp { trim: b % 16, ocp_on: (b / 16) % 2 == 1, unused: (b / 32) % 8 })
    }

    /// Round trip: decoding the encoding of any well-formed value yields the
    /// value back, unused filler included.
    pub proof fn lemma_round_trip(v: Ocp)
        requires
            v.wf(),
        ensures
            Self::spec_decode(v.spec_encode()) == Some(v),
    {
    }
}

impl Default for Ocp {
    /// The all-zero register: every field at its zero bit pattern.
    fn default() -> (r: Ocp)
        ensures
            r == (Ocp {
            trim: 0,
            ocp_on: false,
            unused: 0,
            }),
            r.wf(),
            r.spec_encode() == 0,
    {
        Ocp {
            trim: 0,
            ocp_on: false,
            unused: 0,
        }
    }
}

impl Reg for Ocp {
    open spec fn spec_address() -> u8 {
        address_of(RegisterKind::Ocp)
    }

    fn address() -> u8 {
        0x13
    }
}

/// Low-noise-amplifier register: gain selection and input impedance.
///
/// One byte: the gain selection in bits 0-2, the current gain (read-only on
/// the chip) in bits 3-5, unused filler in bit 6 and the input impedance in
/// bit 7.
#[derive(Clone, Copy, PartialEq, Eq, Structural, Debug)]
pub struct Lna {
    pub gain_select: LnaGainSelect,
    pub current_gain: u8,
    /// Hardware-unused bit, preserved verbatim across decode/encode.
    pub unused: bool,
    pub zin: LnaZin,
}

impl Lna {
    /// Every field value fits its declared bit width: the current gain is 3
    /// bits.
    pub open spec fn wf(self) -> bool {
        self.current_gain < 8
    }

    /// Canonical single-byte form.
    pub open spec fn spec_encode(self) -> u8 {
        (self.gain_select.spec_bits() as int + self.current_gain as int * 8 + bit(self.unused)
            * 64 + self.zin.spec_bits() as int * 128) as u8
    }

    /// Field extraction from the canonical byte; `None` when the gain
    /// selection holds the reserved pattern.
    pub open spec fn spec_decode(b: u8) -> Option<Lna> {
        match (
            LnaGainSelect::spec_from_bits(((b as int) % 8) as u8),
            LnaZin::spec_from_bits((((b as int) / 128) % 2) as u8),
        ) {
            (Some(gs), Some(z)) => Some(
                Lna {
                    gain_select: gs,
                    current_gain: (((b as int) / 8) % 8) as u8,
                    unused: ((b as int) / 64) % 2 == 1,
                    zin: z,
                },
            ),
            _ => None,
        }
    }

    /// Field-by-field construction; the unused filler and the read-only
    /// current gain default to zero.
    pub fn new(gain_select: LnaGainSelect, zin: LnaZin) -> (r: Lna)
        ensures
            r == (Lna { gain_select, current_gain: 0, unused: false, zin }),
            r.wf(),
    {
        Lna { gain_select, current_gain: 0, unused: false, zin }
    }

    /// Pack the fields into the register's one-byte bus form.
    pub fn encode(&self) -> (b: u8)
        requires
            self.wf(),
        ensures
            b == self.spec_encode(),
    {
        let gs: u8 = self.gain_select.bits();
        let z: u8 = self.zin.bits();
        let mut b: u8 = gs + self.current_gain * 8 + z * 128;
        if self.unused {
            b = b + 64;
        }
        b
    }

    /// Unpack the register's bus byte; the reserved gain-selection pattern
    /// is rejected.
    pub fn decode(b: u8) -> (r: Result<Lna, DecodeError>)
        ensures
            (r is Ok) == (Self::spec_decode(b) is Some),
            r matches Ok(v) ==> Self::spec_decode(b) == Some(v) && v.wf(),
            r matches Ok(v) ==> v.spec_encode() == b,
            r matches Err(e) ==> e == DecodeError::ReservedDiscriminant,
    {
        match (LnaGainSelect::from_bits(b % 8), LnaZin::from_bits((b / 128) % 2)) {
            (Some(gs), Some(z)) => Ok(
                Lna {
                    gain_select: gs,
                    current_gain: (b / 8) % 8,
                    unused: (b / 64) % 2 == 1,
                    zin: z,
                },
            ),
            _ => Err(DecodeError::ReservedDiscriminant),
        }
    }

    /// Round trip: decoding the encoding of any well-formed value yields the
    /// value back, unused filler included.
    pub proof fn lemma_round_trip(v: Lna)
        requires
            v.wf(),
        ensures
            Self::spec_decode(v.spec_encode()) == Some(v),
    {
    }
}

impl Default for Lna {
    /// The all-zero register: every field at its zero bit pattern.
    fn default() -> (r: Lna)
        ensures
            r == (Lna {
            gain_select: LnaGainSelect::Agc,
            current_gain: 0,
            unused: false,
            zin: LnaZin::Zin50Ohm,
            }),
            r.wf(),
            r.spec_encode() == 0,
    {
        Lna {
            gain_select: LnaGainSelect::Agc,
            current_gain: 0,
            unused: false,
            zin: LnaZin::Zin50Ohm,
        }
    }
}

impl Reg for Lna {
    open spec fn spec_address() -> u8 {
        address_of(RegisterKind::Lna)
    }

    fn address() -> u8 {
        0x18
    }
}

/// Receiver channel-filter register: bandwidth and DC-offset canceller.
///
/// One byte: the bandwidth code in bits 0-4 and the canceller cut-off in
/// bits 5-7.
#[derive(Clone, Copy, PartialEq, Eq, Structural, Debug)]
pub struct RxBw {
    pub bw: Bandwidth,
    pub dcc: DccFreq,
}

impl RxBw {
    /// Every field value fits its declared bit width.
    pub open spec fn wf(self) -> bool {
        true
    }

    /// Canonical single-byte form.
    pub open spec fn spec_encode(self) -> u8 {
        (self.bw.spec_bits() as int + self.dcc.spec_bits() as int * 32) as u8
    }

    /// Field extraction from the canonical byte; `None` when the bandwidth
    /// bits hold a reserved pattern.
    pub open spec fn spec_decode(b: u8) -> Option<RxBw> {
        match (
            Bandwidth::spec_from_bits(((b as int) % 32) as u8),
            DccFreq::spec_from_bits((((b as int) / 32) % 8) as u8),
        ) {
            (Some(bw), Some(dcc)) => Some(RxBw { bw, dcc }),
            _ => None,
        }
    }

    /// Pack the fields into the register's one-byte bus form.
    pub fn encode(&self) -> (b: u8)
        requires
            self.wf(),
        ensures
            b == self.spec_encode(),
    {
        let w: u8 = self.bw.bits();
        let d: u8 = self.dcc.bits();
        w + d * 32
    }

    /// Unpack the register's bus byte; a reserved bandwidth pattern is
    /// rejected.
    pub fn decode(b: u8) -> (r: Result<RxBw, DecodeError>)
        ensures
            (r is Ok) == (Self::spec_decode(b) is Some),
            r matches Ok(v) ==> Self::spec_decode(b) == Some(v) && v.wf(),
            r matches Ok(v) ==> v.spec_encode() == b,
            r matches Err(e) ==> e == DecodeError::ReservedDiscriminant,
    {
        match (Bandwidth::from_bits(b % 32), DccFreq::from_bits((b / 32) % 8)) {
            (Some(bw), Some(dcc)) => Ok(RxBw { bw, dcc }),
            _ => Err(DecodeError::ReservedDiscriminant),
        }
    }

    /// Round trip: decoding the encoding of any value yields the value back.
    pub proof fn lemma_round_trip(v: RxBw)
        requires
            v.wf(),
        ensures
            Self::spec_decode(v.spec_encode()) == Some(v),
    {
    }
}

impl Reg for RxBw {
    open spec fn spec_address() -> u8 {
        address_of(RegisterKind::RxBw)
    }

    fn address() -> u8 {
        0x19
    }
}

/// AFC channel-filter register: bandwidth used during automatic frequency
/// correction.
///
/// Same one-byte layout as [`RxBw`]: the bandwidth code in bits 0-4 and the
/// canceller cut-off in bits 5-7.
#[derive(Clone, Copy, PartialEq, Eq, Structural, Debug)]
pub struct AfcBw {
    pub bw: Bandwidth,
    pub dcc: DccFreq,
}

impl AfcBw {
    /// Every field value fits its declared bit width.
    pub open spec fn wf(self) -> bool {
        true
    }

    /// Canonical single-byte form.
    pub open spec fn spec_encode(self) -> u8 {
        (self.bw.spec_bits() as int + self.dcc.spec_bits() as int * 32) as u8
    }

    /// Field extraction from the canonical byte; `None` when the bandwidth
    /// bits hold a reserved pattern.
    pub open spec fn spec_decode(b: u8) -> Option<AfcBw> {
        match (
            Bandwidth::spec_from_bits(((b as int) % 32) as u8),
            DccFreq::spec_from_bits((((b as int) / 32) % 8) as u8),
        ) {
            (Some(bw), Some(dcc)) => Some(AfcBw { bw, dcc }),
            _ => None,
        }
    }

    /// Pack the fields into the register's one-byte bus form.
    pub fn encode(&self) -> (b: u8)
        requires
            self.wf(),
        ensures
            b == self.spec_encode(),
    {
        let w: u8 = self.bw.bits();
        let d: u8 = self.dcc.bits();
        w + d * 32
    }

    /// Unpack the register's bus byte; a reserved bandwidth pattern is
    /// rejected.
    pub fn decode(b: u8) -> (r: Result<AfcBw, DecodeError>)
        ensures
            (r is Ok) == (Self::spec_decode(b) is Some),
            r matches Ok(v) ==> Self::spec_decode(b) == Some(v) && v.wf(),
            r matches Ok(v) ==> v.spec_encode() == b,
            r matches Err(e) ==> e == DecodeError::ReservedDiscriminant,
    {
        match (Bandwidth::from_bits(b % 32), DccFreq::from_bits((b / 32) % 8)) {
            (Some(bw), Some(dcc)) => Ok(AfcBw { bw, dcc }),
            _ => Err(DecodeError::ReservedDiscriminant),
        }
    }

    /// Round trip: decoding the encoding of any value yields the value back.
    pub proof fn lemma_round_trip(v: AfcBw)
        requires
            v.wf(),
        ensures
            Self::spec_decode(v.spec_encode()) == Some(v),
    {
    }
}

impl Reg for AfcBw {
    open spec fn spec_address() -> u8 {
        address_of(RegisterKind::AfcBw)
    }

    fn address() -> u8 {
        0x20
    }
}

/// RSSI-measurement control register.
///
/// One byte: measurement-start in bit 0, measurement-done in bit 1 and
/// unused filler in bits 2-7.
#[derive(Clone, Copy, PartialEq, Eq, Structural, Debug)]
pub struct RssiConfig {
    pub start: bool,
    pub done: bool,
    /// Hardware-unused high bits, preserved verbatim across decode/encode.
    pub unused: u8,
}

impl RssiConfig {
    /// Every field value fits its declared bit width.
    pub open spec fn wf(self) -> bool {
        self.unused < 64
    }

    /// Canonical single-byte form.
    pub open spec fn spec_encode(self) -> u8 {
        (bit(self.start) + bit(self.done) * 2 + self.unused as int * 4) as u8
    }

    /// Field extraction from the canonical byte; total.
    pub open spec fn spec_decode(b: u8) -> Option<RssiConfig> {
        Some(
            RssiConfig {
                start: (b as int) % 2 == 1,
                done: ((b as int) / 2) % 2 == 1,
                unused: (((b as int) / 4) % 64) as u8,
            },
        )
    }

    /// Field-by-field construction; the unused filler defaults to zero.
    pub fn new(start: bool, done: bool) -> (r: RssiConfig)
        ensures
            r == (RssiConfig { start, done, unused: 0 }),
            r.wf(),
    {
        RssiConfig { start, done, unused: 0 }
    }

    /// Pack the fields into the register's one-byte bus form.
    pub fn encode(&self) -> (b: u8)
        requires
            self.wf(),
        ensures
            b == self.spec_encode(),
    {
        let mut b: u8 = self.unused * 4;
        if self.start {
            b = b + 1;
        }
        if self.done {
            b = b + 2;
        }
        b
    }

    /// Unpack the register's bus byte; never fails.
    pub fn decode(b: u8) -> (r: Result<RssiConfig, DecodeError>)
        ensures
            r matches Ok(v) && Self::spec_decode(b) == Some(v) && v.wf() && v.spec_encode() == b,
    {
        Ok(RssiConfig { start: b % 2 == 1, done: (b / 2) % 2 == 1, unused: (b / 4) % 64 })
    }

    /// Round trip: decoding the encoding of any well-formed value yields the
    /// value back, unused filler included.
    pub proof fn lemma_round_trip(v: RssiConfig)
        requires
            v.wf(),
        ensures
            Self::spec_decode(v.spec_encode()) == Some(v),
    {
    }
}

impl Default for RssiConfig {
    /// The all-zero register: every field at its zero bit pattern.
    fn default() -> (r: RssiConfig)
        ensures
            r == (RssiConfig {
            start: false,
            done: false,
            unused: 0,
            }),
            r.wf(),
            r.spec_encode() == 0,
    {
        RssiConfig {
            start: false,
            done: false,
            unused: 0,
        }
    }
}

impl Reg for RssiConfig {
    open spec fn spec_address() -> u8 {
        address_of(RegisterKind::RssiConfig)
    }

    fn address() -> u8 {
        0x23
    }
}

/// RSSI-value register: the last measured signal strength, read-only on the
/// chip.
#[derive(Clone, Copy, PartialEq, Eq, Structural, Debug)]
pub struct RssiValue {
    pub value: u8,
}

impl RssiValue {
    /// Every field value fits its declared bit width.
    pub open spec fn wf(self) -> bool {
        true
    }

    /// Canonical single-byte form.
    pub open spec fn spec_encode(self) -> u8 {
        self.value
    }

    /// Field extraction from the canonical byte; total.
    pub open spec fn spec_decode(b: u8) -> Option<RssiValue> {
        Some(RssiValue { value: b })
    }

    /// Pack the field into the register's one-byte bus form.
    pub fn encode(&self) -> (b: u8)
        requires
            self.wf(),
        ensures
            b == self.spec_encode(),
    {
        self.value
    }

    /// Unpack the register's bus byte; never fails.
    pub fn decode(b: u8) -> (r: Result<RssiValue, DecodeError>)
        ensures
            r matches Ok(v) && Self::spec_decode(b) == Some(v) && v.wf() && v.spec_encode() == b,
    {
        Ok(RssiValue { value: b })
    }

    /// Round trip: decoding the encoding of any value yields the value back.
    pub proof fn lemma_round_trip(v: RssiValue)
        requires
            v.wf(),
        ensures
            Self::spec_decode(v.spec_encode()) == Some(v),
    {
    }
}

impl Default for RssiValue {
    /// The all-zero register: every field at its zero bit pattern.
    fn default() -> (r: RssiValue)
        ensures
            r == (RssiValue {
            value: 0,
            }),
            r.wf(),
            r.spec_encode() == 0,
    {
        RssiValue {
            value: 0,
        }
    }
}

impl Reg for RssiValue {
    open spec fn spec_address() -> u8 {
        address_of(RegisterKind::RssiValue)
    }

    fn address() -> u8 {
        0x24
    }
}

/// RSSI-threshold register: the trigger level for RSSI interrupts.
#[derive(Clone, Copy, PartialEq, Eq, Structural, Debug)]
pub struct RssiThreshold {
    pub value: u8,
}

impl RssiThreshold {
    /// Every field value fits its declared bit width.
    pub open spec fn wf(self) -> bool {
        true
    }

    /// Canonical single-byte form.
    pub open spec fn spec_encode(self) -> u8 {
        self.value
    }

    /// Field extraction from the canonical byte; total.
    pub open spec fn spec_decode(b: u8) -> Option<RssiThreshold> {
        Some(RssiThreshold { value: b })
    }

    /// Pack the field into the register's one-byte bus form.
    pub fn encode(&self) -> (b: u8)
        requires
            self.wf(),
        ensures
            b == self.spec_encode(),
    {
        self.value
    }

    /// Unpack the register's bus byte; never fails.
    pub fn decode(b: u8) -> (r: Result<RssiThreshold, DecodeError>)
        ensures
            r matches Ok(v) && Self::spec_decode(b) == Some(v) && v.wf() && v.spec_encode() == b,
    {
        Ok(RssiThreshold { value: b })
    }

    /// Round trip: decoding the encoding of any value yields the value back.
    pub proof fn lemma_round_trip(v: RssiThreshold)
        requires
            v.wf(),
        ensures
            Self::spec_decode(v.spec_encode()) == Some(v),
    {
    }
}

impl Default for RssiThreshold {
    /// The all-zero register: every field at its zero bit pattern.
    fn default() -> (r: RssiThreshold)
        ensures
            r == (RssiThreshold {
            value: 0,
            }),
            r.wf(),
            r.spec_encode() == 0,
    {
        RssiThreshold {
            value: 0,
        }
    }
}

impl Reg for RssiThreshold {
    open spec fn spec_address() -> u8 {
        address_of(RegisterKind::RssiThreshold)
    }

    fn address() -> u8 {
        0x29
    }
}

} // verus!
