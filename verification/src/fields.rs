//! Enumerated field types.
//!
//! Every multi-valued register field with symbolic meaning is one of the
//! enumerations below.  Each variant carries a chip-defined numeric
//! discriminant, exposed through `bits`; the reverse lookup `from_bits`
//! returns `None` for the bit patterns the datasheet leaves unassigned, so a
//! reserved pattern can never be mistaken for a declared variant.
//!
//! Discriminants need not be contiguous: `ModulationType`, `DataMode`,
//! `ListenEnd`, `ListenBaseDuration`, `LnaGainSelect`, `Bandwidth`,
//! `AddressFilter` and `DcFree` all leave at least one pattern of their bit
//! width reserved.

use vstd::prelude::*;

verus! {

/// Transceiver operating mode, the three-bit mode field of `OpMode`.
///
/// Patterns 5 through 7 are reserved.
#[derive(Clone, Copy, PartialEq, Eq, Structural, Debug)]
pub enum ModemMode {
    Sleep,
    Standby,
    FreqSynthesizer,
    Transmitter,
    Receiver,
}

impl ModemMode {
    /// Chip-defined discriminant of each variant.
    pub open spec fn spec_bits(self) -> u8 {
        match self {
            ModemMode::Sleep => 0,
            ModemMode::Standby => 1,
            ModemMode::FreqSynthesizer => 2,
            ModemMode::Transmitter => 3,
            ModemMode::Receiver => 4,
        }
    }

    /// Reverse lookup; reserved patterns yield `None`.
    pub open spec fn spec_from_bits(b: u8) -> Option<ModemMode> {
        if b == 0 {
            Some(ModemMode::Sleep)
        } else if b == 1 {
            Some(ModemMode::Standby)
        } else if b == 2 {
            Some(ModemMode::FreqSynthesizer)
        } else if b == 3 {
            Some(ModemMode::Transmitter)
        } else if b == 4 {
            Some(ModemMode::Receiver)
        } else {
            None
        }
    }

    pub fn bits(self) -> (b: u8)
        ensures
            b == self.spec_bits(),
            b < 8,
    {
        match self {
            ModemMode::Sleep => 0,
            ModemMode::Standby => 1,
            ModemMode::FreqSynthesizer => 2,
            ModemMode::Transmitter => 3,
            ModemMode::Receiver => 4,
        }
    }

    pub fn from_bits(b: u8) -> (r: Option<ModemMode>)
        ensures
            r == Self::spec_from_bits(b),
    {
        if b == 0 {
            Some(ModemMode::Sleep)
        } else if b == 1 {
            Some(ModemMode::Standby)
        } else if b == 2 {
            Some(ModemMode::FreqSynthesizer)
        } else if b == 3 {
            Some(ModemMode::Transmitter)
        } else if b == 4 {
            Some(ModemMode::Receiver)
        } else {
            None
        }
    }
}

/// Modulation scheme, the five-bit modulation field of `DataModulation`.
///
/// Pattern `0b01011` and every pattern with the high bit set are reserved.
#[derive(Clone, Copy, PartialEq, Eq, Structural, Debug)]
pub enum ModulationType {
    Fsk,
    Gfsk1,
    Gfsk05,
    Gfsk03,
    Ook,
    OokBr,
    Ook2Br,
}

impl ModulationType {
    /// Chip-defined discriminant of each variant.
    pub open spec fn spec_bits(self) -> u8 {
        match self {
            ModulationType::Fsk => 0,
            ModulationType::Gfsk1 => 1,
            ModulationType::Gfsk05 => 2,
            ModulationType::Gfsk03 => 3,
            ModulationType::Ook => 8,
            ModulationType::OokBr => 9,
            ModulationType::Ook2Br => 10,
        }
    }

    /// Reverse lookup; reserved patterns yield `None`.
    pub open spec fn spec_from_bits(b: u8) -> Option<ModulationType> {
        if b == 0 {
            Some(ModulationType::Fsk)
        } else if b == 1 {
            Some(ModulationType::Gfsk1)
        } else if b == 2 {
            Some(ModulationType::Gfsk05)
        } else if b == 3 {
            Some(ModulationType::Gfsk03)
        } else if b == 8 {
            Some(ModulationType::Ook)
        } else if b == 9 {
            Some(ModulationType::OokBr)
        } else if b == 10 {
            Some(ModulationType::Ook2Br)
        } else {
            None
        }
    }

    pub fn bits(self) -> (b: u8)
        ensures
            b == self.spec_bits(),
            b < 32,
    {
        match self {
            ModulationType::Fsk => 0,
            ModulationType::Gfsk1 => 1,
            ModulationType::Gfsk05 => 2,
            ModulationType::Gfsk03 => 3,
            ModulationType::Ook => 8,
            ModulationType::OokBr => 9,
            ModulationType::Ook2Br => 10,
        }
    }

    pub fn from_bits(b: u8) -> (r: Option<ModulationType>)
        ensures
            r == Self::spec_from_bits(b),
    {
        if b == 0 {
            Some(ModulationType::Fsk)
        } else if b == 1 {
            Some(ModulationType::Gfsk1)
        } else if b == 2 {
            Some(ModulationType::Gfsk05)
        } else if b == 3 {
            Some(ModulationType::Gfsk03)
        } else if b == 8 {
            Some(ModulationType::Ook)
        } else if b == 9 {
            Some(ModulationType::OokBr)
        } else if b == 10 {
            Some(ModulationType::Ook2Br)
        } else {
            None
        }
    }
}

/// Data processing mode, the two-bit mode field of `DataModulation`.
///
/// Pattern `0b10` is reserved.
#[derive(Clone, Copy, PartialEq, Eq, Structural, Debug)]
pub enum DataMode {
    Packet,
    ContinousWithBitSync,
    Continous,
}

impl DataMode {
    /// Chip-defined discriminant of each variant.
    pub open spec fn spec_bits(self) -> u8 {
        match self {
            DataMode::Packet => 0,
            DataMode::ContinousWithBitSync => 1,
            DataMode::Continous => 3,
        }
    }

    /// Reverse lookup; the reserved pattern yields `None`.
    pub open spec fn spec_from_bits(b: u8) -> Option<DataMode> {
        if b == 0 {
            Some(DataMode::Packet)
        } else if b == 1 {
            Some(DataMode::ContinousWithBitSync)
        } else if b == 3 {
            Some(DataMode::Continous)
        } else {
            None
        }
    }

    pub fn bits(self) -> (b: u8)
        ensures
            b == self.spec_bits(),
            b < 4,
    {
        match self {
            DataMode::Packet => 0,
            DataMode::ContinousWithBitSync => 1,
            DataMode::Continous => 3,
        }
    }

    pub fn from_bits(b: u8) -> (r: Option<DataMode>)
        ensures
            r == Self::spec_from_bits(b),
    {
        if b == 0 {
            Some(DataMode::Packet)
        } else if b == 1 {
            Some(DataMode::ContinousWithBitSync)
        } else if b == 3 {
            Some(DataMode::Continous)
        } else {
            None
        }
    }
}

/// Action taken after acceptance of a packet in listen mode.
///
/// Pattern `0b11` is reserved.
#[derive(Clone, Copy, PartialEq, Eq, Structural, Debug)]
pub enum ListenEnd {
    Rx,
    Mode,
    Idle,
}

impl ListenEnd {
    /// Chip-defined discriminant of each variant.
    pub open spec fn spec_bits(self) -> u8 {
        match self {
            ListenEnd::Rx => 0,
            ListenEnd::Mode => 1,
            ListenEnd::Idle => 2,
        }
    }

    /// Reverse lookup; the reserved pattern yields `None`.
    pub open spec fn spec_from_bits(b: u8) -> Option<ListenEnd> {
        if b == 0 {
            Some(ListenEnd::Rx)
        } else if b == 1 {
            Some(ListenEnd::Mode)
        } else if b == 2 {
            Some(ListenEnd::Idle)
        } else {
            None
        }
    }

    pub fn bits(self) -> (b: u8)
        ensures
            b == self.spec_bits(),
            b < 4,
    {
        match self {
            ListenEnd::Rx => 0,
            ListenEnd::Mode => 1,
            ListenEnd::Idle => 2,
        }
    }

    pub fn from_bits(b: u8) -> (r: Option<ListenEnd>)
        ensures
            r == Self::spec_from_bits(b),
    {
        if b == 0 {
            Some(ListenEnd::Rx)
        } else if b == 1 {
            Some(ListenEnd::Mode)
        } else if b == 2 {
            Some(ListenEnd::Idle)
        } else {
            None
        }
    }
}

/// Criteria for packet acceptance in listen mode.
#[derive(Clone, Copy, PartialEq, Eq, Structural, Debug)]
pub enum ListenCriteria {
    Rssi,
    RssiAndSync,
}

impl ListenCriteria {
    /// Chip-defined discriminant of each variant.
    pub open spec fn spec_bits(self) -> u8 {
        match self {
            ListenCriteria::Rssi => 0,
            ListenCriteria::RssiAndSync => 1,
        }
    }

    /// Reverse lookup; every one-bit pattern is declared.
    pub open spec fn spec_from_bits(b: u8) -> Option<ListenCriteria> {
        if b == 0 {
            Some(ListenCriteria::Rssi)
        } else if b == 1 {
            Some(ListenCriteria::RssiAndSync)
        } else {
            None
        }
    }

    pub fn bits(self) -> (b: u8)
        ensures
            b == self.spec_bits(),
            b < 2,
    {
        match self {
            ListenCriteria::Rssi => 0,
            ListenCriteria::RssiAndSync => 1,
        }
    }

    pub fn from_bits(b: u8) -> (r: Option<ListenCriteria>)
        ensures
            r == Self::spec_from_bits(b),
    {
        if b == 0 {
            Some(ListenCriteria::Rssi)
        } else if b == 1 {
            Some(ListenCriteria::RssiAndSync)
        } else {
            None
        }
    }
}

/// Resolution of the listen-mode duration counters.
///
/// Pattern `0b11` is reserved.
#[derive(Clone, Copy, PartialEq, Eq, Structural, Debug)]
pub enum ListenBaseDuration {
    Dur64us,
    Dur4_1ms,
    Dur262ms,
}

impl ListenBaseDuration {
    /// Chip-defined discriminant of each variant.
    pub open spec fn spec_bits(self) -> u8 {
        match self {
            ListenBaseDuration::Dur64us => 0,
            ListenBaseDuration::Dur4_1ms => 1,
            ListenBaseDuration::Dur262ms => 2,
        }
    }

    /// Reverse lookup; the reserved pattern yields `None`.
    pub open spec fn spec_from_bits(b: u8) -> Option<ListenBaseDuration> {
        if b == 0 {
            Some(ListenBaseDuration::Dur64us)
        } else if b == 1 {
            Some(ListenBaseDuration::Dur4_1ms)
        } else if b == 2 {
            Some(ListenBaseDuration::Dur262ms)
        } else {
            None
        }
    }

    pub fn bits(self) -> (b: u8)
        ensures
            b == self.spec_bits(),
            b < 4,
    {
        match self {
            ListenBaseDuration::Dur64us => 0,
            ListenBaseDuration::Dur4_1ms => 1,
            ListenBaseDuration::Dur262ms => 2,
        }
    }

    pub fn from_bits(b: u8) -> (r: Option<ListenBaseDuration>)
        ensures
            r == Self::spec_from_bits(b),
    {
        if b == 0 {
            Some(ListenBaseDuration::Dur64us)
        } else if b == 1 {
            Some(ListenBaseDuration::Dur4_1ms)
        } else if b == 2 {
            Some(ListenBaseDuration::Dur262ms)
        } else {
            None
        }
    }
}

/// Rise and fall time of the power-amplifier ramp in FSK mode.
///
/// All sixteen four-bit patterns are declared.
#[derive(Clone, Copy, PartialEq, Eq, Structural, Debug)]
pub enum RampTime {
    Ramp3400us,
    Ramp2000us,
    Ramp1000us,
    Ramp500us,
    Ramp250us,
    Ramp125us,
    Ramp100us,
    Ramp62us,
    Ramp50us,
    Ramp40us,
    Ramp31us,
    Ramp25us,
    Ramp20us,
    Ramp15us,
    Ramp12us,
    Ramp10us,
}

impl RampTime {
    /// Chip-defined discriminant of each variant.
    pub open spec fn spec_bits(self) -> u8 {
        match self {
            RampTime::Ramp3400us => 0,
            RampTime::Ramp2000us => 1,
            RampTime::Ramp1000us => 2,
            RampTime::Ramp500us => 3,
            RampTime::Ramp250us => 4,
            RampTime::Ramp125us => 5,
            RampTime::Ramp100us => 6,
            RampTime::Ramp62us => 7,
            RampTime::Ramp50us => 8,
            RampTime::Ramp40us => 9,
            RampTime::Ramp31us => 10,
            RampTime::Ramp25us => 11,
            RampTime::Ramp20us => 12,
            RampTime::Ramp15us => 13,
            RampTime::Ramp12us => 14,
            RampTime::Ramp10us => 15,
        }
    }

    /// Reverse lookup; total on four-bit patterns.
    pub open spec fn spec_from_bits(b: u8) -> Option<RampTime> {
        if b == 0 {
            Some(RampTime::Ramp3400us)
        } else if b == 1 {
            Some(RampTime::Ramp2000us)
        } else if b == 2 {
            Some(RampTime::Ramp1000us)
        } else if b == 3 {
            Some(RampTime::Ramp500us)
        } else if b == 4 {
            Some(RampTime::Ramp250us)
        } else if b == 5 {
            Some(RampTime::Ramp125us)
        } else if b == 6 {
            Some(RampTime::Ramp100us)
        } else if b == 7 {
            Some(RampTime::Ramp62us)
        } else if b == 8 {
            Some(RampTime::Ramp50us)
        } else if b == 9 {
            Some(RampTime::Ramp40us)
        } else if b == 10 {
            Some(RampTime::Ramp31us)
        } else if b == 11 {
            Some(RampTime::Ramp25us)
        } else if b == 12 {
            Some(RampTime::Ramp20us)
        } else if b == 13 {
            Some(RampTime::Ramp15us)
        } else if b == 14 {
            Some(RampTime::Ramp12us)
        } else if b == 15 {
            Some(RampTime::Ramp10us)
        } else {
            None
        }
    }

    pub fn bits(self) -> (b: u8)
        ensures
            b == self.spec_bits(),
            b < 16,
    {
        match self {
            RampTime::Ramp3400us => 0,
            RampTime::Ramp2000us => 1,
            RampTime::Ramp1000us => 2,
            RampTime::Ramp500us => 3,
            RampTime::Ramp250us => 4,
            RampTime::Ramp125us => 5,
            RampTime::Ramp100us => 6,
            RampTime::Ramp62us => 7,
            RampTime::Ramp50us => 8,
            RampTime::Ramp40us => 9,
            RampTime::Ramp31us => 10,
            RampTime::Ramp25us => 11,
            RampTime::Ramp20us => 12,
            RampTime::Ramp15us => 13,
            RampTime::Ramp12us => 14,
            RampTime::Ramp10us => 15,
        }
    }

    pub fn from_bits(b: u8) -> (r: Option<RampTime>)
        ensures
            r == Self::spec_from_bits(b),
    {
        if b == 0 {
            Some(RampTime::Ramp3400us)
        } else if b == 1 {
            Some(RampTime::Ramp2000us)
        } else if b == 2 {
            Some(RampTime::Ramp1000us)
        } else if b == 3 {
            Some(RampTime::Ramp500us)
        } else if b == 4 {
            Some(RampTime::Ramp250us)
        } else if b == 5 {
            Some(RampTime::Ramp125us)
        } else if b == 6 {
            Some(RampTime::Ramp100us)
        } else if b == 7 {
            Some(RampTime::Ramp62us)
        } else if b == 8 {
            Some(RampTime::Ramp50us)
        } else if b == 9 {
            Some(RampTime::Ramp40us)
        } else if b == 10 {
            Some(RampTime::Ramp31us)
        } else if b == 11 {
            Some(RampTime::Ramp25us)
        } else if b == 12 {
            Some(RampTime::Ramp20us)
        } else if b == 13 {
            Some(RampTime::Ramp15us)
        } else if b == 14 {
            Some(RampTime::Ramp12us)
        } else if b == 15 {
            Some(RampTime::Ramp10us)
        } else {
            None
        }
    }
}

/// Low-noise-amplifier gain selection.
///
/// Pattern `0b111` is reserved.
#[derive(Clone, Copy, PartialEq, Eq, Structural, Debug)]
pub enum LnaGainSelect {
    Agc,
    G1,
    G2,
    G3,
    G4,
    G5,
    G6,
}

impl LnaGainSelect {
    /// Chip-defined discriminant of each variant.
    pub open spec fn spec_bits(self) -> u8 {
        match self {
            LnaGainSelect::Agc => 0,
            LnaGainSelect::G1 => 1,
            LnaGainSelect::G2 => 2,
            LnaGainSelect::G3 => 3,
            LnaGainSelect::G4 => 4,
            LnaGainSelect::G5 => 5,
            LnaGainSelect::G6 => 6,
        }
    }

    /// Reverse lookup; the reserved pattern yields `None`.
    pub open spec fn spec_from_bits(b: u8) -> Option<LnaGainSelect> {
        if b == 0 {
            Some(LnaGainSelect::Agc)
        } else if b == 1 {
            Some(LnaGainSelect::G1)
        } else if b == 2 {
            Some(LnaGainSelect::G2)
        } else if b == 3 {
            Some(LnaGainSelect::G3)
        } else if b == 4 {
            Some(LnaGainSelect::G4)
        } else if b == 5 {
            Some(LnaGainSelect::G5)
        } else if b == 6 {
            Some(LnaGainSelect::G6)
        } else {
            None
        }
    }

    pub fn bits(self) -> (b: u8)
        ensures
            b == self.spec_bits(),
            b < 8,
    {
        match self {
            LnaGainSelect::Agc => 0,
            LnaGainSelect::G1 => 1,
            LnaGainSelect::G2 => 2,
            LnaGainSelect::G3 => 3,
            LnaGainSelect::G4 => 4,
            LnaGainSelect::G5 => 5,
            LnaGainSelect::G6 => 6,
        }
    }

    pub fn from_bits(b: u8) -> (r: Option<LnaGainSelect>)
        ensures
            r == Self::spec_from_bits(b),
    {
        if b == 0 {
            Some(LnaGainSelect::Agc)
        } else if b == 1 {
            Some(LnaGainSelect::G1)
        } else if b == 2 {
            Some(LnaGainSelect::G2)
        } else if b == 3 {
            Some(LnaGainSelect::G3)
        } else if b == 4 {
            Some(LnaGainSelect::G4)
        } else if b == 5 {
            Some(LnaGainSelect::G5)
        } else if b == 6 {
            Some(LnaGainSelect::G6)
        } else {
            None
        }
    }
}

/// Low-noise-amplifier input impedance.
#[derive(Clone, Copy, PartialEq, Eq, Structural, Debug)]
pub enum LnaZin {
    Zin50Ohm,
    Zin200Ohm,
}

impl LnaZin {
    /// Chip-defined discriminant of each variant.
    pub open spec fn spec_bits(self) -> u8 {
        match self {
            LnaZin::Zin50Ohm => 0,
            LnaZin::Zin200Ohm => 1,
        }
    }

    /// Reverse lookup; every one-bit pattern is declared.
    pub open spec fn spec_from_bits(b: u8) -> Option<LnaZin> {
        if b == 0 {
            Some(LnaZin::Zin50Ohm)
        } else if b == 1 {
            Some(LnaZin::Zin200Ohm)
        } else {
            None
        }
    }

    pub fn bits(self) -> (b: u8)
        ensures
            b == self.spec_bits(),
            b < 2,
    {
        match self {
            LnaZin::Zin50Ohm => 0,
            LnaZin::Zin200Ohm => 1,
        }
    }

    pub fn from_bits(b: u8) -> (r: Option<LnaZin>)
        ensures
            r == Self::spec_from_bits(b),
    {
        if b == 0 {
            Some(LnaZin::Zin50Ohm)
        } else if b == 1 {
            Some(LnaZin::Zin200Ohm)
        } else {
            None
        }
    }
}

/// Receiver channel filter bandwidth in FSK mode, in hertz.
///
/// The discriminants are the chip's mantissa/exponent codes, so they are
/// neither contiguous nor ordered; the eleven five-bit patterns outside the
/// table (`0x00`, `0x08`, `0x10` and `0x18` through `0x1F`) are reserved.
#[derive(Clone, Copy, PartialEq, Eq, Structural, Debug)]
pub enum Bandwidth {
    Bw2600,
    Bw3100,
    Bw3900,
    Bw5200,
    Bw6300,
    Bw7800,
    Bw10400,
    Bw12500,
    Bw15600,
    Bw20800,
    Bw25000,
    Bw31300,
    Bw41700,
    Bw50000,
    Bw62500,
    Bw83333,
    Bw100000,
    Bw125000,
    Bw166700,
    Bw200000,
    Bw250000,
}

impl Bandwidth {
    /// Chip-defined discriminant of each variant.
    pub open spec fn spec_bits(self) -> u8 {
        match self {
            Bandwidth::Bw2600 => 0x17,
            Bandwidth::Bw3100 => 0x0F,
            Bandwidth::Bw3900 => 0x07,
            Bandwidth::Bw5200 => 0x16,
            Bandwidth::Bw6300 => 0x0E,
            Bandwidth::Bw7800 => 0x06,
            Bandwidth::Bw10400 => 0x15,
            Bandwidth::Bw12500 => 0x0D,
            Bandwidth::Bw15600 => 0x05,
            Bandwidth::Bw20800 => 0x14,
            Bandwidth::Bw25000 => 0x0C,
            Bandwidth::Bw31300 => 0x04,
            Bandwidth::Bw41700 => 0x13,
            Bandwidth::Bw50000 => 0x0B,
            Bandwidth::Bw62500 => 0x03,
            Bandwidth::Bw83333 => 0x12,
            Bandwidth::Bw100000 => 0x0A,
            Bandwidth::Bw125000 => 0x02,
            Bandwidth::Bw166700 => 0x11,
            Bandwidth::Bw200000 => 0x09,
            Bandwidth::Bw250000 => 0x01,
        }
    }

    /// Reverse lookup; reserved patterns yield `None`.
    pub open spec fn spec_from_bits(b: u8) -> Option<Bandwidth> {
        if b == 0x17 {
            Some(Bandwidth::Bw2600)
        } else if b == 0x0F {
            Some(Bandwidth::Bw3100)
        } else if b == 0x07 {
            Some(Bandwidth::Bw3900)
        } else if b == 0x16 {
            Some(Bandwidth::Bw5200)
        } else if b == 0x0E {
            Some(Bandwidth::Bw6300)
        } else if b == 0x06 {
            Some(Bandwidth::Bw7800)
        } else if b == 0x15 {
            Some(Bandwidth::Bw10400)
        } else if b == 0x0D {
            Some(Bandwidth::Bw12500)
        } else if b == 0x05 {
            Some(Bandwidth::Bw15600)
        } else if b == 0x14 {
            Some(Bandwidth::Bw20800)
        } else if b == 0x0C {
            Some(Bandwidth::Bw25000)
        } else if b == 0x04 {
            Some(Bandwidth::Bw31300)
        } else if b == 0x13 {
            Some(Bandwidth::Bw41700)
        } else if b == 0x0B {
            Some(Bandwidth::Bw50000)
        } else if b == 0x03 {
            Some(Bandwidth::Bw62500)
        } else if b == 0x12 {
            Some(Bandwidth::Bw83333)
        } else if b == 0x0A {
            Some(Bandwidth::Bw100000)
        } else if b == 0x02 {
            Some(Bandwidth::Bw125000)
        } else if b == 0x11 {
            Some(Bandwidth::Bw166700)
        } else if b == 0x09 {
            Some(Bandwidth::Bw200000)
        } else if b == 0x01 {
            Some(Bandwidth::Bw250000)
        } else {
            None
        }
    }

    pub fn bits(self) -> (b: u8)
        ensures
            b == self.spec_bits(),
            b < 32,
    {
        match self {
            Bandwidth::Bw2600 => 0x17,
            Bandwidth::Bw3100 => 0x0F,
            Bandwidth::Bw3900 => 0x07,
            Bandwidth::Bw5200 => 0x16,
            Bandwidth::Bw6300 => 0x0E,
            Bandwidth::Bw7800 => 0x06,
            Bandwidth::Bw10400 => 0x15,
            Bandwidth::Bw12500 => 0x0D,
            Bandwidth::Bw15600 => 0x05,
            Bandwidth::Bw20800 => 0x14,
            Bandwidth::Bw25000 => 0x0C,
            Bandwidth::Bw31300 => 0x04,
            Bandwidth::Bw41700 => 0x13,
            Bandwidth::Bw50000 => 0x0B,
            Bandwidth::Bw62500 => 0x03,
            Bandwidth::Bw83333 => 0x12,
            Bandwidth::Bw100000 => 0x0A,
            Bandwidth::Bw125000 => 0x02,
            Bandwidth::Bw166700 => 0x11,
            Bandwidth::Bw200000 => 0x09,
            Bandwidth::Bw250000 => 0x01,
        }
    }

    pub fn from_bits(b: u8) -> (r: Option<Bandwidth>)
        ensures
            r == Self::spec_from_bits(b),
    {
        if b == 0x17 {
            Some(Bandwidth::Bw2600)
        } else if b == 0x0F {
            Some(Bandwidth::Bw3100)
        } else if b == 0x07 {
            Some(Bandwidth::Bw3900)
        } else if b == 0x16 {
            Some(Bandwidth::Bw5200)
        } else if b == 0x0E {
            Some(Bandwidth::Bw6300)
        } else if b == 0x06 {
            Some(Bandwidth::Bw7800)
        } else if b == 0x15 {
            Some(Bandwidth::Bw10400)
        } else if b == 0x0D {
            Some(Bandwidth::Bw12500)
        } else if b == 0x05 {
            Some(Bandwidth::Bw15600)
        } else if b == 0x14 {
            Some(Bandwidth::Bw20800)
        } else if b == 0x0C {
            Some(Bandwidth::Bw25000)
        } else if b == 0x04 {
            Some(Bandwidth::Bw31300)
        } else if b == 0x13 {
            Some(Bandwidth::Bw41700)
        } else if b == 0x0B {
            Some(Bandwidth::Bw50000)
        } else if b == 0x03 {
            Some(Bandwidth::Bw62500)
        } else if b == 0x12 {
            Some(Bandwidth::Bw83333)
        } else if b == 0x0A {
            Some(Bandwidth::Bw100000)
        } else if b == 0x02 {
            Some(Bandwidth::Bw125000)
        } else if b == 0x11 {
            Some(Bandwidth::Bw166700)
        } else if b == 0x09 {
            Some(Bandwidth::Bw200000)
        } else if b == 0x01 {
            Some(Bandwidth::Bw250000)
        } else {
            None
        }
    }
}

/// Cut-off frequency of the DC-offset canceller, as a fraction of the
/// receiver bandwidth.
///
/// All eight three-bit patterns are declared.
#[derive(Clone, Copy, PartialEq, Eq, Structural, Debug)]
pub enum DccFreq {
    Fc16,
    Fc8,
    Fc4,
    Fc2,
    Fc1,
    Fc05,
    Fc025,
    Fc0125,
}

impl DccFreq {
    /// Chip-defined discriminant of each variant.
    pub open spec fn spec_bits(self) -> u8 {
        match self {
            DccFreq::Fc16 => 0,
            DccFreq::Fc8 => 1,
            DccFreq::Fc4 => 2,
            DccFreq::Fc2 => 3,
            DccFreq::Fc1 => 4,
            DccFreq::Fc05 => 5,
            DccFreq::Fc025 => 6,
            DccFreq::Fc0125 => 7,
        }
    }

    /// Reverse lookup; total on three-bit patterns.
    pub open spec fn spec_from_bits(b: u8) -> Option<DccFreq> {
        if b == 0 {
            Some(DccFreq::Fc16)
        } else if b == 1 {
            Some(DccFreq::Fc8)
        } else if b == 2 {
            Some(DccFreq::Fc4)
        } else if b == 3 {
            Some(DccFreq::Fc2)
        } else if b == 4 {
            Some(DccFreq::Fc1)
        } else if b == 5 {
            Some(DccFreq::Fc05)
        } else if b == 6 {
            Some(DccFreq::Fc025)
        } else if b == 7 {
            Some(DccFreq::Fc0125)
        } else {
            None
        }
    }

    pub fn bits(self) -> (b: u8)
        ensures
            b == self.spec_bits(),
            b < 8,
    {
        match self {
            DccFreq::Fc16 => 0,
            DccFreq::Fc8 => 1,
            DccFreq::Fc4 => 2,
            DccFreq::Fc2 => 3,
            DccFreq::Fc1 => 4,
            DccFreq::Fc05 => 5,
            DccFreq::Fc025 => 6,
            DccFreq::Fc0125 => 7,
        }
    }

    pub fn from_bits(b: u8) -> (r: Option<DccFreq>)
        ensures
            r == Self::spec_from_bits(b),
    {
        if b == 0 {
            Some(DccFreq::Fc16)
        } else if b == 1 {
            Some(DccFreq::Fc8)
        } else if b == 2 {
            Some(DccFreq::Fc4)
        } else if b == 3 {
            Some(DccFreq::Fc2)
        } else if b == 4 {
            Some(DccFreq::Fc1)
        } else if b == 5 {
            Some(DccFreq::Fc05)
        } else if b == 6 {
            Some(DccFreq::Fc025)
        } else if b == 7 {
            Some(DccFreq::Fc0125)
        } else {
            None
        }
    }
}

/// Condition for the FIFO to start filling in receive mode.
#[derive(Clone, Copy, PartialEq, Eq, Structural, Debug)]
pub enum FifoFillCondition {
    SyncAddressInterrupt,
    FifoFillConditionBit,
}

impl FifoFillCondition {
    /// Chip-defined discriminant of each variant.
    pub open spec fn spec_bits(self) -> u8 {
        match self {
            FifoFillCondition::SyncAddressInterrupt => 0,
            FifoFillCondition::FifoFillConditionBit => 1,
        }
    }

    /// Reverse lookup; every one-bit pattern is declared.
    pub open spec fn spec_from_bits(b: u8) -> Option<FifoFillCondition> {
        if b == 0 {
            Some(FifoFillCondition::SyncAddressInterrupt)
        } else if b == 1 {
            Some(FifoFillCondition::FifoFillConditionBit)
        } else {
            None
        }
    }

    pub fn bits(self) -> (b: u8)
        ensures
            b == self.spec_bits(),
            b < 2,
    {
        match self {
            FifoFillCondition::SyncAddressInterrupt => 0,
            FifoFillCondition::FifoFillConditionBit => 1,
        }
    }

    pub fn from_bits(b: u8) -> (r: Option<FifoFillCondition>)
        ensures
            r == Self::spec_from_bits(b),
    {
        if b == 0 {
            Some(FifoFillCondition::SyncAddressInterrupt)
        } else if b == 1 {
            Some(FifoFillCondition::FifoFillConditionBit)
        } else {
            None
        }
    }
}

/// Node-address filtering applied to received packets.
///
/// Pattern `0b11` is reserved.
#[derive(Clone, Copy, PartialEq, Eq, Structural, Debug)]
pub enum AddressFilter {
    Off,
    MatchNode,
    MatchNodeOrBroadcast,
}

impl AddressFilter {
    /// Chip-defined discriminant of each variant.
    pub open spec fn spec_bits(self) -> u8 {
        match self {
            AddressFilter::Off => 0,
            AddressFilter::MatchNode => 1,
            AddressFilter::MatchNodeOrBroadcast => 2,
        }
    }

    /// Reverse lookup; the reserved pattern yields `None`.
    pub open spec fn spec_from_bits(b: u8) -> Option<AddressFilter> {
        if b == 0 {
            Some(AddressFilter::Off)
        } else if b == 1 {
            Some(AddressFilter::MatchNode)
        } else if b == 2 {
            Some(AddressFilter::MatchNodeOrBroadcast)
        } else {
            None
        }
    }

    pub fn bits(self) -> (b: u8)
        ensures
            b == self.spec_bits(),
            b < 4,
    {
        match self {
            AddressFilter::Off => 0,
            AddressFilter::MatchNode => 1,
            AddressFilter::MatchNodeOrBroadcast => 2,
        }
    }

    pub fn from_bits(b: u8) -> (r: Option<AddressFilter>)
        ensures
            r == Self::spec_from_bits(b),
    {
        if b == 0 {
            Some(AddressFilter::Off)
        } else if b == 1 {
            Some(AddressFilter::MatchNode)
        } else if b == 2 {
            Some(AddressFilter::MatchNodeOrBroadcast)
        } else {
            None
        }
    }
}

/// Whether the FIFO is cleared automatically when a CRC check fails.
///
/// The chip encodes "clear on" as 0, so the declared order is `On`, `Off`.
#[derive(Clone, Copy, PartialEq, Eq, Structural, Debug)]
pub enum CrcAutoClear {
    On,
    Off,
}

impl CrcAutoClear {
    /// Chip-defined discriminant of each variant.
    pub open spec fn spec_bits(self) -> u8 {
        match self {
            CrcAutoClear::On => 0,
            CrcAutoClear::Off => 1,
        }
    }

    /// Reverse lookup; every one-bit pattern is declared.
    pub open spec fn spec_from_bits(b: u8) -> Option<CrcAutoClear> {
        if b == 0 {
            Some(CrcAutoClear::On)
        } else if b == 1 {
            Some(CrcAutoClear::Off)
        } else {
            None
        }
    }

    pub fn bits(self) -> (b: u8)
        ensures
            b == self.spec_bits(),
            b < 2,
    {
        match self {
            CrcAutoClear::On => 0,
            CrcAutoClear::Off => 1,
        }
    }

    pub fn from_bits(b: u8) -> (r: Option<CrcAutoClear>)
        ensures
            r == Self::spec_from_bits(b),
    {
        if b == 0 {
            Some(CrcAutoClear::On)
        } else if b == 1 {
            Some(CrcAutoClear::Off)
        } else {
            None
        }
    }
}

/// Whether a CRC is appended on transmit and checked on receive.
#[derive(Clone, Copy, PartialEq, Eq, Structural, Debug)]
pub enum Crc {
    Off,
    On,
}

impl Crc {
    /// Chip-defined discriminant of each variant.
    pub open spec fn spec_bits(self) -> u8 {
        match self {
            Crc::Off => 0,
            Crc::On => 1,
        }
    }

    /// Reverse lookup; every one-bit pattern is declared.
    pub open spec fn spec_from_bits(b: u8) -> Option<Crc> {
        if b == 0 {
            Some(Crc::Off)
        } else if b == 1 {
            Some(Crc::On)
        } else {
            None
        }
    }

    pub fn bits(self) -> (b: u8)
        ensures
            b == self.spec_bits(),
            b < 2,
    {
        match self {
            Crc::Off => 0,
            Crc::On => 1,
        }
    }

    pub fn from_bits(b: u8) -> (r: Option<Crc>)
        ensures
            r == Self::spec_from_bits(b),
    {
        if b == 0 {
            Some(Crc::Off)
        } else if b == 1 {
            Some(Crc::On)
        } else {
            None
        }
    }
}

/// DC-free encoding applied to the payload.
///
/// Pattern `0b11` is reserved.
#[derive(Clone, Copy, PartialEq, Eq, Structural, Debug)]
pub enum DcFree {
    Off,
    Manchester,
    Whitening,
}

impl DcFree {
    /// Chip-defined discriminant of each variant.
    pub open spec fn spec_bits(self) -> u8 {
        match self {
            DcFree::Off => 0,
            DcFree::Manchester => 1,
            DcFree::Whitening => 2,
        }
    }

    /// Reverse lookup; the reserved pattern yields `None`.
    pub open spec fn spec_from_bits(b: u8) -> Option<DcFree> {
        if b == 0 {
            Some(DcFree::Off)
        } else if b == 1 {
            Some(DcFree::Manchester)
        } else if b == 2 {
            Some(DcFree::Whitening)
        } else {
            None
        }
    }

    pub fn bits(self) -> (b: u8)
        ensures
            b == self.spec_bits(),
            b < 4,
    {
        match self {
            DcFree::Off => 0,
            DcFree::Manchester => 1,
            DcFree::Whitening => 2,
        }
    }

    pub fn from_bits(b: u8) -> (r: Option<DcFree>)
        ensures
            r == Self::spec_from_bits(b),
    {
        if b == 0 {
            Some(DcFree::Off)
        } else if b == 1 {
            Some(DcFree::Manchester)
        } else if b == 2 {
            Some(DcFree::Whitening)
        } else {
            None
        }
    }
}

/// Whether packets carry a fixed or a variable length.
#[derive(Clone, Copy, PartialEq, Eq, Structural, Debug)]
pub enum PacketFormat {
    Fixed,
    Variable,
}

impl PacketFormat {
    /// Chip-defined discriminant of each variant.
    pub open spec fn spec_bits(self) -> u8 {
        match self {
            PacketFormat::Fixed => 0,
            PacketFormat::Variable => 1,
        }
    }

    /// Reverse lookup; every one-bit pattern is declared.
    pub open spec fn spec_from_bits(b: u8) -> Option<PacketFormat> {
        if b == 0 {
            Some(PacketFormat::Fixed)
        } else if b == 1 {
            Some(PacketFormat::Variable)
        } else {
            None
        }
    }

    pub fn bits(self) -> (b: u8)
        ensures
            b == self.spec_bits(),
            b < 2,
    {
        match self {
            PacketFormat::Fixed => 0,
            PacketFormat::Variable => 1,
        }
    }

    pub fn from_bits(b: u8) -> (r: Option<PacketFormat>)
        ensures
            r == Self::spec_from_bits(b),
    {
        if b == 0 {
            Some(PacketFormat::Fixed)
        } else if b == 1 {
            Some(PacketFormat::Variable)
        } else {
            None
        }
    }
}

/// Condition for the transmitter to start sending the FIFO contents.
#[derive(Clone, Copy, PartialEq, Eq, Structural, Debug)]
pub enum TxStartCondition {
    /// The number of bytes in the FIFO exceeds the FIFO threshold.
    FifoLevel,
    /// At least one byte is in the FIFO.
    FifoNotEmpty,
}

impl TxStartCondition {
    /// Chip-defined discriminant of each variant.
    pub open spec fn spec_bits(self) -> u8 {
        match self {
            TxStartCondition::FifoLevel => 0,
            TxStartCondition::FifoNotEmpty => 1,
        }
    }

    /// Reverse lookup; every one-bit pattern is declared.
    pub open spec fn spec_from_bits(b: u8) -> Option<TxStartCondition> {
        if b == 0 {
            Some(TxStartCondition::FifoLevel)
        } else if b == 1 {
            Some(TxStartCondition::FifoNotEmpty)
        } else {
            None
        }
    }

    pub fn bits(self) -> (b: u8)
        ensures
            b == self.spec_bits(),
            b < 2,
    {
        match self {
            TxStartCondition::FifoLevel => 0,
            TxStartCondition::FifoNotEmpty => 1,
        }
    }

    pub fn from_bits(b: u8) -> (r: Option<TxStartCondition>)
        ensures
            r == Self::spec_from_bits(b),
    {
        if b == 0 {
            Some(TxStartCondition::FifoLevel)
        } else if b == 1 {
            Some(TxStartCondition::FifoNotEmpty)
        } else {
            None
        }
    }
}

/// Whether payloads are AES-128 encrypted and decrypted by the chip.
#[derive(Clone, Copy, PartialEq, Eq, Structural, Debug)]
pub enum Aes {
    Off,
    On,
}

impl Aes {
    /// Chip-defined discriminant of each variant.
    pub open spec fn spec_bits(self) -> u8 {
        match self {
            Aes::Off => 0,
            Aes::On => 1,
        }
    }

    /// Reverse lookup; every one-bit pattern is declared.
    pub open spec fn spec_from_bits(b: u8) -> Option<Aes> {
        if b == 0 {
            Some(Aes::Off)
        } else if b == 1 {
            Some(Aes::On)
        } else {
            None
        }
    }

    pub fn bits(self) -> (b: u8)
        ensures
            b == self.spec_bits(),
            b < 2,
    {
        match self {
            Aes::Off => 0,
            Aes::On => 1,
        }
    }

    pub fn from_bits(b: u8) -> (r: Option<Aes>)
        ensures
            r == Self::spec_from_bits(b),
    {
        if b == 0 {
            Some(Aes::Off)
        } else if b == 1 {
            Some(Aes::On)
        } else {
            None
        }
    }
}

/// Whether the receiver restarts automatically after a packet is read.
#[derive(Clone, Copy, PartialEq, Eq, Structural, Debug)]
pub enum AutoRxRestart {
    Off,
    On,
}

impl AutoRxRestart {
    /// Chip-defined discriminant of each variant.
    pub open spec fn spec_bits(self) -> u8 {
        match self {
            AutoRxRestart::Off => 0,
            AutoRxRestart::On => 1,
        }
    }

    /// Reverse lookup; every one-bit pattern is declared.
    pub open spec fn spec_from_bits(b: u8) -> Option<AutoRxRestart> {
        if b == 0 {
            Some(AutoRxRestart::Off)
        } else if b == 1 {
            Some(AutoRxRestart::On)
        } else {
            None
        }
    }

    pub fn bits(self) -> (b: u8)
        ensures
            b == self.spec_bits(),
            b < 2,
    {
        match self {
            AutoRxRestart::Off => 0,
            AutoRxRestart::On => 1,
        }
    }

    pub fn from_bits(b: u8) -> (r: Option<AutoRxRestart>)
        ensures
            r == Self::spec_from_bits(b),
    {
        if b == 0 {
            Some(AutoRxRestart::Off)
        } else if b == 1 {
            Some(AutoRxRestart::On)
        } else {
            None
        }
    }
}

} // verus!
