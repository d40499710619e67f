//! Operating-mode, modulation, frequency and AFC registers.
//!
//! Single-byte registers encode to one `u8`; the bit-rate and
//! frequency-deviation registers encode their 16-bit value, and the carrier
//! frequency its 24-bit value, most significant byte first, matching the
//! chip's ascending register addresses.  The listen register spans three
//! bytes in bus-address order.

use vstd::prelude::*;

use crate::DecodeError;
use crate::Reg;
use crate::bit;
use crate::catalog::RegisterKind;
use crate::catalog::address_of;
use crate::fields::DataMode;
use crate::fields::ListenBaseDuration;
use crate::fields::ListenCriteria;
use crate::fields::ListenEnd;
use crate::fields::ModemMode;
use crate::fields::ModulationType;

verus! {

/// Operating-mode register: sequencer, listen mode and transceiver mode.
///
/// One byte: reserved filler in bits 0-1, the modem mode in bits 2-4,
/// listen-abort in bit 5, listen-on in bit 6 and sequencer-off in bit 7.
#[derive(Clone, Copy, PartialEq, Eq, Structural, Debug)]
pub struct OpMode {
    /// Hardware-reserved low bits, preserved verbatim across decode/encode.
    pub reserved: u8,
    pub modem_mode: ModemMode,
    pub listen_abort: bool,
    pub listen_on: bool,
    pub sequencer_off: bool,
}

impl OpMode {
    /// Every field value fits its declared bit width.
    pub open spec fn wf(self) -> bool {
        self.reserved < 4
    }

    /// Canonical single-byte form.
    pub open spec fn spec_encode(self) -> u8 {
        (self.reserved as int + self.modem_mode.spec_bits() as int * 4 + bit(self.listen_abort)
            * 32 + bit(self.listen_on) * 64 + bit(self.sequencer_off) * 128) as u8
    }

    /// Field extraction from the canonical byte; `None` when the mode bits
    /// hold a reserved pattern.
    pub open spec fn spec_decode(b: u8) -> Option<OpMode> {
        match ModemMode::spec_from_bits((((b as int) / 4) % 8) as u8) {
            Some(mm) => Some(
                OpMode {
                    reserved: ((b as int) % 4) as u8,
                    modem_mode: mm,
                    listen_abort: ((b as int) / 32) % 2 == 1,
                    listen_on: ((b as int) / 64) % 2 == 1,
                    sequencer_off: ((b as int) / 128) % 2 == 1,
                },
            ),
            None => None,
        }
    }

    /// Field-by-field construction; the reserved filler defaults to zero.
    pub fn new(
        modem_mode: ModemMode,
        listen_abort: bool,
        listen_on: bool,
        sequencer_off: bool,
    ) -> (r: OpMode)
        ensures
            r == (OpMode { reserved: 0, modem_mode, listen_abort, listen_on, sequencer_off }),
            r.wf(),
    {
        OpMode { reserved: 0, modem_mode, listen_abort, listen_on, sequencer_off }
    }

    /// Pack the fields into the register's one-byte bus form.
    pub fn encode(&self) -> (b: u8)
        requires
            self.wf(),
        ensures
            b == self.spec_encode(),
    {
        let m: u8 = self.modem_mode.bits();
        let mut b: u8 = self.reserved + m * 4;
        if self.listen_abort {
            b = b + 32;
        }
        if self.listen_on {
            b = b + 64;
        }
        if self.sequencer_off {
            b = b + 128;
        }
        b
    }

    /// Unpack the register's bus byte; a reserved mode pattern is rejected.
    pub fn decode(b: u8) -> (r: Result<OpMode, DecodeError>)
        ensures
            (r is Ok) == (Self::spec_decode(b) is Some),
            r matches Ok(v) ==> Self::spec_decode(b) == Some(v) && v.wf(),
            r matches Ok(v) ==> v.spec_encode() == b,
            r matches Err(e) ==> e == DecodeError::ReservedDiscriminant,
    {
        match ModemMode::from_bits((b / 4) % 8) {
            Some(mm) => Ok(
                OpMode {
                    reserved: b % 4,
                    modem_mode: mm,
                    listen_abort: (b / 32) % 2 == 1,
                    listen_on: (b / 64) % 2 == 1,
                    sequencer_off: (b / 128) % 2 == 1,
                },
            ),
            None => Err(DecodeError::ReservedDiscriminant),
        }
    }

    /// Round trip: decoding the encoding of any well-formed value yields the
    /// value back, reserved filler included.
    pub proof fn lemma_round_trip(v: OpMode)
        requires
            v.wf(),
        ensures
            Self::spec_decode(v.spec_encode()) == Some(v),
    {
    }
}

impl Default for OpMode {
    /// The all-zero register: every field at its zero bit pattern.
    fn default() -> (r: OpMode)
        ensures
            r == (OpMode {
                reserved: 0,
                modem_mode: ModemMode::Sleep,
                listen_abort: false,
                listen_on: false,
                sequencer_off: false,
            }),
            r.wf(),
            r.spec_encode() == 0,
    {
        OpMode {
            reserved: 0,
            modem_mode: ModemMode::Sleep,
            listen_abort: false,
            listen_on: false,
            sequencer_off: false,
        }
    }
}

impl Reg for OpMode {
    open spec fn spec_address() -> u8 {
        address_of(RegisterKind::OpMode)
    }

    fn address() -> u8 {
        0x01
    }
}

/// Data-modulation register: modulation scheme and data processing mode.
///
/// One byte: the modulation type in bits 0-4, the data mode in bits 5-6 and
/// unused filler in bit 7.
#[derive(Clone, Copy, PartialEq, Eq, Structural, Debug)]
pub struct DataModulation {
    pub mod_type: ModulationType,
    pub mode: DataMode,
    /// Hardware-unused high bit, preserved verbatim across decode/encode.
    pub unused: bool,
}

impl DataModulation {
    /// Every field value fits its declared bit width.
    pub open spec fn wf(self) -> bool {
        true
    }

    /// Canonical single-byte form.
    pub open spec fn spec_encode(self) -> u8 {
        (self.mod_type.spec_bits() as int + self.mode.spec_bits() as int * 32 + bit(self.unused)
            * 128) as u8
    }

    /// Field extraction from the canonical byte; `None` when either
    /// enumerated field holds a reserved pattern.
    pub open spec fn spec_decode(b: u8) -> Option<DataModulation> {
        match (
            ModulationType::spec_from_bits(((b as int) % 32) as u8),
            DataMode::spec_from_bits((((b as int) / 32) % 4) as u8),
        ) {
            (Some(mt), Some(dm)) => Some(
                DataModulation { mod_type: mt, mode: dm, unused: ((b as int) / 128) % 2 == 1 },
            ),
            _ => None,
        }
    }

    /// Field-by-field construction; the unused filler defaults to zero.
    pub fn new(mod_type: ModulationType, mode: DataMode) -> (r: DataModulation)
        ensures
            r == (DataModulation { mod_type, mode, unused: false }),
            r.wf(),
    {
        DataModulation { mod_type, mode, unused: false }
    }

    /// Pack the fields into the register's one-byte bus form.
    pub fn encode(&self) -> (b: u8)
        requires
            self.wf(),
        ensures
            b == self.spec_encode(),
    {
        let mt: u8 = self.mod_type.bits();
        let dm: u8 = self.mode.bits();
        let mut b: u8 = mt + dm * 32;
        if self.unused {
            b = b + 128;
        }
        b
    }

    /// Unpack the register's bus byte; a reserved modulation or data-mode
    /// pattern is rejected.
    pub fn decode(b: u8) -> (r: Result<DataModulation, DecodeError>)
        ensures
            (r is Ok) == (Self::spec_decode(b) is Some),
            r matches Ok(v) ==> Self::spec_decode(b) == Some(v) && v.wf(),
            r matches Ok(v) ==> v.spec_encode() == b,
            r matches Err(e) ==> e == DecodeError::ReservedDiscriminant,
    {
        match (ModulationType::from_bits(b % 32), DataMode::from_bits((b / 32) % 4)) {
            (Some(mt), Some(dm)) => Ok(
                DataModulation { mod_type: mt, mode: dm, unused: (b / 128) % 2 == 1 },
            ),
            _ => Err(DecodeError::ReservedDiscriminant),
        }
    }

    /// Round trip: decoding the encoding of any well-formed value yields the
    /// value back, unused filler included.
    pub proof fn lemma_round_trip(v: DataModulation)
        requires
            v.wf(),
        ensures
            Self::spec_decode(v.spec_encode()) == Some(v),
    {
    }
}

impl Default for DataModulation {
    /// The all-zero register: every field at its zero bit pattern.
    fn default() -> (r: DataModulation)
        ensures
            r == (DataModulation {
            mod_type: ModulationType::Fsk,
            mode: DataMode::Packet,
            unused: false,
            }),
            r.wf(),
            r.spec_encode() == 0,
    {
        DataModulation {
            mod_type: ModulationType::Fsk,
            mode: DataMode::Packet,
            unused: false,
        }
    }
}

impl Reg for DataModulation {
    open spec fn spec_address() -> u8 {
        address_of(RegisterKind::DataModulation)
    }

    fn address() -> u8 {
        0x02
    }
}

/// Bit-rate register: the 16-bit bit-rate divider.
///
/// Two bytes, most significant first, matching the chip's register order.
#[derive(Clone, Copy, PartialEq, Eq, Structural, Debug)]
pub struct Bitrate {
    pub bitrate: u16,
}

impl Bitrate {
    /// Every field value fits its declared bit width.
    pub open spec fn wf(self) -> bool {
        true
    }

    /// Canonical two-byte big-endian form.
    pub open spec fn spec_encode(self) -> Seq<u8> {
        seq![((self.bitrate as int) / 256) as u8, ((self.bitrate as int) % 256) as u8]
    }

    /// Field extraction from the canonical bytes; total.
    pub open spec fn spec_decode(b: Seq<u8>) -> Option<Bitrate>
        recommends
            b.len() == 2,
    {
        Some(Bitrate { bitrate: (b[0] as int * 256 + b[1] as int) as u16 })
    }

    /// Pack the field into the register's two-byte bus form.
    pub fn encode(&self) -> (r: [u8; 2])
        ensures
            r@ == self.spec_encode(),
            r@.len() == 2,
    {
        [(self.bitrate / 256) as u8, (self.bitrate % 256) as u8]
    }

    /// Unpack the register's bus bytes; never fails.
    pub fn decode(b: [u8; 2]) -> (r: Result<Bitrate, DecodeError>)
        ensures
            r matches Ok(v) && Self::spec_decode(b@) == Some(v) && v.wf() && v.spec_encode() == b@,
    {
        Ok(Bitrate { bitrate: (b[0] as u16) * 256 + (b[1] as u16) })
    }

    /// Round trip: decoding the encoding of any value yields the value back.
    pub proof fn lemma_round_trip(v: Bitrate)
        requires
            v.wf(),
        ensures
            Self::spec_decode(v.spec_encode()) == Some(v),
    {
    }
}

impl Default for Bitrate {
    /// The all-zero register: every field at its zero bit pattern.
    fn default() -> (r: Bitrate)
        ensures
            r == (Bitrate {
            bitrate: 0,
            }),
            r.wf(),
    {
        Bitrate {
            bitrate: 0,
        }
    }
}

impl Reg for Bitrate {
    open spec fn spec_address() -> u8 {
        address_of(RegisterKind::Bitrate)
    }

    fn address() -> u8 {
        0x03
    }
}

/// Frequency-deviation register: the 16-bit FSK deviation setting.
///
/// Two bytes, most significant first.  `FreqDev` is a historical second
/// name for the same hardware register.
#[derive(Clone, Copy, PartialEq, Eq, Structural, Debug)]
pub struct Fdev {
    pub freq_dev: u16,
}

impl Fdev {
    /// Every field value fits its declared bit width.
    pub open spec fn wf(self) -> bool {
        true
    }

    /// Canonical two-byte big-endian form.
    pub open spec fn spec_encode(self) -> Seq<u8> {
        seq![((self.freq_dev as int) / 256) as u8, ((self.freq_dev as int) % 256) as u8]
    }

    /// Field extraction from the canonical bytes; total.
    pub open spec fn spec_decode(b: Seq<u8>) -> Option<Fdev>
        recommends
            b.len() == 2,
    {
        Some(Fdev { freq_dev: (b[0] as int * 256 + b[1] as int) as u16 })
    }

    /// Pack the field into the register's two-byte bus form.
    pub fn encode(&self) -> (r: [u8; 2])
        ensures
            r@ == self.spec_encode(),
            r@.len() == 2,
    {
        [(self.freq_dev / 256) as u8, (self.freq_dev % 256) as u8]
    }

    /// Unpack the register's bus bytes; never fails.
    pub fn decode(b: [u8; 2]) -> (r: Result<Fdev, DecodeError>)
        ensures
            r matches Ok(v) && Self::spec_decode(b@) == Some(v) && v.wf() && v.spec_encode() == b@,
    {
        Ok(Fdev { freq_dev: (b[0] as u16) * 256 + (b[1] as u16) })
    }

    /// Round trip: decoding the encoding of any value yields the value back.
    pub proof fn lemma_round_trip(v: Fdev)
        requires
            v.wf(),
        ensures
            Self::spec_decode(v.spec_encode()) == Some(v),
    {
    }
}

impl Default for Fdev {
    /// The all-zero register: every field at its zero bit pattern.
    fn default() -> (r: Fdev)
        ensures
            r == (Fdev {
            freq_dev: 0,
            }),
            r.wf(),
    {
        Fdev {
            freq_dev: 0,
        }
    }
}

impl Reg for Fdev {
    open spec fn spec_address() -> u8 {
        address_of(RegisterKind::Fdev)
    }

    fn address() -> u8 {
        0x05
    }
}

/// Historical alias of [`Fdev`]: the same frequency-deviation register under
/// its older name, kept so that existing callers of either name carry over.
#[derive(Clone, Copy, PartialEq, Eq, Structural, Debug)]
pub struct FreqDev {
    pub freq_dev: u16,
}

impl FreqDev {
    /// Every field value fits its declared bit width.
    pub open spec fn wf(self) -> bool {
        true
    }

    /// Canonical two-byte big-endian form.
    pub open spec fn spec_encode(self) -> Seq<u8> {
        seq![((self.freq_dev as int) / 256) as u8, ((self.freq_dev as int) % 256) as u8]
    }

    /// Field extraction from the canonical bytes; total.
    pub open spec fn spec_decode(b: Seq<u8>) -> Option<FreqDev>
        recommends
            b.len() == 2,
    {
        Some(FreqDev { freq_dev: (b[0] as int * 256 + b[1] as int) as u16 })
    }

    /// Pack the field into the register's two-byte bus form.
    pub fn encode(&self) -> (r: [u8; 2])
        ensures
            r@ == self.spec_encode(),
            r@.len() == 2,
    {
        [(self.freq_dev / 256) as u8, (self.freq_dev % 256) as u8]
    }

    /// Unpack the register's bus bytes; never fails.
    pub fn decode(b: [u8; 2]) -> (r: Result<FreqDev, DecodeError>)
        ensures
            r matches Ok(v) && Self::spec_decode(b@) == Some(v) && v.wf() && v.spec_encode() == b@,
    {
        Ok(FreqDev { freq_dev: (b[0] as u16) * 256 + (b[1] as u16) })
    }

    /// Round trip: decoding the encoding of any value yields the value back.
    pub proof fn lemma_round_trip(v: FreqDev)
        requires
            v.wf(),
        ensures
            Self::spec_decode(v.spec_encode()) == Some(v),
    {
    }
}

impl Default for FreqDev {
    /// The all-zero register: every field at its zero bit pattern.
    fn default() -> (r: FreqDev)
        ensures
            r == (FreqDev {
            freq_dev: 0,
            }),
            r.wf(),
    {
        FreqDev {
            freq_dev: 0,
        }
    }
}

impl Reg for FreqDev {
    open spec fn spec_address() -> u8 {
        address_of(RegisterKind::FreqDev)
    }

    fn address() -> u8 {
        0x05
    }
}

/// Carrier-frequency register: the 24-bit frequency word.
///
/// Three bytes, most significant first — this ordering tunes the radio and
/// must match the chip's ascending register addresses exactly.
#[derive(Clone, Copy, PartialEq, Eq, Structural, Debug)]
pub struct CarrierFreq {
    pub freq: u32,
}

impl CarrierFreq {
    /// Every field value fits its declared bit width: the frequency word is
    /// 24 bits wide.
    pub open spec fn wf(self) -> bool {
        self.freq < 0x1000000
    }

    /// Canonical three-byte big-endian form.
    pub open spec fn spec_encode(self) -> Seq<u8> {
        seq![
            ((self.freq as int) / 65536) as u8,
            (((self.freq as int) / 256) % 256) as u8,
            ((self.freq as int) % 256) as u8,
        ]
    }

    /// Field extraction from the canonical bytes; total.
    pub open spec fn spec_decode(b: Seq<u8>) -> Option<CarrierFreq>
        recommends
            b.len() == 3,
    {
        Some(CarrierFreq { freq: (b[0] as int * 65536 + b[1] as int * 256 + b[2] as int) as u32 })
    }

    /// Pack the field into the register's three-byte bus form.
    pub fn encode(&self) -> (r: [u8; 3])
        requires
            self.wf(),
        ensures
            r@ == self.spec_encode(),
            r@.len() == 3,
    {
        [(self.freq / 65536) as u8, ((self.freq / 256) % 256) as u8, (self.freq % 256) as u8]
    }

    /// Unpack the register's bus bytes; never fails.
    pub fn decode(b: [u8; 3]) -> (r: Result<CarrierFreq, DecodeError>)
        ensures
            r matches Ok(v) && Self::spec_decode(b@) == Some(v) && v.wf() && v.spec_encode() == b@,
    {
        Ok(CarrierFreq { freq: (b[0] as u32) * 65536 + (b[1] as u32) * 256 + (b[2] as u32) })
    }

    /// Round trip: decoding the encoding of any well-formed value yields the
    /// value back.
    pub proof fn lemma_round_trip(v: CarrierFreq)
        requires
            v.wf(),
        ensures
            Self::spec_decode(v.spec_encode()) == Some(v),
    {
    }
}

impl Default for CarrierFreq {
    /// The all-zero register: every field at its zero bit pattern.
    fn default() -> (r: CarrierFreq)
        ensures
            r == (CarrierFreq {
            freq: 0,
            }),
            r.wf(),
    {
        CarrierFreq {
            freq: 0,
        }
    }
}

impl Reg for CarrierFreq {
    open spec fn spec_address() -> u8 {
        address_of(RegisterKind::CarrierFreq)
    }

    fn address() -> u8 {
        0x07
    }
}

/// RC-oscillator calibration register.
///
/// One byte: unused filler in bits 0-5, calibration-done in bit 6 and
/// calibration-start in bit 7.
#[derive(Clone, Copy, PartialEq, Eq, Structural, Debug)]
pub struct Oscillator {
    /// Hardware-unused low bits, preserved verbatim across decode/encode.
    pub unused: u8,
    pub rc_cal_done: bool,
    pub rc_cal_start: bool,
}

impl Oscillator {
    /// Every field value fits its declared bit width.
    pub open spec fn wf(self) -> bool {
        self.unused < 64
    }

    /// Canonical single-byte form.
    pub open spec fn spec_encode(self) -> u8 {
        (self.unused as int + bit(self.rc_cal_done) * 64 + bit(self.rc_cal_start) * 128) as u8
    }

    /// Field extraction from the canonical byte; total.
    pub open spec fn spec_decode(b: u8) -> Option<Oscillator> {
        Some(
            Oscillator {
                unused: ((b as int) % 64) as u8,
                rc_cal_done: ((b as int) / 64) % 2 == 1,
                rc_cal_start: ((b as int) / 128) % 2 == 1,
            },
        )
    }

    /// Field-by-field construction; the unused filler defaults to zero.
    pub fn new(rc_cal_done: bool, rc_cal_start: bool) -> (r: Oscillator)
        ensures
            r == (Oscillator { unused: 0, rc_cal_done, rc_cal_start }),
            r.wf(),
    {
        Oscillator { unused: 0, rc_cal_done, rc_cal_start }
    }

    /// Pack the fields into the register's one-byte bus form.
    pub fn encode(&self) -> (b: u8)
        requires
            self.wf(),
        ensures
            b == self.spec_encode(),
    {
        let mut b: u8 = self.unused;
        if self.rc_cal_done {
            b = b + 64;
        }
        if self.rc_cal_start {
            b = b + 128;
        }
        b
    }

    /// Unpack the register's bus byte; never fails.
    pub fn decode(b: u8) -> (r: Result<Oscillator, DecodeError>)
        ensures
            r matches Ok(v) && Self::spec_decode(b) == Some(v) && v.wf() && v.spec_encode() == b,
    {
        Ok(
            Oscillator {
                unused: b % 64,
                rc_cal_done: (b / 64) % 2 == 1,
                rc_cal_start: (b / 128) % 2 == 1,
            },
        )
    }

    /// Round trip: decoding the encoding of any well-formed value yields the
    /// value back, unused filler included.
    pub proof fn lemma_round_trip(v: Oscillator)
        requires
            v.wf(),
        ensures
            Self::spec_decode(v.spec_encode()) == Some(v),
    {
    }
}

impl Default for Oscillator {
    /// The all-zero register: every field at its zero bit pattern.
    fn default() -> (r: Oscillator)
        ensures
            r == (Oscillator {
            unused: 0,
            rc_cal_done: false,
            rc_cal_start: false,
            }),
            r.wf(),
            r.spec_encode() == 0,
    {
        Oscillator {
            unused: 0,
            rc_cal_done: false,
            rc_cal_start: false,
        }
    }
}

impl Reg for Oscillator {
    open spec fn spec_address() -> u8 {
        address_of(RegisterKind::Oscillator)
    }

    fn address() -> u8 {
        0x0A
    }
}

/// AFC-control register: the improved AFC routine switch.
///
/// One byte: unused filler in bits 0-4, low-beta-on in bit 5 and more
/// unused filler in bits 6-7.
#[derive(Clone, Copy, PartialEq, Eq, Structural, Debug)]
pub struct AfcControl {
    /// Hardware-unused low bits, preserved verbatim across decode/encode.
    pub unused: u8,
    pub low_beta_on: bool,
    /// Hardware-unused high bits, preserved verbatim across decode/encode.
    pub unused2: u8,
}

impl AfcControl {
    /// Every field value fits its declared bit width.
    pub open spec fn wf(self) -> bool {
        self.unused < 32 && self.unused2 < 4
    }

    /// Canonical single-byte form.
    pub open spec fn spec_encode(self) -> u8 {
        (self.unused as int + bit(self.low_beta_on) * 32 + self.unused2 as int * 64) as u8
    }

    /// Field extraction from the canonical byte; total.
    pub open spec fn spec_decode(b: u8) -> Option<AfcControl> {
        Some(
            AfcControl {
                unused: ((b as int) % 32) as u8,
                low_beta_on: ((b as int) / 32) % 2 == 1,
                unused2: (((b as int) / 64) % 4) as u8,
            },
        )
    }

    /// Field-by-field construction; the unused filler defaults to zero.
    pub fn new(low_beta_on: bool) -> (r: AfcControl)
        ensures
            r == (AfcControl { unused: 0, low_beta_on, unused2: 0 }),
            r.wf(),
    {
        AfcControl { unused: 0, low_beta_on, unused2: 0 }
    }

    /// Pack the fields into the register's one-byte bus form.
    pub fn encode(&self) -> (b: u8)
        requires
            self.wf(),
        ensures
            b == self.spec_encode(),
    {
        let mut b: u8 = self.unused + self.unused2 * 64;
        if self.low_beta_on {
            b = b + 32;
        }
        b
    }

    /// Unpack the register's bus byte; never fails.
    pub fn decode(b: u8) -> (r: Result<AfcControl, DecodeError>)
        ensures
            r matches Ok(v) && Self::spec_decode(b) == Some(v) && v.wf() && v.spec_encode() == b,
    {
        Ok(
            AfcControl {
                unused: b % 32,
                low_beta_on: (b / 32) % 2 == 1,
                unused2: (b / 64) % 4,
            },
        )
    }

    /// Round trip: decoding the encoding of any well-formed value yields the
    /// value back, unused filler included.
    pub proof fn lemma_round_trip(v: AfcControl)
        requires
            v.wf(),
        ensures
            Self::spec_decode(v.spec_encode()) == Some(v),
    {
    }
}

impl Default for AfcControl {
    /// The all-zero register: every field at its zero bit pattern.
    fn default() -> (r: AfcControl)
        ensures
            r == (AfcControl {
            unused: 0,
            low_beta_on: false,
            unused2: 0,
            }),
            r.wf(),
            r.spec_encode() == 0,
    {
        AfcControl {
            unused: 0,
            low_beta_on: false,
            unused2: 0,
        }
    }
}

impl Reg for AfcControl {
    open spec fn spec_address() -> u8 {
        address_of(RegisterKind::AfcControl)
    }

    fn address() -> u8 {
        0x0B
    }
}

/// Listen-mode register: resolutions, acceptance criteria, end action and
/// the two duration coefficients.
///
/// Three bytes in bus-address order.  The first byte holds unused filler in
/// bit 0, the end action in bits 1-2, the acceptance criteria in bit 3, the
/// receive resolution in bits 4-5 and the idle resolution in bits 6-7; the
/// second byte is the idle coefficient and the third the receive
/// coefficient.
#[derive(Clone, Copy, PartialEq, Eq, Structural, Debug)]
pub struct Listen {
    /// Hardware-unused low bit, preserved verbatim across decode/encode.
    pub unused: bool,
    pub end: ListenEnd,
    pub criteria: ListenCriteria,
    pub rx_base: ListenBaseDuration,
    pub idle_base: ListenBaseDuration,
    /// Idle duration is this coefficient times the idle base duration.
    pub coeff_idle: u8,
    /// Receive duration is this coefficient times the receive base duration.
    pub coeff_rx: u8,
}

impl Listen {
    /// Every field value fits its declared bit width.
    pub open spec fn wf(self) -> bool {
        true
    }

    /// Canonical three-byte form.
    pub open spec fn spec_encode(self) -> Seq<u8> {
        seq![
            (bit(self.unused) + self.end.spec_bits() as int * 2 + self.criteria.spec_bits() as int
                * 8 + self.rx_base.spec_bits() as int * 16 + self.idle_base.spec_bits() as int
                * 64) as u8,
            self.coeff_idle,
            self.coeff_rx,
        ]
    }

    /// Field extraction from the canonical bytes; `None` when the end-action
    /// or either resolution holds a reserved pattern.
    pub open spec fn spec_decode(b: Seq<u8>) -> Option<Listen>
        recommends
            b.len() == 3,
    {
        match (
            ListenEnd::spec_from_bits((((b[0] as int) / 2) % 4) as u8),
            ListenCriteria::spec_from_bits((((b[0] as int) / 8) % 2) as u8),
            ListenBaseDuration::spec_from_bits((((b[0] as int) / 16) % 4) as u8),
            ListenBaseDuration::spec_from_bits((((b[0] as int) / 64) % 4) as u8),
        ) {
            (Some(end), Some(criteria), Some(rx_base), Some(idle_base)) => Some(
                Listen {
                    unused: (b[0] as int) % 2 == 1,
                    end,
                    criteria,
                    rx_base,
                    idle_base,
                    coeff_idle: b[1],
                    coeff_rx: b[2],
                },
            ),
            _ => None,
        }
    }

    /// Field-by-field construction; the unused filler defaults to zero.
    pub fn new(
        end: ListenEnd,
        criteria: ListenCriteria,
        rx_base: ListenBaseDuration,
        idle_base: ListenBaseDuration,
        coeff_idle: u8,
        coeff_rx: u8,
    ) -> (r: Listen)
        ensures
            r == (Listen {
                unused: false,
                end,
                criteria,
                rx_base,
                idle_base,
                coeff_idle,
                coeff_rx,
            }),
            r.wf(),
    {
        Listen { unused: false, end, criteria, rx_base, idle_base, coeff_idle, coeff_rx }
    }

    /// Pack the fields into the register's three-byte bus form.
    pub fn encode(&self) -> (r: [u8; 3])
        requires
            self.wf(),
        ensures
            r@ == self.spec_encode(),
            r@.len() == 3,
    {
        let e: u8 = self.end.bits();
        let c: u8 = self.criteria.bits();
        let rx: u8 = self.rx_base.bits();
        let idle: u8 = self.idle_base.bits();
        let mut cfg: u8 = e * 2 + c * 8 + rx * 16 + idle * 64;
        if self.unused {
            cfg = cfg + 1;
        }
        [cfg, self.coeff_idle, self.coeff_rx]
    }

    /// Unpack the register's bus bytes; a reserved end-action or resolution
    /// pattern is rejected.
    pub fn decode(b: [u8; 3]) -> (r: Result<Listen, DecodeError>)
        ensures
            (r is Ok) == (Self::spec_decode(b@) is Some),
            r matches Ok(v) ==> Self::spec_decode(b@) == Some(v) && v.wf(),
            r matches Ok(v) ==> v.spec_encode() == b@,
            r matches Err(e) ==> e == DecodeError::ReservedDiscriminant,
    {
        let cfg: u8 = b[0];
        match (
            ListenEnd::from_bits((cfg / 2) % 4),
            ListenCriteria::from_bits((cfg / 8) % 2),
            ListenBaseDuration::from_bits((cfg / 16) % 4),
            ListenBaseDuration::from_bits((cfg / 64) % 4),
        ) {
            (Some(end), Some(criteria), Some(rx_base), Some(idle_base)) => Ok(
                Listen {
                    unused: cfg % 2 == 1,
                    end,
                    criteria,
                    rx_base,
                    idle_base,
                    coeff_idle: b[1],
                    coeff_rx: b[2],
                },
            ),
            _ => Err(DecodeError::ReservedDiscriminant),
        }
    }

    /// Round trip: decoding the encoding of any well-formed value yields the
    /// value back, unused filler included.
    pub proof fn lemma_round_trip(v: Listen)
        requires
            v.wf(),
        ensures
            Self::spec_decode(v.spec_encode()) == Some(v),
    {
    }
}

impl Default for Listen {
    /// The all-zero register: every field at its zero bit pattern.
    fn default() -> (r: Listen)
        ensures
            r == (Listen {
            unused: false,
            end: ListenEnd::Rx,
            criteria: ListenCriteria::Rssi,
            rx_base: ListenBaseDuration::Dur64us,
            idle_base: ListenBaseDuration::Dur64us,
            coeff_idle: 0,
            coeff_rx: 0,
            }),
            r.wf(),
    {
        Listen {
            unused: false,
            end: ListenEnd::Rx,
            criteria: ListenCriteria::Rssi,
            rx_base: ListenBaseDuration::Dur64us,
            idle_base: ListenBaseDuration::Dur64us,
            coeff_idle: 0,
            coeff_rx: 0,
        }
    }
}

impl Reg for Listen {
    open spec fn spec_address() -> u8 {
        address_of(RegisterKind::Listen)
    }

    fn address() -> u8 {
        0x0D
    }
}

/// AFC and frequency-error-indicator control register.
///
/// One byte: unused filler in bits 0-4, AFC-auto-on in bit 5, AFC-clear in
/// bit 6 and AFC-start in bit 7.
#[derive(Clone, Copy, PartialEq, Eq, Structural, Debug)]
pub struct AfcFei {
    /// Hardware-unused low bits, preserved verbatim across decode/encode.
    pub unused: u8,
    pub afc_auto_on: bool,
    pub afc_clear: bool,
    pub afc_start: bool,
}

impl AfcFei {
    /// Every field value fits its declared bit width.
    pub open spec fn wf(self) -> bool {
        self.unused < 32
    }

    /// Canonical single-byte form.
    pub open spec fn spec_encode(self) -> u8 {
        (self.unused as int + bit(self.afc_auto_on) * 32 + bit(self.afc_clear) * 64 + bit(
            self.afc_start,
        ) * 128) as u8
    }

    /// Field extraction from the canonical byte; total.
    pub open spec fn spec_decode(b: u8) -> Option<AfcFei> {
        Some(
            AfcFei {
                unused: ((b as int) % 32) as u8,
                afc_auto_on: ((b as int) / 32) % 2 == 1,
                afc_clear: ((b as int) / 64) % 2 == 1,
                afc_start: ((b as int) / 128) % 2 == 1,
            },
        )
    }

    /// Field-by-field construction; the unused filler defaults to zero.
    pub fn new(afc_auto_on: bool, afc_clear: bool, afc_start: bool) -> (r: AfcFei)
        ensures
            r == (AfcFei { unused: 0, afc_auto_on, afc_clear, afc_start }),
            r.wf(),
    {
        AfcFei { unused: 0, afc_auto_on, afc_clear, afc_start }
    }

    /// Pack the fields into the register's one-byte bus form.
    pub fn encode(&self) -> (b: u8)
        requires
            self.wf(),
        ensures
            b == self.spec_encode(),
    {
        let mut b: u8 = self.unused;
        if self.afc_auto_on {
            b = b + 32;
        }
        if self.afc_clear {
            b = b + 64;
        }
        if self.afc_start {
            b = b + 128;
        }
        b
    }

    /// Unpack the register's bus byte; never fails.
    pub fn decode(b: u8) -> (r: Result<AfcFei, DecodeError>)
        ensures
            r matches Ok(v) && Self::spec_decode(b) == Some(v) && v.wf() && v.spec_encode() == b,
    {
        Ok(
            AfcFei {
                unused: b % 32,
                afc_auto_on: (b / 32) % 2 == 1,
                afc_clear: (b / 64) % 2 == 1,
                afc_start: (b / 128) % 2 == 1,
            },
        )
    }

    /// Round trip: decoding the encoding of any well-formed value yields the
    /// value back, unused filler included.
    pub proof fn lemma_round_trip(v: AfcFei)
        requires
            v.wf(),
        ensures
            Self::spec_decode(v.spec_encode()) == Some(v),
    {
    }
}

impl Default for AfcFei {
    /// The all-zero register: every field at its zero bit pattern.
    fn default() -> (r: AfcFei)
        ensures
            r == (AfcFei {
            unused: 0,
            afc_auto_on: false,
            afc_clear: false,
            afc_start: false,
            }),
            r.wf(),
            r.spec_encode() == 0,
    {
        AfcFei {
            unused: 0,
            afc_auto_on: false,
            afc_clear: false,
            afc_start: false,
        }
    }
}

impl Reg for AfcFei {
    open spec fn spec_address() -> u8 {
        address_of(RegisterKind::AfcFei)
    }

    fn address() -> u8 {
        0x0E
    }
}

/// Silicon-revision register, read-only on the chip.
#[derive(Clone, Copy, PartialEq, Eq, Structural, Debug)]
pub struct Version {
    pub version: u8,
}

impl Version {
    /// Every field value fits its declared bit width.
    pub open spec fn wf(self) -> bool {
        true
    }

    /// Canonical single-byte form.
    pub open spec fn spec_encode(self) -> u8 {
        self.version
    }

    /// Field extraction from the canonical byte; total.
    pub open spec fn spec_decode(b: u8) -> Option<Version> {
        Some(Version { version: b })
    }

    /// Pack the field into the register's one-byte bus form.
    pub fn encode(&self) -> (b: u8)
        requires
            self.wf(),
        ensures
            b == self.spec_encode(),
    {
        self.version
    }

    /// Unpack the register's bus byte; never fails.
    pub fn decode(b: u8) -> (r: Result<Version, DecodeError>)
        ensures
            r matches Ok(v) && Self::spec_decode(b) == Some(v) && v.wf() && v.spec_encode() == b,
    {
        Ok(Version { version: b })
    }

    /// Round trip: decoding the encoding of any value yields the value back.
    pub proof fn lemma_round_trip(v: Version)
        requires
            v.wf(),
        ensures
            Self::spec_decode(v.spec_encode()) == Some(v),
    {
    }
}

impl Default for Version {
    /// The all-zero register: every field at its zero bit pattern.
    fn default() -> (r: Version)
        ensures
            r == (Version {
            version: 0,
            }),
            r.wf(),
            r.spec_encode() == 0,
    {
        Version {
            version: 0,
        }
    }
}

impl Reg for Version {
    open spec fn spec_address() -> u8 {
        address_of(RegisterKind::Version)
    }

    fn address() -> u8 {
        0x10
    }
}

} // verus!
