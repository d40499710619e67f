//! Typed register-access layer for the SX1231 radio transceiver.
//!
//! Each configuration or status register of the chip is modelled as a value
//! type whose fields are plain booleans, integers or enumerations.  The codec
//! methods `encode` and `decode` convert between those typed values and the
//! exact byte form the hardware expects on the control bus, and the catalog
//! module records every register's fixed bus address and bit layout.
//!
//! The contracts pin the byte layout down bit by bit: encoding a well-formed
//! register value and decoding the result yields the original value, and a
//! byte pattern whose enumerated-field bits match no declared variant is
//! rejected with [`DecodeError`] rather than coerced to a neighboring
//! variant.

use vstd::prelude::*;

pub mod catalog;
pub mod fields;
pub mod frontend;
pub mod modem;
pub mod packet;

verus! {

/// Error produced when raw register bytes hold a bit pattern that maps to no
/// declared variant of an enumerated field.
///
/// The hardware datasheet leaves some discriminants of some fields
/// unassigned; such patterns are reported, never silently replaced by a
/// declared variant.
#[derive(Clone, Copy, PartialEq, Eq, Structural, Debug)]
pub enum DecodeError {
    /// An enumerated field's bits matched no declared discriminant.
    ReservedDiscriminant,
}

/// The numeric contribution of a boolean flag to its register byte.
pub open spec fn bit(b: bool) -> int {
    if b {
        1
    } else {
        0
    }
}

/// A register type bound to one fixed one-byte bus address.
pub trait Reg {
    /// The bus address, as a specification-level constant.
    spec fn spec_address() -> u8;

    /// The one-byte bus address of this register.
    fn address() -> (a: u8)
        ensures
            a == Self::spec_address(),
    ;
}

} // verus!
