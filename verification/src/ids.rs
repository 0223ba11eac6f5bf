//! Identifiers of towers and appointments.

use vstd::prelude::*;

verus! {

/// Identifier of an appointment: the sixteen bytes of a locator, read as one
/// big-endian number.
#[derive(Clone, Copy, Debug, PartialEq, Eq, Structural, Hash, PartialOrd, Ord)]
pub struct Locator(pub u128);

/// Identifier of a tower: a compressed public key, that is a parity byte
/// followed by the thirty-two bytes of the x coordinate, the latter read as
/// two big-endian numbers.
#[derive(Clone, Copy, Debug, PartialEq, Eq, Structural, Hash, PartialOrd, Ord)]
pub struct TowerId {
    pub parity: u8,
    pub x_high: u128,
    pub x_low: u128,
}

impl TowerId {
    /// Builds an identifier from the parts of a compressed public key.
    pub fn new(parity: u8, x_high: u128, x_low: u128) -> (id: TowerId)
        ensures
            id == (TowerId { parity, x_high, x_low }),
    {
        TowerId { parity, x_high, x_low }
    }
}

} // verus!
