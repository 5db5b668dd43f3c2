//! The setpoint of a differential-steer chassis modelled as a bicycle.

use vstd::prelude::*;
use crate::binary32::{is_nan, is_zero, spec_is_nan, spec_is_zero, NAN, ZERO};

verus! {

/// A speed and a rudder angle, each the bit pattern of a binary32 number:
/// the speed in metres per second, the rudder in radians.
#[derive(Clone, Copy, Debug, PartialEq, Eq, Structural)]
pub struct Physical {
    pub speed: u32,
    pub rudder: u32,
}

impl Physical {
    /// The setpoint that lets the wheels go: no speed, and no angle at all.
    pub open spec fn spec_released() -> Physical {
        Physical { speed: ZERO, rudder: NAN }
    }

    /// The setpoint that lets the wheels go: no speed, and no angle at all.
    #[verifier::when_used_as_spec(spec_released)]
    pub fn released() -> (r: Physical)
        ensures
            r == Self::spec_released(),
    {
        Physical { speed: ZERO, rudder: NAN }
    }

    /// Whether the setpoint lets the wheels go: its rudder is not a number.
    pub open spec fn spec_is_released(&self) -> bool {
        spec_is_nan(self.rudder)
    }

    /// Whether the setpoint lets the wheels go: its rudder is not a number.
    #[verifier::when_used_as_spec(spec_is_released)]
    pub fn is_released(&self) -> (r: bool)
        ensures
            r == self.spec_is_released(),
    {
        is_nan(self.rudder)
    }

    /// Whether the setpoint asks for standstill: its speed is zero.
    pub open spec fn spec_is_static(&self) -> bool {
        spec_is_zero(self.speed)
    }

    /// Whether the setpoint asks for standstill: its speed is zero.
    #[verifier::when_used_as_spec(spec_is_static)]
    pub fn is_static(&self) -> (r: bool)
        ensures
            r == self.spec_is_static(),
    {
        is_zero(self.speed)
    }

    /// The setpoint as one 64-bit word: the speed in the low half, the rudder
    /// in the high half.
    pub open spec fn spec_pack(self) -> u64 {
        ((self.rudder as u64) << 32) | (self.speed as u64)
    }

    /// The setpoint as one 64-bit word: the speed in the low half, the rudder
    /// in the high half.
    #[verifier::when_used_as_spec(spec_pack)]
    pub fn pack(self) -> (word: u64)
        ensures
            word == self.spec_pack(),
    {
        ((self.rudder as u64) << 32) | (self.speed as u64)
    }

    /// The setpoint that a 64-bit word packs.
    pub open spec fn spec_unpack(word: u64) -> Physical {
        Physical { speed: (word & 0xffff_ffff) as u32, rudder: (word >> 32) as u32 }
    }

    /// The setpoint that a 64-bit word packs.
    #[verifier::when_used_as_spec(spec_unpack)]
    pub fn unpack(word: u64) -> (r: Physical)
        ensures
            r == Self::spec_unpack(word),
    {
        Physical { speed: (word & 0xffff_ffff) as u32, rudder: (word >> 32) as u32 }
    }
}

/// The setpoint that a command gives which names a speed and a rudder, each
/// of which the caller has tried to read as a number. With both read, the
/// command gives them. A speed of zero needs no rudder: it lets the wheels go.
/// Anything else gives nothing.
pub open spec fn spec_parse(speed: Option<u32>, rudder: Option<u32>) -> Option<Physical> {
    match speed {
        Some(speed) => match rudder {
            Some(rudder) => Some(Physical { speed, rudder }),
            None => if spec_is_zero(speed) {
                Some(Physical::spec_released())
            } else {
                None
            },
        },
        None => None,
    }
}

/// The setpoint that a command gives which names a speed and a rudder: see
/// [`spec_parse`].
#[verifier::when_used_as_spec(spec_parse)]
pub fn parse(speed: Option<u32>, rudder: Option<u32>) -> (r: Option<Physical>)
    ensures
        r == spec_parse(speed, rudder),
{
    match speed {
        Some(speed) => match rudder {
            Some(rudder) => Some(Physical { speed, rudder }),
            None => {
                if is_zero(speed) {
                    Some(Physical::released())
                } else {
                    None
                }
            },
        },
        None => None,
    }
}

/// Packing loses nothing: every setpoint comes back from its word, bit for bit.
pub proof fn law_unpack_pack(p: Physical)
    ensures
        Physical::spec_unpack(p.spec_pack()) == p,
{
    let s = p.speed;
    let r = p.rudder;
    assert(((((r as u64) << 32) | (s as u64)) & 0xffff_ffff) as u32 == s) by (bit_vector);
    assert(((((r as u64) << 32) | (s as u64)) >> 32) as u32 == r) by (bit_vector);
}

/// Every 64-bit word is the packing of the setpoint it unpacks to.
pub proof fn law_pack_unpack(word: u64)
    ensures
        Physical::spec_unpack(word).spec_pack() == word,
{
    assert(((((word >> 32) as u32) as u64) << 32) | (((word & 0xffff_ffff) as u32) as u64) == word)
        by (bit_vector);
}

/// The released setpoint is released and asks for standstill.
pub proof fn law_released_is_released()
    ensures
        Physical::spec_released().spec_is_released(),
        Physical::spec_released().spec_is_static(),
{
    assert(0x7fc0_0000u32 & 0x7fff_ffffu32 > 0x7f80_0000u32) by (bit_vector);
    assert(0u32 & 0x7fff_ffffu32 == 0) by (bit_vector);
}

} // verus!
