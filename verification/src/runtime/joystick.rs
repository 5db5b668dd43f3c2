//! The joystick: when a sample drives.

use vstd::prelude::*;
use crate::binary32::{lt, spec_lt};
use crate::physical::Physical;

verus! {

/// A stick deflected less than this is at rest: 0.005 of its travel, as a
/// binary32 pattern.
pub const DEAD_ZONE: u32 = 0x3ba3_d70a;

/// A sample of the stick.
#[derive(Clone, Copy, Debug, PartialEq, Eq, Structural)]
pub struct Joystick {
    /// How far the stick is deflected, from zero to one, as a binary32
    /// pattern.
    pub rho: u32,
    /// The setpoint that the deflection stands for, calculated by the
    /// caller: the speed `rho * level / 5` for the gear `level`, and the
    /// rudder `sign(theta) * (theta / (pi/2))^2 * (pi/2)` for the direction
    /// `theta` of the deflection.
    pub scaled: Physical,
}

impl Joystick {
    /// A sample of the stick.
    pub fn new(rho: u32, scaled: Physical) -> (r: Self)
        ensures
            r.rho == rho,
            r.scaled == scaled,
    {
        Joystick { rho, scaled }
    }

    /// The target that the sample asks for: the wheels let go while the
    /// stick is at rest, else the setpoint that the deflection stands for.
    pub open spec fn spec_get(&self) -> Physical {
        if spec_lt(self.rho, DEAD_ZONE) {
            Physical::spec_released()
        } else {
            self.scaled
        }
    }

    /// The target that the sample asks for.
    #[verifier::when_used_as_spec(spec_get)]
    pub fn get(&self) -> (r: Physical)
        ensures
            r == self.spec_get(),
    {
        if lt(self.rho, DEAD_ZONE) {
            Physical::released()
        } else {
            self.scaled
        }
    }
}

} // verus!
