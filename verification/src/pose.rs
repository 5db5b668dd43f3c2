//! A pose in the plane, as it travels on the wire.

use vstd::prelude::*;

verus! {

/// Position and heading, each the bit pattern of a binary32 number: metres
/// and radians.
#[derive(Clone, Copy, Debug, PartialEq, Eq, Structural)]
pub struct Pose {
    pub x: u32,
    pub y: u32,
    pub theta: u32,
}

/// The four bytes of a 32-bit word, least significant first.
pub open spec fn le_bytes_u32(word: u32) -> Seq<u8> {
    seq![
        (word & 0xff) as u8,
        ((word >> 8) & 0xff) as u8,
        ((word >> 16) & 0xff) as u8,
        ((word >> 24) & 0xff) as u8,
    ]
}

/// The two bytes of a 16-bit word, least significant first.
pub open spec fn le_bytes_u16(word: u16) -> Seq<u8> {
    seq![(word & 0xff) as u8, ((word >> 8) & 0xff) as u8]
}

/// Appends the four bytes of a 32-bit word, least significant first.
pub fn push_u32(buf: &mut Vec<u8>, word: u32)
    ensures
        final(buf)@ == old(buf)@ + le_bytes_u32(word),
{
    buf.push((word & 0xff) as u8);
    buf.push(((word >> 8) & 0xff) as u8);
    buf.push(((word >> 16) & 0xff) as u8);
    buf.push(((word >> 24) & 0xff) as u8);
}

/// Appends the two bytes of a 16-bit word, least significant first.
pub fn push_u16(buf: &mut Vec<u8>, word: u16)
    ensures
        final(buf)@ == old(buf)@ + le_bytes_u16(word),
{
    buf.push((word & 0xff) as u8);
    buf.push(((word >> 8) & 0xff) as u8);
}

impl Pose {
    /// The pose at the origin, heading along the x axis.
    pub open spec fn spec_zero() -> Pose {
        Pose { x: 0, y: 0, theta: 0 }
    }

    /// The pose at the origin, heading along the x axis.
    #[verifier::when_used_as_spec(spec_zero)]
    pub fn zero() -> (r: Pose)
        ensures
            r == Self::spec_zero(),
    {
        Pose { x: 0, y: 0, theta: 0 }
    }

    /// The twelve bytes of the pose on the wire: `x`, `y`, `theta`, each
    /// least significant byte first.
    pub open spec fn bytes(self) -> Seq<u8> {
        le_bytes_u32(self.x) + le_bytes_u32(self.y) + le_bytes_u32(self.theta)
    }

    /// Appends the twelve bytes of the pose.
    pub fn write_to(&self, buf: &mut Vec<u8>)
        ensures
            final(buf)@ == old(buf)@ + self.bytes(),
    {
        push_u32(buf, self.x);
        push_u32(buf, self.y);
        push_u32(buf, self.theta);
    }
}

/// A pose takes twelve bytes on the wire.
pub proof fn law_pose_takes_twelve_bytes(pose: Pose)
    ensures
        pose.bytes().len() == 12,
{
}

} // verus!
