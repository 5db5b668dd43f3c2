//! The decisions of a collision check.
//!
//! A check walks a predicted trajectory sample by sample and tests the
//! robot's outline, grown with the distance travelled, against the point
//! clouds. The geometry is the caller's. Decided here: how far ahead the walk
//! looks, which samples are worth a test, and on which side of the robot an
//! obstacle pushes.

use vstd::prelude::*;
use crate::binary32::{lt, spec_lt, ONE, ZERO};
use crate::runtime::drive_blocking::{later, spec_later};

verus! {

/// How far ahead a check looks, in nanoseconds.
pub const HORIZON: u64 = 2_000_000_000;

/// The path length that is worth a test: 0.05 m, as a binary32 pattern.
pub const STEP_S: u32 = 0x3d4c_cccd;

/// The turn that is worth a test: a thirty-sixth of a turn, as a binary32
/// pattern of radians.
pub const STEP_A: u32 = 0x3e32_b8c3;

/// What to do with a sample of the trajectory.
#[derive(Clone, Copy, Debug, PartialEq, Eq, Structural)]
pub enum Verdict {
    /// The sample lies beyond the horizon: the walk ends without a hit.
    Beyond,
    /// Too little has moved since the last test: take the next sample.
    Skip,
    /// Test the outline at this sample.
    Test,
}

/// The walk along a trajectory: the time between samples and the time of
/// the latest sample, in nanoseconds.
#[derive(Clone, Copy, Debug, PartialEq, Eq, Structural)]
pub struct Walk {
    pub period: u64,
    pub time: u64,
}

impl Walk {
    /// The walk before the first sample.
    pub open spec fn spec_begin(period: u64) -> Walk {
        Walk { period, time: 0 }
    }

    /// The walk before the first sample.
    #[verifier::when_used_as_spec(spec_begin)]
    pub fn begin(period: u64) -> (r: Walk)
        ensures
            r == Self::spec_begin(period),
    {
        Walk { period, time: 0 }
    }

    /// The walk after one more sample.
    pub open spec fn stepped(self) -> Walk {
        Walk { period: self.period, time: spec_later(self.time, self.period) }
    }

    /// What to do with the next sample, when the path length and the turn
    /// since the last test, this sample included, are `s` and `a`.
    pub open spec fn verdict(self, s: u32, a: u32) -> Verdict {
        if self.stepped().time > HORIZON {
            Verdict::Beyond
        } else if spec_lt(s, STEP_S) && spec_lt(a, STEP_A) {
            Verdict::Skip
        } else {
            Verdict::Test
        }
    }

    /// Takes the next sample of the trajectory. `s` and `a` are the path
    /// length and the turn since the last test, this sample included, as
    /// binary32 patterns.
    pub fn advance(&mut self, s: u32, a: u32) -> (r: Verdict)
        ensures
            *final(self) == old(self).stepped(),
            r == old(self).verdict(s, a),
    {
        self.time = later(self.time, self.period);
        if self.time > HORIZON {
            Verdict::Beyond
        } else if lt(s, STEP_S) && lt(a, STEP_A) {
            Verdict::Skip
        } else {
            Verdict::Test
        }
    }

    /// The walk after `n` samples.
    pub open spec fn after(self, n: nat) -> Walk
        decreases n,
    {
        if n == 0 {
            self
        } else {
            self.after((n - 1) as nat).stepped()
        }
    }
}

/// The side of the robot on which an obstacle lies.
#[derive(Clone, Copy, Debug, PartialEq, Eq, Structural)]
pub enum Side {
    Left,
    Right,
}

/// Whether a hit at risk `risk` leaves room to steer away, so that the
/// force of the obstacles is worth computing: the risk is below one.
pub open spec fn spec_evadable(risk: u32) -> bool {
    spec_lt(risk, ONE)
}

/// Whether a hit at risk `risk` leaves room to steer away.
#[verifier::when_used_as_spec(spec_evadable)]
pub fn evadable(risk: u32) -> (r: bool)
    ensures
        r == spec_evadable(risk),
{
    lt(risk, ONE)
}

/// The side on which a point pushes, if it pushes at all: it does within
/// one metre of the robot, `squared` being the square of its distance;
/// then from the left if its `y` is above zero, else from the right.
pub open spec fn spec_side(squared: u32, y: u32) -> Option<Side> {
    if spec_lt(squared, ONE) {
        if spec_lt(ZERO, y) {
            Some(Side::Left)
        } else {
            Some(Side::Right)
        }
    } else {
        None
    }
}

/// The side on which a point pushes, if it pushes at all.
#[verifier::when_used_as_spec(spec_side)]
pub fn side(squared: u32, y: u32) -> (r: Option<Side>)
    ensures
        r == spec_side(squared, y),
{
    if lt(squared, ONE) {
        if lt(ZERO, y) {
            Some(Side::Left)
        } else {
            Some(Side::Right)
        }
    } else {
        None
    }
}

/// The time of a walk after `n` samples: `n` periods, as far as the clock
/// goes.
pub proof fn lemma_walk_time(period: u64, n: nat)
    ensures
        Walk::spec_begin(period).after(n).period == period,
        Walk::spec_begin(period).after(n).time == if n * period > u64::MAX {
            u64::MAX as int
        } else {
            n * period
        },
    decreases n,
{
    if n > 0 {
        lemma_walk_time(period, (n - 1) as nat);
        assert(n * period == (n - 1) * period + period) by (nonlinear_arith);
    }
}

/// A walk is bounded: once the samples taken reach past the horizon, every
/// further sample is beyond it, whatever has moved. With samples 40 ms apart
/// that is the fifty-first sample and all after it.
pub proof fn law_walk_is_bounded(period: u64, n: nat, s: u32, a: u32)
    requires
        (n + 1) * period > HORIZON,
    ensures
        Walk::spec_begin(period).after(n).verdict(s, a) == Verdict::Beyond,
{
    lemma_walk_time(period, n);
    lemma_walk_time(period, n + 1);
}

/// Within the horizon no sample is turned away for its time: the verdict is
/// then a matter of what has moved alone.
pub proof fn law_walk_reaches_the_horizon(period: u64, n: nat, s: u32, a: u32)
    requires
        (n + 1) * period <= HORIZON,
    ensures
        Walk::spec_begin(period).after(n).verdict(s, a) == if spec_lt(s, STEP_S) && spec_lt(
            a,
            STEP_A,
        ) {
            Verdict::Skip
        } else {
            Verdict::Test
        },
{
    lemma_walk_time(period, n);
    lemma_walk_time(period, n + 1);
}

} // verus!
