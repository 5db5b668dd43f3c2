//! Who may drive: the joystick before a person's commands, and both before
//! the path tracker.
//!
//! Each manual source holds the chassis for a while after its last command.
//! Times are nanoseconds on the runtime's clock.

use vstd::prelude::*;

verus! {

/// How long the joystick keeps the chassis after a sample, in nanoseconds.
pub const JOYSTICK_TIMEOUT: u64 = 500_000_000;

/// How long a person's command keeps the chassis, in nanoseconds.
pub const ARTIFICIAL_TIMEOUT: u64 = 500_000_000;

/// The instant `span` after `now`, or the end of the clock if that is sooner.
pub open spec fn spec_later(now: u64, span: u64) -> u64 {
    if now + span > u64::MAX {
        u64::MAX
    } else {
        (now + span) as u64
    }
}

/// The instant `span` after `now`, or the end of the clock if that is sooner.
#[verifier::when_used_as_spec(spec_later)]
pub fn later(now: u64, span: u64) -> (r: u64)
    ensures
        r == spec_later(now, span),
{
    if now > u64::MAX - span {
        u64::MAX
    } else {
        now + span
    }
}

/// The deadlines until which the manual sources hold the chassis.
#[derive(Clone, Copy, Debug, PartialEq, Eq, Structural)]
pub struct DriveBlocking {
    pub artificial_deadline: u64,
    pub joystick_deadline: u64,
}

impl DriveBlocking {
    /// No source holds the chassis beyond `now`.
    pub fn new(now: u64) -> (r: Self)
        ensures
            r.artificial_deadline == now,
            r.joystick_deadline == now,
    {
        DriveBlocking { artificial_deadline: now, joystick_deadline: now }
    }

    /// Notes a joystick sample at `now`: the joystick holds the chassis for
    /// the joystick timeout from now on.
    pub fn drive_joystick(&mut self, now: u64)
        ensures
            final(self).joystick_deadline == spec_later(now, JOYSTICK_TIMEOUT),
            final(self).artificial_deadline == old(self).artificial_deadline,
    {
        self.joystick_deadline = later(now, JOYSTICK_TIMEOUT);
    }

    /// Whether the path tracker may drive at `now`: only after both deadlines.
    pub open spec fn spec_try_drive_automatic(&self, now: u64) -> bool {
        now > self.joystick_deadline && now > self.artificial_deadline
    }

    /// Whether the path tracker may drive at `now`: only after both deadlines.
    #[verifier::when_used_as_spec(spec_try_drive_automatic)]
    pub fn try_drive_automatic(&self, now: u64) -> (r: bool)
        ensures
            r == self.spec_try_drive_automatic(now),
    {
        let latest: u64 = if self.joystick_deadline > self.artificial_deadline {
            self.joystick_deadline
        } else {
            self.artificial_deadline
        };
        now > latest
    }

    /// Asks for the chassis on behalf of a person's command at `now`. It is
    /// refused before the joystick deadline, and nothing changes. Otherwise
    /// it is granted, and the command holds the chassis for the manual
    /// timeout from now on.
    pub fn try_drive_artificial(&mut self, now: u64) -> (granted: bool)
        ensures
            granted == !(now < old(self).joystick_deadline),
            !granted ==> *final(self) == *old(self),
            granted ==> final(self).joystick_deadline == old(self).joystick_deadline,
            granted ==> final(self).artificial_deadline == spec_later(now, ARTIFICIAL_TIMEOUT),
    {
        if now < self.joystick_deadline {
            return false;
        }
        self.artificial_deadline = later(now, ARTIFICIAL_TIMEOUT);
        true
    }
}

/// A joystick sample at `at` shuts a person's commands out until the
/// joystick timeout has run: while the clock lasts, a command at any `now`
/// from the sample on and before the deadline meets the condition on which
/// `try_drive_artificial` refuses.
pub proof fn law_joystick_preempts(blocking: DriveBlocking, at: u64, now: u64)
    requires
        blocking.joystick_deadline == spec_later(at, JOYSTICK_TIMEOUT),
        at <= now,
        now < at + JOYSTICK_TIMEOUT,
        at + JOYSTICK_TIMEOUT <= u64::MAX,
    ensures
        now < blocking.joystick_deadline,
{
}

/// A granted command of a person, or a joystick sample, at `at` shuts the
/// path tracker out until the timeout has run, the last instant included.
pub proof fn law_manual_preempts_automatic(blocking: DriveBlocking, at: u64, now: u64)
    requires
        at <= now,
        now <= at + ARTIFICIAL_TIMEOUT,
        blocking.artificial_deadline == spec_later(at, ARTIFICIAL_TIMEOUT)
            || blocking.joystick_deadline == spec_later(at, JOYSTICK_TIMEOUT),
    ensures
        !blocking.spec_try_drive_automatic(now),
{
}

} // verus!
