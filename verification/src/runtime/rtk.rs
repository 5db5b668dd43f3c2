//! The satellite receiver: what a fix is worth, where a line from the board
//! goes, and how long a session with the correction service lasts.

use vstd::prelude::*;
use crate::runtime::drive_blocking::{later, spec_later};

verus! {

/// The time to wait after a failed attempt to open the board, in nanoseconds.
pub const SERIAL_RETRY_PERIOD: u64 = 1_000_000_000;

/// The time to wait after a failed attempt to reach the correction service,
/// in nanoseconds.
pub const NETWORK_RETRY_PERIOD: u64 = 3_000_000_000;

/// How far ahead of the clock the start of a session with the correction
/// service may lie at most, in nanoseconds.
pub const SESSION_SPAN: u64 = 300_000_000_000;

/// The quality of a position fix, as a GGA sentence states it.
#[derive(Clone, Copy, Debug, PartialEq, Eq, Structural)]
pub enum GpggaStatus {
    /// No fix.
    Invalid,
    /// A fix from the satellites alone.
    Single,
    /// A fix with differential corrections of the code.
    Differential,
    /// A fix by the precise positioning service.
    Pps,
    /// A carrier-phase fix with the ambiguities resolved.
    Fixed,
    /// A carrier-phase fix with the ambiguities estimated.
    Float,
    /// A position reckoned from the last fix.
    DeadReckoning,
    /// A position that a person has entered.
    UserInput,
    /// A precise point position.
    Ppp,
}

impl GpggaStatus {
    /// Whether a fix of this quality is good enough to navigate by: only a
    /// carrier-phase fix is.
    pub open spec fn spec_adequate(self) -> bool {
        self == GpggaStatus::Float || self == GpggaStatus::Fixed
    }

    /// Whether a fix of this quality is good enough to navigate by.
    #[verifier::when_used_as_spec(spec_adequate)]
    pub fn adequate(self) -> (r: bool)
        ensures
            r == self.spec_adequate(),
    {
        match self {
            GpggaStatus::Float => true,
            GpggaStatus::Fixed => true,
            _ => false,
        }
    }

    /// The rank under which a fix of this quality is drawn on a monitor:
    /// from 0 for a fix from the satellites alone to 3 for a resolved
    /// carrier-phase fix. The other qualities are not drawn.
    pub open spec fn spec_level(self) -> Option<u8> {
        match self {
            GpggaStatus::Single => Some(0u8),
            GpggaStatus::Differential => Some(1u8),
            GpggaStatus::Float => Some(2u8),
            GpggaStatus::Fixed => Some(3u8),
            _ => None,
        }
    }

    /// The rank under which a fix of this quality is drawn on a monitor.
    #[verifier::when_used_as_spec(spec_level)]
    pub fn level(self) -> (r: Option<u8>)
        ensures
            r == self.spec_level(),
    {
        match self {
            GpggaStatus::Single => Some(0),
            GpggaStatus::Differential => Some(1),
            GpggaStatus::Float => Some(2),
            GpggaStatus::Fixed => Some(3),
            _ => None,
        }
    }
}

/// What the receiver tells the rest of the runtime.
#[derive(Clone, Copy, Debug, PartialEq, Eq, Structural)]
pub enum Event {
    SerialConnected,
    SerialDisconnected,
    TcpConnected,
    TcpDisconnected,
    /// A fix, with the time at which its sentence was read.
    Gpgga(u64, GpggaStatus),
}

/// How the reading of a line from the board as a GGA sentence ended.
#[derive(Clone, Copy, Debug, PartialEq, Eq, Structural)]
pub enum Parsed {
    /// The line is a GGA sentence with a fix of this quality.
    Fix(GpggaStatus),
    /// The line is a sentence of another kind.
    WrongHead,
    /// The line is no sentence, or a broken one.
    Broken,
}

/// Where a line from the board goes.
#[derive(Clone, Copy, Debug, PartialEq, Eq, Structural)]
pub struct Routing {
    /// What to tell the rest of the runtime.
    pub event: Option<Event>,
    /// Whether the line goes on to the correction service.
    pub forward: bool,
}

/// Where a line goes that was read from the board at `time`: a fix goes to
/// the runtime, and every well-formed sentence to the correction service.
pub open spec fn spec_route(time: u64, parsed: Parsed) -> Routing {
    match parsed {
        Parsed::Fix(status) => Routing { event: Some(Event::Gpgga(time, status)), forward: true },
        Parsed::WrongHead => Routing { event: None, forward: true },
        Parsed::Broken => Routing { event: None, forward: false },
    }
}

/// Where a line goes that was read from the board at `time`.
#[verifier::when_used_as_spec(spec_route)]
pub fn route(time: u64, parsed: Parsed) -> (r: Routing)
    ensures
        r == spec_route(time, parsed),
{
    match parsed {
        Parsed::Fix(status) => Routing { event: Some(Event::Gpgga(time, status)), forward: true },
        Parsed::WrongHead => Routing { event: None, forward: true },
        Parsed::Broken => Routing { event: None, forward: false },
    }
}

/// When the account of the correction service was last renewed.
#[derive(Clone, Copy, Debug, PartialEq, Eq, Structural)]
pub struct Session {
    pub update_time: u64,
}

impl Session {
    /// The account as it stands at `now`.
    pub fn new(now: u64) -> (r: Self)
        ensures
            r.update_time == now,
    {
        Session { update_time: now }
    }

    /// Whether a session that began at `started` goes on at `now`: the
    /// account was not renewed since it began, and it does not claim to have
    /// begun a session span or more ahead of now.
    pub open spec fn spec_keeps(&self, started: u64, now: u64) -> bool {
        self.update_time < started && started < spec_later(now, SESSION_SPAN)
    }

    /// Whether a session that began at `started` goes on at `now`.
    #[verifier::when_used_as_spec(spec_keeps)]
    pub fn keeps(&self, started: u64, now: u64) -> (r: bool)
        ensures
            r == self.spec_keeps(started, now),
    {
        self.update_time < started && started < later(now, SESSION_SPAN)
    }
}

/// Notes at `now` that the account has been renewed: every session begun
/// before ends with its next event.
pub fn reauth(session: &mut Session, now: u64)
    ensures
        final(session).update_time == now,
{
    session.update_time = now;
}

/// Renewing the account ends the sessions: none that began at or before the
/// renewal goes on.
pub proof fn law_reauth_ends_sessions(started: u64, renewed: u64, now: u64)
    requires
        started <= renewed,
    ensures
        !(Session { update_time: renewed }).spec_keeps(started, now),
{
}

} // verus!
