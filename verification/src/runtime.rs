//! The runtime's decisions: what to do with each event from a device, and
//! which command reaches the chassis.
//!
//! Three sources command the chassis. The joystick comes first and is not
//! checked. A person's command comes next, and the path tracker last; both
//! are checked against what the range finders see and slowed, turned or
//! stopped where the way is not clear. Numbers are binary32 patterns; the
//! sums and products that a decision needs are formed by the caller.

use vstd::prelude::*;
use crate::binary32::{at_least, at_most, lt, spec_at_least, spec_at_most, spec_lt, ONE, ZERO};
use crate::device_code::atomic::AtomicDeviceCode;
use crate::device_code::{DeviceCode, Link};
use crate::physical::{law_unpack_pack, Physical};
use crate::pose::Pose;
use chassis::{Chassis, Status, Trajectory};
use drive_blocking::DriveBlocking;
use lidar::group::Spot;
use rtk::GpggaStatus;

pub mod chassis;
pub mod drive_blocking;
pub mod joystick;
pub mod lidar;
pub mod rtk;

verus! {

/// A collision this near is not to be avoided any more: 0.2 m of path, as a
/// binary32 pattern.
pub const EMERGENCY_S: u32 = 0x3e4c_cccd;

/// A collision after this little turning is not to be avoided any more: a
/// sixteenth of a turn, as a binary32 pattern of radians.
pub const EMERGENCY_A: u32 = 0x3ec9_0fdb;

/// The rudder full to the left: a quarter turn, as a binary32 pattern of
/// radians.
pub const RUDDER_MAX: u32 = 0x3fc9_0fdb;

/// The rudder full to the right: a quarter turn the other way, as a
/// binary32 pattern of radians.
pub const RUDDER_MIN: u32 = 0xbfc9_0fdb;

/// How long the joystick is left alone after a sample that drives, in
/// nanoseconds.
pub const JOYSTICK_PERIOD: u64 = 50_000_000;

/// How long the joystick is left alone after a sample that does not drive,
/// in nanoseconds.
pub const JOYSTICK_REST: u64 = 400_000_000;

/// What the runtime tells its clients.
#[derive(Clone, Debug, PartialEq, Eq)]
pub enum Event {
    /// The connectivity code has changed.
    ConnectionModified(DeviceCode),
    /// The chassis has reported its status.
    ChassisStatusUpdated(Status),
    /// The path length and the turn that the chassis has covered, in metres
    /// and radians, as binary32 patterns.
    ChassisOdometerUpdated(u32, u32),
    /// The quality of the fix has changed.
    RtkStatusUpdated(GpggaStatus),
    /// The pose filter has a new pose.
    PoseUpdated(Pose),
    /// A frame of the range finders is ready.
    LidarFrameEncoded(Vec<u8>),
    /// A target has gone to the chassis at this risk of collision, a
    /// binary32 pattern between zero and one.
    CollisionDetected(u32),
}

/// How far the chassis has come: path length, absolute turn, and pose, the
/// first two as binary32 patterns of metres and radians.
#[derive(Clone, Copy, Debug, PartialEq, Eq, Structural)]
pub struct Odometry {
    pub s: u32,
    pub a: u32,
    pub pose: Pose,
}

/// A collision that a check has found on a trajectory.
#[derive(Clone, Copy, Debug, PartialEq, Eq, Structural)]
pub struct CollisionInfo {
    /// The time until the collision, in nanoseconds.
    pub time: u64,
    /// How far the chassis will have come by then.
    pub pose: Odometry,
    /// The risk: one over one plus the path length until then.
    pub risk: u32,
    /// The force with which the obstacles push, in the robot's frame.
    pub force: Spot,
}

/// What the caller has calculated for a way around a collision, from the
/// target `p` and the collision `c`, with `sec` the time until the collision
/// in seconds. Each field is a binary32 pattern.
#[derive(Clone, Copy, Debug, PartialEq, Eq, Structural)]
pub struct Avoidance {
    /// The speed, slowed in proportion to the time left: `p.speed * (sec / 2)`.
    pub speed: u32,
    /// The turn away from the obstacles: `-atan2(c.force.y, 2.5)`.
    pub modifier: u32,
    /// The rudder with that turn: `p.rudder + modifier`.
    pub rudder: u32,
    /// The risk, grown as the time runs out: `(2 - sec) * c.risk`.
    pub risk: u32,
}

/// The target that goes to the chassis, and the risk at which it goes, when
/// the target `p` was asked for and the check of the way there ended with
/// `found`.
///
/// - No collision: `p` as it is, at no risk.
/// - A collision within the emergency distance and the emergency turn: the
///   wheels are let go, at risk one.
/// - Any other collision: the slowed speed, and the turned rudder, kept
///   within a quarter turn on the side to which it was turned; at the grown
///   risk, but at most at risk one.
pub open spec fn spec_avoid(p: Physical, found: Option<(CollisionInfo, Avoidance)>) -> (
    Physical,
    u32,
) {
    match found {
        None => (p, ZERO),
        Some((c, way)) => if spec_lt(c.pose.s, EMERGENCY_S) && spec_lt(c.pose.a, EMERGENCY_A) {
            (Physical::spec_released(), ONE)
        } else {
            (
                Physical {
                    speed: way.speed,
                    rudder: if spec_lt(ZERO, way.modifier) {
                        spec_at_most(way.rudder, RUDDER_MAX)
                    } else {
                        spec_at_least(way.rudder, RUDDER_MIN)
                    },
                },
                spec_at_most(way.risk, ONE),
            )
        },
    }
}

/// The target that goes to the chassis, and the risk at which it goes: see
/// [`spec_avoid`].
#[verifier::when_used_as_spec(spec_avoid)]
pub fn avoid(p: Physical, found: Option<(CollisionInfo, Avoidance)>) -> (r: (Physical, u32))
    ensures
        r == spec_avoid(p, found),
{
    match found {
        None => (p, ZERO),
        Some((c, way)) => {
            if lt(c.pose.s, EMERGENCY_S) && lt(c.pose.a, EMERGENCY_A) {
                (Physical::released(), ONE)
            } else {
                let rudder = if lt(ZERO, way.modifier) {
                    at_most(way.rudder, RUDDER_MAX)
                } else {
                    at_least(way.rudder, RUDDER_MIN)
                };
                (Physical { speed: way.speed, rudder }, at_most(way.risk, ONE))
            }
        },
    }
}

/// What the robot is busy with on its own.
pub enum Task<R, T> {
    /// Nothing.
    Idle,
    /// A recording is to begin with the next pose.
    WaitingPose,
    /// Poses are recorded to `R`.
    Record(R),
    /// The path and the context `T` are tracked.
    Track(T),
}

/// What to do with a new pose.
#[derive(Clone, Copy, Debug, PartialEq, Eq, Structural)]
pub enum Duty {
    /// Nothing.
    Rest,
    /// Open a record that begins at the pose, and report with `opened`.
    Open,
    /// Append the pose to the record, and report a failure with `failed`.
    Append,
    /// Ask the tracker for the way from the pose, and hand the target it
    /// gives to `check_and_drive`.
    Track,
}

/// How far a command has come.
pub enum Step<K> {
    /// A source that comes first holds the chassis: nothing was done.
    Held,
    /// The chassis is away, so nothing is known of the way: nothing went to
    /// the chassis.
    Away,
    /// The target has gone to the chassis; the clients are to hear this.
    Issued(Event),
    /// The way is to be checked: walk this trajectory against what the
    /// range finders see, and report with `resolve`.
    Check(Trajectory<K>),
}

/// What the joystick loop does after a sample.
pub struct Pace {
    /// What to tell the clients.
    pub event: Option<Event>,
    /// How long to leave the joystick alone, in nanoseconds.
    pub sleep: u64,
}

/// What the clients are to hear after an event of a device.
#[derive(Clone, Copy, Debug, PartialEq, Eq, Structural)]
pub struct News {
    /// The status that the chassis has reported.
    pub chassis: Option<Status>,
    /// The quality of the fix, if it has changed.
    pub rtk: Option<GpggaStatus>,
    /// The connectivity code, if it has changed.
    pub connection: Option<DeviceCode>,
}

impl News {
    /// The events for the clients, in order: the status of the chassis, the
    /// quality of the fix, the connectivity code.
    pub open spec fn spec_events(self) -> Seq<Event> {
        (match self.chassis {
            Some(status) => seq![Event::ChassisStatusUpdated(status)],
            None => Seq::empty(),
        }) + (match self.rtk {
            Some(status) => seq![Event::RtkStatusUpdated(status)],
            None => Seq::empty(),
        }) + (match self.connection {
            Some(code) => seq![Event::ConnectionModified(code)],
            None => Seq::empty(),
        })
    }

    /// The events for the clients, in order.
    pub fn events(&self) -> (r: Vec<Event>)
        ensures
            r@ == self.spec_events(),
    {
        let mut r: Vec<Event> = Vec::new();
        if let Some(status) = self.chassis {
            r.push(Event::ChassisStatusUpdated(status));
        }
        if let Some(status) = self.rtk {
            r.push(Event::RtkStatusUpdated(status));
        }
        if let Some(code) = self.connection {
            r.push(Event::ConnectionModified(code));
        }
        r
    }
}

/// What a frame event of the range finders becomes for the clients: a frame
/// goes on to them, and nothing else does.
pub fn lidar_event(e: lidar::Event) -> (r: Option<Event>)
    ensures
        match e {
            lidar::Event::FrameEncoded(buf) => r == Some(Event::LidarFrameEncoded(buf)),
            _ => r is None,
        },
{
    match e {
        lidar::Event::FrameEncoded(buf) => Some(Event::LidarFrameEncoded(buf)),
        _ => None,
    }
}

/// The link whose change an event of the chassis tells of.
pub open spec fn spec_chassis_link(e: chassis::Event) -> Option<Link> {
    match e {
        chassis::Event::Connected => Some(Link::Chassis(true)),
        chassis::Event::Disconnected => Some(Link::Chassis(false)),
        chassis::Event::StatusUpdated(status) => Some(Link::PowerSwitch(status.power_switch)),
        chassis::Event::WheelsUpdated(_, _) => None,
    }
}

/// The link whose change an event of the chassis tells of.
#[verifier::when_used_as_spec(spec_chassis_link)]
pub fn chassis_link(e: chassis::Event) -> (r: Option<Link>)
    ensures
        r == spec_chassis_link(e),
{
    match e {
        chassis::Event::Connected => Some(Link::Chassis(true)),
        chassis::Event::Disconnected => Some(Link::Chassis(false)),
        chassis::Event::StatusUpdated(status) => Some(Link::PowerSwitch(status.power_switch)),
        chassis::Event::WheelsUpdated(_, _) => None,
    }
}

/// The link whose change an event of the receiver tells of.
pub open spec fn spec_rtk_link(e: rtk::Event) -> Link {
    match e {
        rtk::Event::SerialConnected => Link::RtkSerial(true),
        rtk::Event::SerialDisconnected => Link::RtkSerial(false),
        rtk::Event::TcpConnected => Link::RtkNetwork(true),
        rtk::Event::TcpDisconnected => Link::RtkNetwork(false),
        rtk::Event::Gpgga(_, status) => Link::RtkFix(status.spec_adequate()),
    }
}

/// The link whose change an event of the receiver tells of.
#[verifier::when_used_as_spec(spec_rtk_link)]
pub fn rtk_link(e: rtk::Event) -> (r: Link)
    ensures
        r == spec_rtk_link(e),
{
    match e {
        rtk::Event::SerialConnected => Link::RtkSerial(true),
        rtk::Event::SerialDisconnected => Link::RtkSerial(false),
        rtk::Event::TcpConnected => Link::RtkNetwork(true),
        rtk::Event::TcpDisconnected => Link::RtkNetwork(false),
        rtk::Event::Gpgga(_, status) => Link::RtkFix(status.adequate()),
    }
}

/// The state of the robot: who drives, and what it is busy with. `M` and
/// `K` are the chassis model and the kinematics of the driver, `R` a record
/// of poses being written, `T` a path being tracked.
pub struct Robot<M, K, R, T> {
    pub chassis: Chassis<M, K>,
    pub drive_blocking: DriveBlocking,
    /// The speed at which a path is tracked, a binary32 pattern.
    pub tracking_speed: u32,
    pub task: Task<R, T>,
    /// The quality of the latest fix.
    pub rtk_status: GpggaStatus,
    pub code: AtomicDeviceCode,
}

impl<M, K, R, T> Robot<M, K, R, T> {
    /// The robot at `now`, before any device is there: released, idle,
    /// with no fix and no speed to track at.
    pub fn spawn(now: u64) -> (r: Self)
        ensures
            r.chassis.raw_target == Physical::spec_released().spec_pack(),
            r.chassis.target == (now, Physical::spec_released()),
            r.chassis.model is None,
            r.chassis.predictor is None,
            r.drive_blocking.artificial_deadline == now,
            r.drive_blocking.joystick_deadline == now,
            r.tracking_speed == ZERO,
            r.task is Idle,
            r.rtk_status == GpggaStatus::Invalid,
    {
        Robot {
            chassis: Chassis::new(now),
            drive_blocking: DriveBlocking::new(now),
            tracking_speed: ZERO,
            task: Task::Idle,
            rtk_status: GpggaStatus::Invalid,
            code: AtomicDeviceCode::default(),
        }
    }

    /// Sets the speed at which a path is tracked.
    pub fn set_tracking_speed(&mut self, val: u32)
        ensures
            *final(self) == (Robot { tracking_speed: val, ..*old(self) }),
    {
        self.tracking_speed = val;
    }

    /// Asks for a recording: it begins with the next pose.
    pub fn record(&mut self)
        ensures
            *final(self) == (Robot { task: Task::WaitingPose, ..*old(self) }),
    {
        self.task = Task::WaitingPose;
    }

    /// Asks for the tracking of a recorded path, which the caller has tried
    /// to open. If that failed, the failure is handed back and the robot
    /// goes on with what it was busy with.
    pub fn track<E>(&mut self, opened: Result<T, E>) -> (r: Result<(), E>)
        ensures
            match opened {
                Ok(path) => r is Ok && *final(self) == (Robot {
                    task: Task::Track(path),
                    ..*old(self)
                }),
                Err(e) => r == Err::<(), E>(e) && *final(self) == *old(self),
            },
    {
        match opened {
            Ok(path) => {
                self.task = Task::Track(path);
                Ok(())
            },
            Err(e) => Err(e),
        }
    }

    /// Ends whatever the robot is busy with.
    pub fn stop(&mut self)
        ensures
            *final(self) == (Robot { task: Task::Idle, ..*old(self) }),
    {
        self.task = Task::Idle;
    }

    /// What to do with a new pose at `now`. The tracker is asked only when
    /// neither the joystick nor a person holds the chassis.
    pub open spec fn spec_automatic(&self, now: u64) -> Duty {
        match self.task {
            Task::Idle => Duty::Rest,
            Task::WaitingPose => Duty::Open,
            Task::Record(_) => Duty::Append,
            Task::Track(_) => if self.drive_blocking.spec_try_drive_automatic(now) {
                Duty::Track
            } else {
                Duty::Rest
            },
        }
    }

    /// What to do with a new pose at `now`.
    #[verifier::when_used_as_spec(spec_automatic)]
    pub fn automatic(&self, now: u64) -> (r: Duty)
        ensures
            r == self.spec_automatic(now),
    {
        match &self.task {
            Task::Idle => Duty::Rest,
            Task::WaitingPose => Duty::Open,
            Task::Record(_) => Duty::Append,
            Task::Track(_) => {
                if self.drive_blocking.try_drive_automatic(now) {
                    Duty::Track
                } else {
                    Duty::Rest
                }
            },
        }
    }

    /// Reports how the opening of a record ended. While a recording is
    /// waited for, a record that was opened is recorded to from now on, and
    /// a failure ends the task. Otherwise nothing changes.
    pub fn opened(&mut self, file: Option<R>)
        ensures
            *final(self) == (Robot {
                task: match old(self).task {
                    Task::WaitingPose => match file {
                        Some(record) => Task::Record(record),
                        None => Task::Idle,
                    },
                    task => task,
                },
                ..*old(self)
            }),
    {
        if let Task::WaitingPose = &self.task {
            self.task = match file {
                Some(record) => Task::Record(record),
                None => Task::Idle,
            };
        }
    }

    /// Reports that a pose could not be recorded: a recording ends.
    /// Otherwise nothing changes.
    pub fn failed(&mut self)
        ensures
            *final(self) == (Robot {
                task: match old(self).task {
                    Task::Record(_) => Task::Idle,
                    task => task,
                },
                ..*old(self)
            }),
    {
        if let Task::Record(_) = &self.task {
            self.task = Task::Idle;
        }
    }

    /// Hands the target `p` to the chassis at `now` and tells the clients
    /// the risk `r` at which it goes.
    pub fn drive_and_warn(&mut self, now: u64, p: Physical, r: u32) -> (e: Event)
        ensures
            *final(self) == (Robot { chassis: old(self).chassis.driven(now, p), ..*old(self) }),
            e == Event::CollisionDetected(r),
    {
        self.chassis.drive(now, p);
        Event::CollisionDetected(r)
    }

    /// Takes the answer to a check that `check_and_drive` has asked for:
    /// the target and the risk that [`spec_avoid`] gives go to the chassis
    /// and to the clients.
    pub fn resolve(&mut self, now: u64, p: Physical, found: Option<(CollisionInfo, Avoidance)>) -> (e:
        Event)
        ensures
            *final(self) == (Robot {
                chassis: old(self).chassis.driven(now, spec_avoid(p, found).0),
                ..*old(self)
            }),
            e == Event::CollisionDetected(spec_avoid(p, found).1),
    {
        let (target, risk) = avoid(p, found);
        self.drive_and_warn(now, target, risk)
    }

    /// Takes a sample of the joystick at `now`. A sample that drives takes
    /// the chassis for the joystick and goes to the chassis unchecked, at
    /// no risk; the joystick is read again after a joystick period. A
    /// released joystick changes nothing and is left alone for longer.
    pub fn joystick(&mut self, now: u64, target: Physical) -> (r: Pace)
        ensures
            if target.spec_is_released() {
                &&& *final(self) == *old(self)
                &&& r.event is None
                &&& r.sleep == JOYSTICK_REST
            } else {
                &&& final(self).drive_blocking.joystick_deadline == drive_blocking::spec_later(
                    now,
                    drive_blocking::JOYSTICK_TIMEOUT,
                )
                &&& final(self).drive_blocking.artificial_deadline
                    == old(self).drive_blocking.artificial_deadline
                &&& *final(self) == (Robot {
                    chassis: old(self).chassis.driven(now, target),
                    drive_blocking: final(self).drive_blocking,
                    ..*old(self)
                })
                &&& r.event == Some(Event::CollisionDetected(ZERO))
                &&& r.sleep == JOYSTICK_PERIOD
            },
    {
        if !target.is_released() {
            self.drive_blocking.drive_joystick(now);
            let event = self.drive_and_warn(now, target, ZERO);
            Pace { event: Some(event), sleep: JOYSTICK_PERIOD }
        } else {
            Pace { event: None, sleep: JOYSTICK_REST }
        }
    }

    /// Takes an event of the chassis supervisor: the clients hear a status,
    /// and they hear the connectivity code if the event has changed it. A
    /// code they hear has the flags of the link as the event leaves them.
    pub fn chassis_event(&self, e: chassis::Event) -> (r: News)
        ensures
            r.chassis == match e {
                chassis::Event::StatusUpdated(status) => Some(status),
                _ => None,
            },
            r.rtk is None,
            r.connection matches Some(code) ==> spec_chassis_link(e) matches Some(link)
                && link.applied(code.0) == code.0,
    {
        let chassis = match e {
            chassis::Event::StatusUpdated(status) => Some(status),
            _ => None,
        };
        let connection = match chassis_link(e) {
            Some(link) => self.code.switch(link),
            None => None,
        };
        News { chassis, rtk: None, connection }
    }

    /// Takes an event of the receiver: the clients hear the quality of a
    /// fix if it is not the quality of the fix before, and they hear the
    /// connectivity code if the event has changed it. A code they hear has
    /// the flags of the link as the event leaves them. The second result
    /// tells whether the event is a fix to navigate by, which is to go to
    /// the pose filter.
    pub fn rtk_event(&mut self, e: rtk::Event) -> (r: (News, bool))
        ensures
            *final(self) == (Robot {
                rtk_status: match e {
                    rtk::Event::Gpgga(_, status) => status,
                    _ => old(self).rtk_status,
                },
                ..*old(self)
            }),
            r.0.chassis is None,
            r.0.rtk == match e {
                rtk::Event::Gpgga(_, status) => if status != old(self).rtk_status {
                    Some(status)
                } else {
                    None
                },
                _ => None,
            },
            r.0.connection matches Some(code) ==> spec_rtk_link(e).applied(code.0) == code.0,
            r.1 == match e {
                rtk::Event::Gpgga(_, status) => status.spec_adequate(),
                _ => false,
            },
    {
        let connection = self.code.switch(rtk_link(e));
        match e {
            rtk::Event::Gpgga(_, status) => {
                let rtk = if status != self.rtk_status {
                    Some(status)
                } else {
                    None
                };
                self.rtk_status = status;
                (News { chassis: None, rtk, connection }, status.adequate())
            },
            _ => (News { chassis: None, rtk: None, connection }, false),
        }
    }
}

impl<M, K: Clone, R, T> Robot<M, K, R, T> {
    /// A predictor of the way to the target that the latest command asked
    /// for; none while the chassis is away.
    pub fn predict(&self) -> (r: Option<Trajectory<K>>)
        ensures
            match self.chassis.predictor {
                Some(pre) => r matches Some(copy) && copy.current == pre.current && copy.target
                    == Physical::spec_unpack(self.chassis.raw_target) && cloned(
                    pre.kinematics,
                    copy.kinematics,
                ),
                None => r is None,
            },
    {
        self.chassis.predict()
    }

    /// Takes a person's command at `now`. While the joystick holds the
    /// chassis the command is dropped and nothing changes. Otherwise the
    /// command holds the chassis against the path tracker from now on, and
    /// the target goes the way of `check_and_drive`.
    pub fn drive(&mut self, now: u64, target: Physical) -> (r: Step<K>)
        ensures
            if now < old(self).drive_blocking.joystick_deadline {
                r is Held && *final(self) == *old(self)
            } else {
                (Robot {
                    drive_blocking: DriveBlocking {
                        artificial_deadline: drive_blocking::spec_later(
                            now,
                            drive_blocking::ARTIFICIAL_TIMEOUT,
                        ),
                        ..old(self).drive_blocking
                    },
                    ..*old(self)
                }).checked(now, target, *final(self), r)
            },
    {
        if self.drive_blocking.try_drive_artificial(now) {
            self.check_and_drive(now, target)
        } else {
            Step::Held
        }
    }

    /// What `check_and_drive` makes of the robot `self` and the target `p`
    /// at `now`: the robot `next` and the step `step`.
    ///
    /// The target is noted as the one asked for. A target that asks for
    /// standstill goes to the chassis as it is, at no risk. For any other
    /// target nothing goes to the chassis yet: while the chassis is away
    /// nothing happens, else the way to the target is to be checked, along a
    /// copy of the predictor that leads to the target.
    pub open spec fn checked(self, now: u64, p: Physical, next: Self, step: Step<K>) -> bool {
        let noted = Robot {
            chassis: Chassis { raw_target: p.spec_pack(), ..self.chassis },
            ..self
        };
        if p.spec_is_static() {
            &&& next == (Robot { chassis: noted.chassis.driven(now, p), ..noted })
            &&& step == Step::<K>::Issued(Event::CollisionDetected(ZERO))
        } else {
            &&& next == noted
            &&& match self.chassis.predictor {
                Some(pre) => step matches Step::Check(copy) && copy.current == pre.current
                    && copy.target == p && cloned(pre.kinematics, copy.kinematics),
                None => step is Away,
            }
        }
    }

    /// Takes a target that is to be checked before it goes to the chassis:
    /// see [`Self::checked`].
    pub fn check_and_drive(&mut self, now: u64, p: Physical) -> (r: Step<K>)
        ensures
            old(self).checked(now, p, *final(self), r),
    {
        self.chassis.store_raw_target(p);
        if p.is_static() {
            Step::Issued(self.drive_and_warn(now, p, ZERO))
        } else {
            proof {
                law_unpack_pack(p);
            }
            match self.chassis.predict() {
                Some(copy) => Step::Check(copy),
                None => Step::Away,
            }
        }
    }
}

/// A target that asks for standstill goes to the chassis as it is, and the
/// clients hear of no risk, whatever the range finders see and whether or
/// not the chassis is there.
pub proof fn law_standstill_is_transparent<M, K: Clone, R, T>(
    robot: Robot<M, K, R, T>,
    now: u64,
    p: Physical,
    next: Robot<M, K, R, T>,
    step: Step<K>,
)
    requires
        p.spec_is_static(),
        robot.checked(now, p, next, step),
    ensures
        next.chassis.target == (now, p),
        step == Step::<K>::Issued(Event::CollisionDetected(ZERO)),
{
}

/// The risk that the clients hear of is never above one, if the risk that
/// was calculated is a number, and a rudder that was turned stays within a
/// quarter turn on the side to which it was turned.
pub proof fn law_avoidance_is_bounded(p: Physical, c: CollisionInfo, way: Avoidance)
    ensures
        !spec_lt(ONE, spec_avoid(p, Some((c, way))).1),
        !spec_lt(RUDDER_MAX, spec_avoid(p, Some((c, way))).0.rudder) || !spec_lt(ZERO, way.modifier),
        !spec_lt(spec_avoid(p, Some((c, way))).0.rudder, RUDDER_MIN) || spec_lt(ZERO, way.modifier),
{
    assert(0x3f80_0000u32 & 0x7fff_ffffu32 == 0x3f80_0000u32) by (bit_vector);
    assert(0x3fc9_0fdbu32 & 0x7fff_ffffu32 == 0x3fc9_0fdbu32) by (bit_vector);
    assert(0xbfc9_0fdbu32 & 0x7fff_ffffu32 == 0x3fc9_0fdbu32) by (bit_vector);
    assert(0x7fc0_0000u32 & 0x7fff_ffffu32 == 0x7fc0_0000u32) by (bit_vector);
}

} // verus!
