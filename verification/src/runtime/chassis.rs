//! The chassis supervisor: who owns the target, and what the trajectory
//! predictor starts from.
//!
//! The driver opens the chassis, loses it and opens it again. The supervisor
//! keeps one target, which the latest `drive` has set and which goes to the
//! hardware with every event of the device, and one predictor, which is there
//! while the chassis is. `M` is the chassis model that the pose filter
//! corrects, `K` the kinematics that a predictor steps with; both belong to
//! the driver and pass through here untouched.

use vstd::prelude::*;
use crate::physical::Physical;

verus! {

/// The time to wait after a failed attempt to open the chassis, in
/// nanoseconds.
pub const RETRY_PERIOD: u64 = 1_000_000_000;

/// What the chassis says of itself.
#[derive(Clone, Copy, Debug, PartialEq, Eq, Structural)]
pub struct Status {
    pub battery_percent: u8,
    pub power_switch: bool,
    pub physical: Physical,
}

/// The speeds of the two driven wheels, each the bit pattern of a binary32
/// number of radians per second.
#[derive(Clone, Copy, Debug, PartialEq, Eq, Structural)]
pub struct Wheels {
    pub left: u32,
    pub right: u32,
}

/// A trajectory predictor at its start: the state the chassis is in, the
/// state it is to reach, and the kinematics that take it there.
pub struct Trajectory<K> {
    pub current: Physical,
    pub target: Physical,
    pub kinematics: K,
}

/// What an event of the device carries besides its time.
#[derive(Clone, Copy, Debug, PartialEq, Eq, Structural)]
pub enum Telemetry {
    /// The speeds of the wheels.
    Wheels(Wheels),
    /// Anything else; the status of the device tells what has changed.
    Other,
}

/// What the driver of the chassis reports.
pub enum DriverEvent<K> {
    /// The chassis has been opened: its status, and a predictor made from
    /// its model.
    Connected { status: Status, predictor: Trajectory<K> },
    /// The chassis is gone.
    Disconnected,
    /// An attempt to open the chassis has failed.
    ConnectFailed,
    /// The chassis has been read: its status after that, and what was read,
    /// with its time.
    Event { status: Status, telemetry: Option<(u64, Telemetry)> },
}

/// What the supervisor tells the rest of the runtime.
#[derive(Clone, Copy, Debug, PartialEq, Eq, Structural)]
pub enum Event {
    Connected,
    Disconnected,
    StatusUpdated(Status),
    WheelsUpdated(u64, Wheels),
}

/// What is to be done after an event of the driver.
pub struct Reaction<M> {
    /// What to tell the rest of the runtime, in order.
    pub events: Vec<Event>,
    /// The target to hand to the hardware, with the time it was set.
    pub target: Option<(u64, Physical)>,
    /// The model to hand to the driver.
    pub model: Option<M>,
    /// How long to wait before the driver goes on, in nanoseconds.
    pub sleep: Option<u64>,
}

/// The state of the chassis supervisor.
pub struct Chassis<M, K> {
    /// The target that the latest command asked for, before any collision
    /// avoidance, packed into one word.
    pub raw_target: u64,
    /// The target for the hardware, and when it was set.
    pub target: (u64, Physical),
    /// A corrected model that the driver has not been handed yet.
    pub model: Option<M>,
    /// The predictor to copy; there is one while the chassis is there.
    pub predictor: Option<Trajectory<K>>,
}

impl<M, K> Chassis<M, K> {
    /// The supervisor before the chassis is opened: released, and without a
    /// predictor.
    pub fn new(now: u64) -> (r: Self)
        ensures
            r.raw_target == Physical::spec_released().spec_pack(),
            r.target == (now, Physical::spec_released()),
            r.model is None,
            r.predictor is None,
    {
        Chassis {
            raw_target: Physical::released().pack(),
            target: (now, Physical::released()),
            model: None,
            predictor: None,
        }
    }

    /// The state after `drive`.
    pub open spec fn driven(self, now: u64, p: Physical) -> Self {
        Chassis { target: (now, p), ..self }
    }

    /// Sets the target for the hardware, at `now`. The latest call wins.
    pub fn drive(&mut self, now: u64, p: Physical)
        ensures
            *final(self) == old(self).driven(now, p),
    {
        self.target = (now, p);
    }

    /// Keeps a corrected model for the driver, in place of one not yet
    /// handed over.
    pub fn update_model(&mut self, m: M)
        ensures
            *final(self) == (Chassis { model: Some(m), ..*old(self) }),
    {
        self.model = Some(m);
    }

    /// Notes the target that a command asked for, for the predictors to come.
    pub fn store_raw_target(&mut self, p: Physical)
        ensures
            *final(self) == (Chassis { raw_target: p.spec_pack(), ..*old(self) }),
    {
        self.raw_target = p.pack();
    }

    /// The target that the hardware is handed when the driver reports `e`:
    /// with every event of the device, the target as it stands.
    pub open spec fn pushed(self, e: DriverEvent<K>) -> Option<(u64, Physical)> {
        match e {
            DriverEvent::Event { .. } => Some(self.target),
            _ => None,
        }
    }

    /// The model that the driver is handed when it reports `e`: the one
    /// kept for it, when the chassis is opened and with every event of the
    /// device.
    pub open spec fn handed(self, e: DriverEvent<K>) -> Option<M> {
        match e {
            DriverEvent::Connected { .. } => self.model,
            DriverEvent::Event { .. } => self.model,
            _ => None,
        }
    }

    /// The predictor after the driver has reported `e`: the one of the
    /// chassis just opened; none once the chassis is gone; and after the
    /// device has reported anything but wheel speeds, the one there was,
    /// starting from the state that the status gives.
    pub open spec fn predictor_after(self, e: DriverEvent<K>) -> Option<Trajectory<K>> {
        match e {
            DriverEvent::Connected { status, predictor } => Some(predictor),
            DriverEvent::Disconnected => None,
            DriverEvent::ConnectFailed => self.predictor,
            DriverEvent::Event { status, telemetry } => match telemetry {
                Some((_, Telemetry::Other)) => match self.predictor {
                    Some(pre) => Some(Trajectory { current: status.physical, ..pre }),
                    None => None,
                },
                _ => self.predictor,
            },
        }
    }

    /// The state after the driver has reported `e`.
    pub open spec fn after(self, e: DriverEvent<K>) -> Self {
        Chassis {
            raw_target: self.raw_target,
            target: self.target,
            model: if self.handed(e) is Some {
                None
            } else {
                self.model
            },
            predictor: self.predictor_after(e),
        }
    }

    /// What the rest of the runtime is told when the driver reports `e`.
    pub open spec fn told(e: DriverEvent<K>) -> Seq<Event> {
        match e {
            DriverEvent::Connected { status, predictor } => seq![
                Event::Connected,
                Event::StatusUpdated(status),
            ],
            DriverEvent::Disconnected => seq![Event::Disconnected],
            DriverEvent::ConnectFailed => Seq::empty(),
            DriverEvent::Event { status, telemetry } => match telemetry {
                Some((time, Telemetry::Wheels(wheels))) => seq![Event::WheelsUpdated(time, wheels)],
                Some((_, Telemetry::Other)) => seq![Event::StatusUpdated(status)],
                None => Seq::empty(),
            },
        }
    }

    /// How long the driver waits after it has reported `e`: a retry period
    /// after a failed attempt.
    pub open spec fn pause(e: DriverEvent<K>) -> Option<u64> {
        match e {
            DriverEvent::ConnectFailed => Some(RETRY_PERIOD),
            _ => None,
        }
    }

    /// Takes one event of the driver and says what is to be done.
    ///
    /// - `Connected`: the clients hear of it and of the status; the
    ///   predictor of the chassis is kept; a model kept for the driver is
    ///   handed over.
    /// - `Disconnected`: the clients hear of it; the predictor is dropped.
    /// - `ConnectFailed`: the driver waits for a retry period.
    /// - `Event`: the hardware gets the target as it stands, and a model
    ///   kept for the driver is handed over. Wheel speeds go to the clients
    ///   with their time. Anything else makes the predictor start from the
    ///   state in the status, and the status goes to the clients.
    pub fn supervisor(&mut self, e: DriverEvent<K>) -> (r: Reaction<M>)
        ensures
            *final(self) == old(self).after(e),
            r.events@ == Self::told(e),
            r.target == old(self).pushed(e),
            r.model == old(self).handed(e),
            r.sleep == Self::pause(e),
    {
        let mut events: Vec<Event> = Vec::new();
        match e {
            DriverEvent::Connected { status, predictor } => {
                events.push(Event::Connected);
                events.push(Event::StatusUpdated(status));
                self.predictor = Some(predictor);
                let model = self.model.take();
                Reaction { events, target: None, model, sleep: None }
            },
            DriverEvent::Disconnected => {
                events.push(Event::Disconnected);
                self.predictor = None;
                Reaction { events, target: None, model: None, sleep: None }
            },
            DriverEvent::ConnectFailed => {
                Reaction { events, target: None, model: None, sleep: Some(RETRY_PERIOD) }
            },
            DriverEvent::Event { status, telemetry } => {
                let target = self.target;
                let model = self.model.take();
                match telemetry {
                    Some((time, Telemetry::Wheels(wheels))) => {
                        events.push(Event::WheelsUpdated(time, wheels));
                    },
                    Some((_, Telemetry::Other)) => {
                        self.set_current(status.physical);
                        events.push(Event::StatusUpdated(status));
                    },
                    None => {},
                }
                Reaction { events, target: Some(target), model, sleep: None }
            },
        }
    }

    /// Makes the predictor, if there is one, start from the state `p`.
    fn set_current(&mut self, p: Physical)
        ensures
            *final(self) == (Chassis {
                predictor: match old(self).predictor {
                    Some(pre) => Some(Trajectory { current: p, ..pre }),
                    None => None,
                },
                ..*old(self)
            }),
    {
        match &mut self.predictor {
            Some(pre) => {
                pre.current = p;
            },
            None => {},
        }
    }
}

impl<M, K: Clone> Chassis<M, K> {
    /// A predictor of the way to the target that the latest command asked
    /// for: a copy of the one kept here, which stays as it is. None while
    /// the chassis is away.
    pub fn predict(&self) -> (r: Option<Trajectory<K>>)
        ensures
            match self.predictor {
                Some(pre) => r matches Some(copy) && copy.current == pre.current && copy.target
                    == Physical::spec_unpack(self.raw_target) && cloned(
                    pre.kinematics,
                    copy.kinematics,
                ),
                None => r is None,
            },
    {
        match &self.predictor {
            Some(pre) => Some(
                Trajectory {
                    current: pre.current,
                    target: Physical::unpack(self.raw_target),
                    kinematics: pre.kinematics.clone(),
                },
            ),
            None => None,
        }
    }
}

/// One thing that happens to the supervisor: a command sets the target, or
/// the driver reports.
pub enum Step<K> {
    Drive(u64, Physical),
    Device(DriverEvent<K>),
}

impl<M, K> Chassis<M, K> {
    /// The state after one step.
    pub open spec fn stepped(self, step: Step<K>) -> Self {
        match step {
            Step::Drive(now, p) => self.driven(now, p),
            Step::Device(e) => self.after(e),
        }
    }

    /// The state after the steps `steps`, in order.
    pub open spec fn run(self, steps: Seq<Step<K>>) -> Self
        decreases steps.len(),
    {
        if steps.len() == 0 {
            self
        } else {
            self.run(steps.drop_last()).stepped(steps.last())
        }
    }
}

/// The target, with its time, that the last command among `steps` set, if
/// there is a command among them.
pub open spec fn last_drive<K>(steps: Seq<Step<K>>) -> Option<(u64, Physical)>
    decreases steps.len(),
{
    if steps.len() == 0 {
        None
    } else {
        match steps.last() {
            Step::Drive(now, p) => Some((now, p)),
            Step::Device(_) => last_drive(steps.drop_last()),
        }
    }
}

/// The last command wins: however commands and reports of the driver have
/// followed each other, the target kept is the one that the last command
/// set, or the first one if there was no command.
pub proof fn lemma_target_is_last_drive<M, K>(chassis: Chassis<M, K>, steps: Seq<Step<K>>)
    ensures
        chassis.run(steps).target == match last_drive(steps) {
            Some(target) => target,
            None => chassis.target,
        },
    decreases steps.len(),
{
    if steps.len() > 0 {
        lemma_target_is_last_drive(chassis, steps.drop_last());
    }
}

/// The hardware sees the last command: with every event of the device, after
/// any sequence of commands and reports of the driver, the target handed to
/// the hardware is the one that the last command before the event set, or
/// the first one if there was no command.
pub proof fn law_hardware_sees_last_drive<M, K>(
    chassis: Chassis<M, K>,
    steps: Seq<Step<K>>,
    status: Status,
    telemetry: Option<(u64, Telemetry)>,
)
    ensures
        chassis.run(steps).pushed(DriverEvent::Event { status, telemetry }) == Some(
            match last_drive(steps) {
                Some(target) => target,
                None => chassis.target,
            },
        ),
{
    lemma_target_is_last_drive(chassis, steps);
}

} // verus!
