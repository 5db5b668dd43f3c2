//! The group of rotating range finders.
//!
//! Two devices watch the surroundings, one at the rear and one at the front.
//! A device is known by the identifier of its port and works under a small
//! index that it keeps for good. For every event of the driver the supervisor
//! decides what to tell the clients, which angular filter to hand to which
//! device, which scans to forget, and when the next frame is due.

use vstd::prelude::*;
use crate::pose::Pose;
use crate::runtime::drive_blocking::{later, spec_later};
use collision::Walk;
use group::{cleared_from, frame_of, stored, Group, Scan, Spot};
use indexer::{after_add, after_remove, found, index_added, live_count, same_index, Indexer, Slot};

pub mod collision;
pub mod group;
pub mod indexer;

verus! {

/// The number of devices in the group.
pub const DEVICES: usize = 2;

/// The time between two frames for the clients, in nanoseconds.
pub const FRAME_PERIOD: u64 = 100_000_000;

/// The time to wait after a failed attempt to open a device, in nanoseconds.
pub const RETRY_PERIOD: u64 = 1_000_000_000;

/// Where the rear device is mounted: 0.141 m behind the centre, as a
/// binary32 pattern.
pub const REAR_X: u32 = 0xbe10_624e;

/// Where the front device is mounted: 0.118 m ahead of the centre, as a
/// binary32 pattern.
pub const FRONT_X: u32 = 0x3df1_a9fc;

/// One sample of a device: a range and a bearing, in the device's units.
#[derive(Clone, Copy, Debug, PartialEq, Eq, Structural)]
pub struct Point {
    pub len: u16,
    pub dir: u16,
}

/// The bearing units of a device.
#[derive(Clone, Copy, Debug, PartialEq, Eq, Structural)]
pub struct Bearings {
    /// The number of units in a full turn.
    pub round: u16,
    /// The number of units in 1.5 rad, rounded down.
    pub limit: u16,
}

/// Whether the rear device keeps a bearing: those more than a quarter turn
/// and at most five twelfths of a turn off its axis, on either side.
pub open spec fn spec_rear(dir: u16, round: u16) -> bool {
    let half = round / 2;
    let quarter = half / 2;
    let twelfth = quarter / 3;
    (quarter < dir && dir <= half - twelfth) || (half + twelfth < dir && dir <= half + quarter)
}

/// Whether the front device keeps a bearing: those less than `limit` off its
/// axis, on either side.
pub open spec fn spec_front(dir: u16, bearings: Bearings) -> bool {
    dir < bearings.limit || bearings.round <= dir + bearings.limit
}

/// Whether the device at `index` keeps the sample `point`.
pub open spec fn spec_filter(index: usize, point: Point, bearings: Bearings) -> bool {
    if index == 0 {
        spec_rear(point.dir, bearings.round)
    } else {
        spec_front(point.dir, bearings)
    }
}

/// Whether the device at `index` keeps the sample `point`: index 0 is the
/// rear device, index 1 the front device.
#[verifier::when_used_as_spec(spec_filter)]
pub fn filter(index: usize, point: Point, bearings: Bearings) -> (keep: bool)
    requires
        index < DEVICES,
    ensures
        keep == spec_filter(index, point, bearings),
{
    let dir: u16 = point.dir;
    if index == 0 {
        let half: u16 = bearings.round / 2;
        let quarter: u16 = half / 2;
        let twelfth: u16 = quarter / 3;
        (quarter < dir && dir <= half - twelfth) || (half + twelfth < dir && dir <= half + quarter)
    } else {
        let reach: u32 = dir as u32 + bearings.limit as u32;
        dir < bearings.limit || bearings.round as u32 <= reach
    }
}

/// The mounting poses of the devices, by index.
pub fn mountings() -> (r: [Pose; 2])
    ensures
        r@ == seq![Pose { x: REAR_X, y: 0, theta: 0 }, Pose { x: FRONT_X, y: 0, theta: 0 }],
{
    let r = [Pose { x: REAR_X, y: 0, theta: 0 }, Pose { x: FRONT_X, y: 0, theta: 0 }];
    r
}

/// One section of a scan as the driver delivers it, made ready to store: its
/// number, its samples compressed for the wire, and its samples as points
/// in the robot's frame.
pub struct Section {
    pub index: usize,
    pub zipped: Vec<u8>,
    pub points: Vec<Spot>,
}

/// What the driver of the devices reports.
pub enum DriverEvent {
    /// A device has been opened.
    Connected(String),
    /// A device is gone.
    Disconnected(String),
    /// An attempt to open a device has failed.
    ConnectFailed,
    /// A device has been read; it may have delivered a section.
    Event(String, Option<Section>),
}

/// What the supervisor tells the rest of the runtime.
pub enum Event {
    Connected,
    Disconnected,
    FrameEncoded(Vec<u8>),
}

/// What is to be done after an event of the driver.
pub struct Reaction {
    /// What to tell the rest of the runtime.
    pub event: Option<Event>,
    /// The index whose filter is to be handed to the device of the event.
    pub filter: Option<usize>,
    /// When to try again to open a device.
    pub next_try: Option<u64>,
}

/// The state of the supervisor.
pub struct State {
    /// The indices handed out.
    pub slots: Seq<Slot>,
    /// By index: whether the device there is still to be handed its filter.
    pub need_update: Seq<bool>,
    /// When the next frame is due.
    pub send_time: u64,
    /// By index: the scan of the device there.
    pub scans: Seq<Scan>,
}

/// The flags after the device at `i` was handed its filter on arrival: it
/// needs none, and every device above it needs one.
pub open spec fn flags_after_arrival(flags: Seq<bool>, i: int) -> Seq<bool> {
    Seq::new(
        flags.len(),
        |j: int|
            if j == i {
                false
            } else if j > i {
                true
            } else {
                flags[j]
            },
    )
}

/// The flags after the device at `i` has left: the devices at `i` and above
/// need their filters again.
pub open spec fn flags_after_departure(flags: Seq<bool>, i: int) -> Seq<bool> {
    Seq::new(
        flags.len(),
        |j: int|
            if j >= i {
                true
            } else {
                flags[j]
            },
    )
}

impl State {
    /// The state after a device has been opened.
    pub open spec fn connected(self, key: Seq<char>) -> State {
        match index_added(self.slots, DEVICES as nat, key) {
            Some(i) => State {
                slots: after_add(self.slots, DEVICES as nat, key),
                need_update: flags_after_arrival(self.need_update, i),
                send_time: self.send_time,
                scans: cleared_from(self.scans, i),
            },
            None => self,
        }
    }

    /// The state after a device is gone.
    pub open spec fn disconnected(self, key: Seq<char>) -> State {
        match found(self.slots, key) {
            Some(i) => State {
                slots: after_remove(self.slots, key),
                need_update: flags_after_departure(self.need_update, i),
                send_time: self.send_time,
                scans: cleared_from(self.scans, i),
            },
            None => self,
        }
    }

    /// Whether the device at `j` is handed its filter when it is read.
    pub open spec fn refits(self, key: Seq<char>) -> Option<int> {
        match found(self.slots, key) {
            Some(j) => if self.need_update[j] {
                Some(j)
            } else {
                None
            },
            None => None,
        }
    }

    /// The scans after the device `key` has been read and has delivered
    /// `section`: a device that is handed its filter starts with an empty
    /// scan, and the section is stored in the scan of the device. A device
    /// without an index leaves no trace.
    pub open spec fn scans_after_read(self, key: Seq<char>, section: Option<Section>) -> Seq<Scan> {
        match found(self.slots, key) {
            Some(j) => {
                let scan = if self.need_update[j] {
                    Scan::empty(self.scans[j].trans)
                } else {
                    self.scans[j]
                };
                match section {
                    Some(s) => self.scans.update(
                        j,
                        Scan {
                            sections: stored(scan.sections, s.index as int, s.zipped@),
                            points: stored(scan.points, s.index as int, s.points@),
                            trans: scan.trans,
                        },
                    ),
                    None => self.scans.update(j, scan),
                }
            },
            None => self.scans,
        }
    }

    /// Whether a frame goes out at `now`: a device is present and the frame
    /// is due.
    pub open spec fn frame_due(self, now: u64) -> bool {
        live_count(self.slots) > 0 && now >= self.send_time
    }

    /// The state after the device `key` has been read at `now`.
    pub open spec fn read(self, now: u64, key: Seq<char>, section: Option<Section>) -> State {
        State {
            slots: self.slots,
            need_update: match found(self.slots, key) {
                Some(j) => self.need_update.update(j, false),
                None => self.need_update,
            },
            send_time: if self.frame_due(now) {
                spec_later(now, FRAME_PERIOD)
            } else {
                self.send_time
            },
            scans: self.scans_after_read(key, section),
        }
    }

    /// Whether the device with index `j` is present.
    pub open spec fn present(self, j: int) -> bool {
        0 <= j < self.slots.len() && self.slots[j].live
    }

    /// Whether the scan at every index is empty whose device is away.
    pub open spec fn tidy(self) -> bool {
        forall|j: int|
            0 <= j < self.scans.len() && !self.present(j) ==> #[trigger] self.scans[j]
                == Scan::empty(self.scans[j].trans)
    }

    /// Whether the state is one that the supervisor can be in: there is a
    /// flag and a scan for each index, no index is handed out twice, and
    /// nothing is kept of a device that is away.
    pub open spec fn wf(self) -> bool {
        &&& self.slots.len() <= DEVICES
        &&& indexer::distinct(self.slots)
        &&& self.need_update.len() == DEVICES
        &&& self.scans.len() == DEVICES
        &&& self.tidy()
    }
}

/// Supervises the group of range finders.
pub struct Lidar {
    indexer: Indexer,
    need_update: Vec<bool>,
    send_time: u64,
    group: Group,
}

impl Lidar {
    /// The state of the supervisor.
    pub closed spec fn view(&self) -> State {
        State {
            slots: self.indexer@,
            need_update: self.need_update@,
            send_time: self.send_time,
            scans: self.group@,
        }
    }

    /// Whether the supervisor is in a state that it can be in.
    pub closed spec fn wf(&self) -> bool {
        &&& self.indexer.wf()
        &&& self.indexer.spec_capacity() == DEVICES
        &&& self@.wf()
    }

    /// A supervisor that has seen no device. The first frame is due one
    /// frame period after `now`.
    pub fn new(now: u64) -> (r: Self)
        ensures
            r.wf(),
            r@.slots == Seq::<Slot>::empty(),
            r@.need_update == seq![false, false],
            r@.send_time == spec_later(now, FRAME_PERIOD),
            r@.scans == seq![
                Scan::empty(Pose { x: REAR_X, y: 0, theta: 0 }),
                Scan::empty(Pose { x: FRONT_X, y: 0, theta: 0 }),
            ],
    {
        let trans = mountings();
        let group = Group::build(trans.as_slice());
        let mut need_update: Vec<bool> = Vec::new();
        need_update.push(false);
        need_update.push(false);
        let r = Lidar {
            indexer: Indexer::new(DEVICES),
            need_update,
            send_time: later(now, FRAME_PERIOD),
            group,
        };
        r
    }

    /// The scans of the devices, for a reader of the point clouds.
    pub fn group(&self) -> (r: &Group)
        ensures
            r@ == self@.scans,
    {
        &self.group
    }

    /// The index of the device `key` if it is present.
    pub fn find(&self, key: &String) -> (r: Option<usize>)
        requires
            self.wf(),
        ensures
            same_index(r, found(self@.slots, key@)),
            r matches Some(j) ==> j < DEVICES,
    {
        proof {
            indexer::lemma_position(self@.slots, key@);
        }
        self.indexer.find(key)
    }

    /// Begins a collision check of a trajectory whose samples are `period`
    /// nanoseconds apart. There is nothing to check against, and no walk,
    /// while no device is present.
    pub fn check(&self, period: u64) -> (r: Option<Walk>)
        ensures
            r == if live_count(self@.slots) > 0 {
                Some(Walk::spec_begin(period))
            } else {
                None
            },
    {
        if self.indexer.len() > 0 {
            Some(Walk::begin(period))
        } else {
            None
        }
    }

    /// Takes one event of the driver at `now` and says what is to be done.
    ///
    /// - `Connected`: the clients hear of it. If the device gets an index,
    ///   it is handed the filter of that index, the devices above it are to
    ///   be handed theirs when they are next read, and the scans at that
    ///   index and above are emptied.
    /// - `Disconnected`: the clients hear of it. If the device was present,
    ///   the devices at its index and above are to be handed their filters
    ///   when they are next read, and the scans there are emptied.
    /// - `ConnectFailed`: the next attempt is due one retry period from now.
    /// - `Event`: a device with an index is handed its filter if that is
    ///   still to be done, and its scan then starts empty; the section it
    ///   delivered is stored. After that, if a device is present and a frame
    ///   is due, the frame of all scans goes to the clients and the next is
    ///   due one frame period from now.
    pub fn supervisor(&mut self, now: u64, e: DriverEvent) -> (r: Reaction)
        requires
            old(self).wf(),
        ensures
            final(self).wf(),
            match e {
                DriverEvent::Connected(key) => {
                    &&& final(self)@ == old(self)@.connected(key@)
                    &&& r.event matches Some(Event::Connected)
                    &&& same_index(r.filter, index_added(old(self)@.slots, DEVICES as nat, key@))
                    &&& r.next_try is None
                },
                DriverEvent::Disconnected(key) => {
                    &&& final(self)@ == old(self)@.disconnected(key@)
                    &&& r.event matches Some(Event::Disconnected)
                    &&& r.filter is None
                    &&& r.next_try is None
                },
                DriverEvent::ConnectFailed => {
                    &&& final(self)@ == old(self)@
                    &&& r.event is None
                    &&& r.filter is None
                    &&& r.next_try == Some(spec_later(now, RETRY_PERIOD))
                },
                DriverEvent::Event(key, section) => {
                    &&& final(self)@ == old(self)@.read(now, key@, section)
                    &&& same_index(r.filter, old(self)@.refits(key@))
                    &&& r.next_try is None
                    &&& if old(self)@.frame_due(now) {
                        r.event matches Some(Event::FrameEncoded(buf)) && buf@ == frame_of(
                            final(self)@.scans,
                        )
                    } else {
                        r.event is None
                    }
                },
            },
    {
        let ghost before = self@;
        match e {
            DriverEvent::Connected(key) => {
                let ghost name = key@;
                proof {
                    indexer::lemma_indices_stay_valid(before.slots, DEVICES as nat, name);
                    indexer::lemma_position(before.slots, name);
                }
                let given = self.indexer.add(key);
                if let Some(i) = given {
                    self.need_update[i] = false;
                    let mut j: usize = i + 1;
                    while j < DEVICES
                        invariant
                            i < j <= DEVICES,
                            self.need_update@.len() == DEVICES,
                            self.indexer@ == after_add(before.slots, DEVICES as nat, name),
                            self.indexer.wf(),
                            self.indexer.spec_capacity() == DEVICES,
                            self.send_time == before.send_time,
                            self.group@ == before.scans,
                            forall|k: int|
                                0 <= k < DEVICES ==> self.need_update@[k] == if k == i {
                                    false
                                } else if i < k < j {
                                    true
                                } else {
                                    before.need_update[k]
                                },
                        decreases DEVICES - j,
                    {
                        self.need_update[j] = true;
                        j += 1;
                    }
                    self.group.clear_from(i);
                    assert(self@.need_update =~= flags_after_arrival(before.need_update, i as int));
                }
                Reaction { event: Some(Event::Connected), filter: given, next_try: None }
            },
            DriverEvent::Disconnected(key) => {
                proof {
                    indexer::lemma_indices_stay_valid(before.slots, DEVICES as nat, key@);
                    indexer::lemma_position(before.slots, key@);
                }
                if let Some(i) = self.indexer.remove(&key) {
                    let mut j: usize = i;
                    while j < DEVICES
                        invariant
                            i <= j <= DEVICES,
                            self.need_update@.len() == DEVICES,
                            self.indexer@ == after_remove(before.slots, key@),
                            self.indexer.wf(),
                            self.indexer.spec_capacity() == DEVICES,
                            self.send_time == before.send_time,
                            self.group@ == before.scans,
                            forall|k: int|
                                0 <= k < DEVICES ==> self.need_update@[k] == if i <= k < j {
                                    true
                                } else {
                                    before.need_update[k]
                                },
                        decreases DEVICES - j,
                    {
                        self.need_update[j] = true;
                        j += 1;
                    }
                    self.group.clear_from(i);
                    assert(self@.need_update =~= flags_after_departure(before.need_update, i as int));
                }
                Reaction { event: Some(Event::Disconnected), filter: None, next_try: None }
            },
            DriverEvent::ConnectFailed => {
                Reaction { event: None, filter: None, next_try: Some(later(now, RETRY_PERIOD)) }
            },
            DriverEvent::Event(key, section) => {
                proof {
                    indexer::lemma_position(before.slots, key@);
                }
                let mut refit: Option<usize> = None;
                if let Some(j) = self.indexer.find(&key) {
                    if self.need_update[j] {
                        refit = Some(j);
                        self.need_update[j] = false;
                        self.group.clear(j);
                    }
                    assert(self@.need_update =~= before.need_update.update(j as int, false));
                    if let Some(s) = section {
                        self.group.put(j, s.index, s.zipped, s.points);
                    }
                    assert(self@.scans =~= before.scans_after_read(key@, section));
                }
                let due = self.indexer.len() > 0 && now >= self.send_time;
                if due {
                    self.send_time = later(now, FRAME_PERIOD);
                    let buf = self.group.frame();
                    Reaction { event: Some(Event::FrameEncoded(buf)), filter: refit, next_try: None }
                } else {
                    Reaction { event: None, filter: refit, next_try: None }
                }
            },
        }
    }
}

/// Frames keep their distance: after a frame has gone out at `now`, none
/// goes out before a frame period has passed, whatever device is read and
/// whatever devices come and go in between, while the clock lasts.
pub proof fn law_frames_keep_their_distance(
    state: State,
    now: u64,
    key: Seq<char>,
    section: Option<Section>,
    comes: Seq<char>,
    goes: Seq<char>,
    then: u64,
)
    requires
        state.frame_due(now),
        then < now + FRAME_PERIOD,
        now + FRAME_PERIOD <= u64::MAX,
    ensures
        !state.read(now, key, section).frame_due(then),
        !state.read(now, key, section).connected(comes).frame_due(then),
        !state.read(now, key, section).disconnected(goes).frame_due(then),
{
}

/// A frame that is due goes out with the next device that is read, and the
/// one after it is due a frame period later.
pub proof fn law_frame_follows_frame(state: State, now: u64, key: Seq<char>, section: Option<Section>)
    requires
        state.frame_due(now),
        now + FRAME_PERIOD <= u64::MAX,
    ensures
        state.read(now, key, section).send_time == now + FRAME_PERIOD,
        state.read(now, key, section).frame_due((now + FRAME_PERIOD) as u64),
{
}

/// Whatever the driver reports, a device that has an index keeps it.
pub proof fn law_events_keep_indices(
    state: State,
    now: u64,
    key: Seq<char>,
    other: Seq<char>,
    section: Option<Section>,
)
    requires
        state.wf(),
        indexer::position(state.slots, key) is Some,
    ensures
        indexer::position(state.connected(other).slots, key) == indexer::position(state.slots, key),
        indexer::position(state.disconnected(other).slots, key) == indexer::position(
            state.slots,
            key,
        ),
        indexer::position(state.read(now, other, section).slots, key) == indexer::position(
            state.slots,
            key,
        ),
{
    indexer::law_add_keeps_indices(state.slots, DEVICES as nat, key, other);
    indexer::law_remove_keeps_indices(state.slots, key, other);
    indexer::lemma_position(state.slots, other);
}

/// After a device has come or gone, every device present above its index is
/// handed its filter when it is next read. The device that has come has
/// been handed its own, and the devices below are as they were.
pub proof fn law_changes_refit_the_devices_above(state: State, key: Seq<char>, other: Seq<char>)
    requires
        state.wf(),
    ensures
        match index_added(state.slots, DEVICES as nat, key) {
            Some(i) => match found(state.connected(key).slots, other) {
                Some(j) => state.connected(key).refits(other) == if j > i {
                    Some(j)
                } else if j == i {
                    None
                } else {
                    state.refits(other)
                },
                None => state.connected(key).refits(other) is None,
            },
            None => state.connected(key) == state,
        },
        match found(state.slots, key) {
            Some(i) => match found(state.disconnected(key).slots, other) {
                Some(j) => j != i && state.disconnected(key).refits(other) == if j > i {
                    Some(j)
                } else {
                    state.refits(other)
                },
                None => state.disconnected(key).refits(other) is None,
            },
            None => state.disconnected(key) == state,
        },
{
    indexer::lemma_position(state.slots, key);
    indexer::lemma_position(state.slots, other);
    indexer::lemma_position(state.connected(key).slots, other);
    indexer::lemma_position(state.disconnected(key).slots, other);
}

/// Whatever the driver reports, the supervisor stays in a state that it can
/// be in. In particular nothing is kept of a device that is away: its scan
/// is emptied when it leaves, and nothing is stored for it until it is back.
pub proof fn law_state_stays_valid(
    state: State,
    now: u64,
    key: Seq<char>,
    section: Option<Section>,
)
    requires
        state.wf(),
    ensures
        state.connected(key).wf(),
        state.disconnected(key).wf(),
        state.read(now, key, section).wf(),
{
    indexer::lemma_indices_stay_valid(state.slots, DEVICES as nat, key);
    indexer::lemma_position(state.slots, key);
}

} // verus!
