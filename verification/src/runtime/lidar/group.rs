//! What the range finders have seen: per device, the latest scan as it goes
//! on the wire and as points around the robot.

use vstd::prelude::*;
use crate::pose::{le_bytes_u16, push_u16, Pose};

verus! {

/// A point in the robot's frame; each coordinate is the bit pattern of a
/// binary32 number of metres.
#[derive(Clone, Copy, Debug, PartialEq, Eq, Structural)]
pub struct Spot {
    pub x: u32,
    pub y: u32,
}

/// The scan of one device: its sections as compressed bytes and as points,
/// and where the device is mounted.
pub struct Scan {
    pub sections: Seq<Seq<u8>>,
    pub points: Seq<Seq<Spot>>,
    pub trans: Pose,
}

/// The sections `sections` with `section` stored as number `i`; sections
/// missing up to `i` are there and empty.
pub open spec fn stored<A>(sections: Seq<Seq<A>>, i: int, section: Seq<A>) -> Seq<Seq<A>> {
    if i < sections.len() {
        sections.update(i, section)
    } else {
        (sections + Seq::new((i - sections.len()) as nat, |k: int| Seq::<A>::empty())).push(
            section,
        )
    }
}

/// All sections one after the other.
pub open spec fn concat(sections: Seq<Seq<u8>>) -> Seq<u8>
    decreases sections.len(),
{
    if sections.len() == 0 {
        Seq::empty()
    } else {
        concat(sections.drop_last()) + sections.last()
    }
}

/// The length field of a record: the number of compressed bytes, as far as
/// sixteen bits hold it.
pub open spec fn length_field(n: nat) -> u16 {
    (n % 0x1_0000) as u16
}

impl Scan {
    /// A scan with no section, of a device mounted at `trans`.
    pub open spec fn empty(trans: Pose) -> Scan {
        Scan { sections: Seq::empty(), points: Seq::empty(), trans }
    }

    /// The record of the scan on the wire: the length of the compressed
    /// bytes in two bytes, least significant first, the mounting pose in
    /// twelve bytes, then the compressed bytes of all sections in order.
    pub open spec fn record(self) -> Seq<u8> {
        le_bytes_u16(length_field(concat(self.sections).len())) + self.trans.bytes() + concat(
            self.sections,
        )
    }
}

/// The records of the scans, one after the other.
pub open spec fn records(scans: Seq<Scan>) -> Seq<u8>
    decreases scans.len(),
{
    if scans.len() == 0 {
        Seq::empty()
    } else {
        records(scans.drop_last()) + scans.last().record()
    }
}

/// The frame that goes to the clients for the scans of all devices: two zero
/// bytes, then the record of each device by ascending index.
pub open spec fn frame_of(scans: Seq<Scan>) -> Seq<u8> {
    seq![0u8, 0u8] + records(scans)
}

/// The scans with those at index `from` and above emptied.
pub open spec fn cleared_from(scans: Seq<Scan>, from: int) -> Seq<Scan> {
    Seq::new(
        scans.len(),
        |j: int|
            if j >= from {
                Scan::empty(scans[j].trans)
            } else {
                scans[j]
            },
    )
}

/// Keeps the latest scan of one device.
pub struct Collector {
    points: Vec<Vec<Spot>>,
    bits: Vec<Vec<u8>>,
    trans: Pose,
}

impl Collector {
    /// The scan that the collector holds.
    pub closed spec fn view(&self) -> Scan {
        Scan {
            sections: Seq::new(self.bits.len() as nat, |i: int| self.bits[i]@),
            points: Seq::new(self.points.len() as nat, |i: int| self.points[i]@),
            trans: self.trans,
        }
    }

    /// A collector with an empty scan, for a device mounted at `trans`.
    pub fn new(trans: Pose) -> (r: Self)
        ensures
            r@ == Scan::empty(trans),
    {
        let r = Collector { points: Vec::new(), bits: Vec::new(), trans };
        assert(r@.sections =~= Seq::empty());
        assert(r@.points =~= Seq::empty());
        r
    }

    /// Where the device is mounted.
    pub fn trans(&self) -> (r: Pose)
        ensures
            r == self@.trans,
    {
        self.trans
    }

    /// The points of the scan, section by section.
    pub fn points(&self) -> (r: &Vec<Vec<Spot>>)
        ensures
            r@.len() == self@.points.len(),
            forall|i: int| 0 <= i < r@.len() ==> r@[i]@ == self@.points[i],
    {
        &self.points
    }

    /// Stores section number `i` of the scan, compressed and as points, in
    /// place of what was stored under that number.
    pub fn put(&mut self, i: usize, zipped: Vec<u8>, points: Vec<Spot>)
        ensures
            final(self)@.sections == stored(old(self)@.sections, i as int, zipped@),
            final(self)@.points == stored(old(self)@.points, i as int, points@),
            final(self)@.trans == old(self)@.trans,
    {
        if i < self.bits.len() {
            self.bits[i] = zipped;
        } else {
            while self.bits.len() < i
                invariant
                    old(self).bits.len() <= self.bits.len() <= i,
                    self.points == old(self).points,
                    self.trans == old(self).trans,
                    forall|k: int| 0 <= k < old(self).bits.len() ==> self.bits[k] == old(self).bits[k],
                    forall|k: int| old(self).bits.len() <= k < self.bits.len() ==> self.bits[k]@ == Seq::<u8>::empty(),
                decreases i - self.bits.len(),
            {
                self.bits.push(Vec::new());
            }
            self.bits.push(zipped);
        }
        let ghost half = self@;
        if i < self.points.len() {
            self.points[i] = points;
        } else {
            while self.points.len() < i
                invariant
                    old(self).points.len() <= self.points.len() <= i,
                    self@.sections == half.sections,
                    self.trans == old(self).trans,
                    forall|k: int| 0 <= k < old(self).points.len() ==> self.points[k] == old(self).points[k],
                    forall|k: int| old(self).points.len() <= k < self.points.len() ==> self.points[k]@ == Seq::<Spot>::empty(),
                decreases i - self.points.len(),
            {
                self.points.push(Vec::new());
            }
            self.points.push(points);
        }
    }

    /// Appends the record of the scan to `buf`.
    pub fn write_to(&self, buf: &mut Vec<u8>)
        ensures
            final(buf)@ == old(buf)@ + self@.record(),
    {
        let ghost sections = self@.sections;
        let mut total: usize = 0;
        let mut k: usize = 0;
        while k < self.bits.len()
            invariant
                k <= self.bits.len(),
                sections == self@.sections,
                total == concat(sections.take(k as int)).len() % 0x1_0000,
            decreases self.bits.len() - k,
        {
            assert(sections.take(k + 1).drop_last() =~= sections.take(k as int));
            total = (total + self.bits[k].len() % 0x1_0000) % 0x1_0000;
            k += 1;
        }
        assert(sections.take(k as int) =~= sections);
        push_u16(buf, total as u16);
        self.trans.write_to(buf);
        let ghost head = buf@;
        let mut k: usize = 0;
        while k < self.bits.len()
            invariant
                k <= self.bits.len(),
                sections == self@.sections,
                buf@ == head + concat(sections.take(k as int)),
            decreases self.bits.len() - k,
        {
            let section = &self.bits[k];
            let ghost so_far = buf@;
            let mut n: usize = 0;
            while n < section.len()
                invariant
                    n <= section.len(),
                    buf@ == so_far + section@.take(n as int),
                decreases section.len() - n,
            {
                buf.push(section[n]);
                n += 1;
            }
            assert(sections.take(k + 1).drop_last() =~= sections.take(k as int));
            k += 1;
        }
    }

    /// Empties the scan.
    pub fn clear(&mut self)
        ensures
            final(self)@ == Scan::empty(old(self)@.trans),
    {
        self.points.clear();
        self.bits.clear();
        assert(self@.sections =~= Seq::empty());
        assert(self@.points =~= Seq::empty());
    }
}

/// The collectors of all devices, by index.
pub struct Group {
    collectors: Vec<Collector>,
}

impl Group {
    /// The scan of each device, by index.
    pub closed spec fn view(&self) -> Seq<Scan> {
        Seq::new(self.collectors.len() as nat, |j: int| self.collectors[j]@)
    }

    /// A group of one empty collector for each mounting pose.
    pub fn build(trans: &[Pose]) -> (r: Self)
        ensures
            r@.len() == trans@.len(),
            forall|j: int| 0 <= j < trans@.len() ==> r@[j] == Scan::empty(trans@[j]),
    {
        let mut collectors: Vec<Collector> = Vec::new();
        let mut j: usize = 0;
        while j < trans.len()
            invariant
                j <= trans.len(),
                collectors.len() == j,
                forall|k: int| 0 <= k < j ==> collectors[k]@ == Scan::empty(trans@[k]),
            decreases trans.len() - j,
        {
            collectors.push(Collector::new(trans[j]));
            j += 1;
        }
        Group { collectors }
    }

    /// The number of devices.
    pub fn len(&self) -> (r: usize)
        ensures
            r == self@.len(),
    {
        self.collectors.len()
    }

    /// The collector of device `j`.
    pub fn collector(&self, j: usize) -> (r: &Collector)
        requires
            j < self@.len(),
        ensures
            r@ == self@[j as int],
    {
        &self.collectors[j]
    }

    /// Stores section number `i` of the scan of device `j`.
    pub fn put(&mut self, j: usize, i: usize, zipped: Vec<u8>, points: Vec<Spot>)
        requires
            j < old(self)@.len(),
        ensures
            final(self)@ == old(self)@.update(
                j as int,
                Scan {
                    sections: stored(old(self)@[j as int].sections, i as int, zipped@),
                    points: stored(old(self)@[j as int].points, i as int, points@),
                    trans: old(self)@[j as int].trans,
                },
            ),
    {
        self.collectors[j].put(i, zipped, points);
    }

    /// Empties the scan of device `j`.
    pub fn clear(&mut self, j: usize)
        requires
            j < old(self)@.len(),
        ensures
            final(self)@ == old(self)@.update(j as int, Scan::empty(old(self)@[j as int].trans)),
    {
        self.collectors[j].clear();
    }

    /// Empties the scans of the devices at index `from` and above.
    pub fn clear_from(&mut self, from: usize)
        ensures
            final(self)@ == cleared_from(old(self)@, from as int),
    {
        let ghost before = self@;
        let mut j: usize = from;
        while j < self.collectors.len()
            invariant
                self.collectors.len() == before.len(),
                from <= j,
                forall|k: int| 0 <= k < before.len() ==> self@[k] == if from <= k < j {
                    Scan::empty(before[k].trans)
                } else {
                    before[k]
                },
            decreases self.collectors.len() - j,
        {
            let ghost now = self@;
            self.collectors[j].clear();
            assert forall|k: int| 0 <= k < before.len() implies self@[k] == if from <= k < j + 1 {
                Scan::empty(before[k].trans)
            } else {
                before[k]
            } by {
                if k != j {
                    assert(self@[k] == now[k]);
                } else {
                    assert(now[k].trans == before[k].trans);
                }
            }
            j += 1;
        }
    }

    /// The frame for the clients: see [`frame_of`].
    pub fn frame(&self) -> (buf: Vec<u8>)
        ensures
            buf@ == frame_of(self@),
    {
        let mut buf: Vec<u8> = Vec::new();
        buf.push(0);
        buf.push(0);
        let mut j: usize = 0;
        while j < self.collectors.len()
            invariant
                j <= self.collectors.len(),
                buf@ == seq![0u8, 0u8] + records(self@.take(j as int)),
            decreases self.collectors.len() - j,
        {
            self.collectors[j].write_to(&mut buf);
            assert(self@.take(j + 1).drop_last() =~= self@.take(j as int));
            j += 1;
        }
        assert(self@.take(j as int) =~= self@);
        buf
    }
}

} // verus!
