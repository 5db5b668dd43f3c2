//! Packed connectivity flags of the robot's peripherals.
//!
//! A code is a 32-bit word with one flag per peripheral. Flags are raised and
//! lowered in groups, and an operation reports the new word only when the word
//! really changed, so that a listener hears of every change exactly once.

use vstd::prelude::*;

pub mod atomic;

verus! {

/// Number of flag positions in a code.
pub const BITS: u8 = 32;

/// Position of the chassis link flag.
pub const CHASSIS: u8 = 0;

/// Position of the chassis power switch flag.
pub const POWER_SWITCH: u8 = 1;

/// Position of the flag of the serial link to the RTK board.
pub const RTK_SERIAL: u8 = 2;

/// Position of the flag of the network link to the correction service.
pub const RTK_NETWORK: u8 = 3;

/// Position of the flag that tells that the latest fix is good enough to navigate by.
pub const RTK_FIX: u8 = 4;

/// Packed word of connectivity flags, one bit per peripheral.
#[derive(Clone, Copy, Debug, PartialEq, Eq, Structural)]
pub struct DeviceCode(pub u32);

/// Whether every listed position names a flag of the word.
pub open spec fn in_range(indices: Seq<u8>) -> bool {
    forall|k: int| 0 <= k < indices.len() ==> indices[k] < BITS
}

/// The word in which exactly the listed positions are raised.
pub open spec fn mask_of(indices: Seq<u8>) -> u32
    decreases indices.len(),
{
    if indices.len() == 0 {
        0
    } else {
        mask_of(indices.drop_last()) | (1u32 << indices.last())
    }
}

/// The word `code` with the listed flags raised.
pub open spec fn raised(code: u32, indices: Seq<u8>) -> u32 {
    code | mask_of(indices)
}

/// The word `code` with the listed flags lowered.
pub open spec fn lowered(code: u32, indices: Seq<u8>) -> u32 {
    code & !mask_of(indices)
}

/// What an operation reports when it turned `before` into `after`: the new
/// word if it differs, nothing if it does not.
pub open spec fn report(before: u32, after: u32) -> Option<u32> {
    if after != before {
        Some(after)
    } else {
        None
    }
}

impl DeviceCode {
    /// Whether the flag at position `i` is raised.
    pub open spec fn has(self, i: u8) -> bool {
        self.0 & (1u32 << i) != 0
    }

    /// Raises the listed flags. Returns the new word if any flag changed.
    pub fn set(&mut self, indices: &[u8]) -> (r: Option<u32>)
        requires
            in_range(indices@),
        ensures
            final(self).0 == raised(old(self).0, indices@),
            r == report(old(self).0, final(self).0),
    {
        let first: u32 = self.0;
        let mut any: bool = false;
        let mut k: usize = 0;
        assert(first | 0u32 == first) by (bit_vector);
        while k < indices.len()
            invariant
                k <= indices.len(),
                in_range(indices@),
                self.0 == raised(first, indices@.take(k as int)),
                any == (self.0 != first),
            decreases indices.len() - k,
        {
            let i: u8 = indices[k];
            let ghost m: u32 = mask_of(indices@.take(k as int));
            let changed = self.set_bit(i);
            proof {
                let b: u32 = 1u32 << i;
                assert(indices@.take(k + 1).drop_last() =~= indices@.take(k as int));
                assert((first | m) | b == first | (m | b)) by (bit_vector);
                assert(((first | m) | b) == first ==> (first | m) == first) by (bit_vector);
            }
            any = any || changed;
            k += 1;
        }
        assert(indices@.take(k as int) =~= indices@);
        if any {
            Some(self.0)
        } else {
            None
        }
    }

    /// Lowers the listed flags. Returns the new word if any flag changed.
    pub fn clear(&mut self, indices: &[u8]) -> (r: Option<u32>)
        requires
            in_range(indices@),
        ensures
            final(self).0 == lowered(old(self).0, indices@),
            r == report(old(self).0, final(self).0),
    {
        let first: u32 = self.0;
        let mut any: bool = false;
        let mut k: usize = 0;
        assert(first & !0u32 == first) by (bit_vector);
        while k < indices.len()
            invariant
                k <= indices.len(),
                in_range(indices@),
                self.0 == lowered(first, indices@.take(k as int)),
                any == (self.0 != first),
            decreases indices.len() - k,
        {
            let i: u8 = indices[k];
            let ghost m: u32 = mask_of(indices@.take(k as int));
            let changed = self.clear_bit(i);
            proof {
                let b: u32 = 1u32 << i;
                assert(indices@.take(k + 1).drop_last() =~= indices@.take(k as int));
                assert((first & !m) & !b == first & !(m | b)) by (bit_vector);
                assert(((first & !m) & !b) == first ==> (first & !m) == first) by (bit_vector);
            }
            any = any || changed;
            k += 1;
        }
        assert(indices@.take(k as int) =~= indices@);
        if any {
            Some(self.0)
        } else {
            None
        }
    }

    /// Raises the flag at position `i`; tells whether the word changed.
    pub fn set_bit(&mut self, i: u8) -> (changed: bool)
        requires
            i < BITS,
        ensures
            final(self).0 == old(self).0 | (1u32 << i),
            changed == !old(self).has(i),
            changed == (final(self).0 != old(self).0),
    {
        let mask: u32 = 1u32 << i;
        let last: u32 = self.0;
        assert((last & mask == 0) <==> ((last | mask) != last)) by (bit_vector)
            requires
                mask == 1u32 << i,
                i < 32,
        ;
        if self.0 & mask == 0 {
            self.0 = self.0 | mask;
            true
        } else {
            false
        }
    }

    /// Lowers the flag at position `i`; tells whether the word changed.
    pub fn clear_bit(&mut self, i: u8) -> (changed: bool)
        requires
            i < BITS,
        ensures
            final(self).0 == old(self).0 & !(1u32 << i),
            changed == old(self).has(i),
            changed == (final(self).0 != old(self).0),
    {
        let mask: u32 = 1u32 << i;
        let last: u32 = self.0;
        assert((last & mask != 0) <==> ((last & !mask) != last)) by (bit_vector);
        if self.0 & mask != 0 {
            self.0 = self.0 & !mask;
            true
        } else {
            false
        }
    }
}

/// A change in what is usable: a link that has come up or gone down.
#[derive(Clone, Copy, Debug, PartialEq, Eq, Structural)]
pub enum Link {
    /// The chassis is there, or gone.
    Chassis(bool),
    /// The power switch of the chassis is on, or off.
    PowerSwitch(bool),
    /// The RTK board answers on its serial port, or is gone.
    RtkSerial(bool),
    /// The correction service is connected, or not.
    RtkNetwork(bool),
    /// The latest fix is good enough to navigate by, or not.
    RtkFix(bool),
}

impl Link {
    /// Whether the change raises flags; otherwise it lowers them.
    pub open spec fn up(self) -> bool {
        match self {
            Link::Chassis(up) => up,
            Link::PowerSwitch(up) => up,
            Link::RtkSerial(up) => up,
            Link::RtkNetwork(up) => up,
            Link::RtkFix(up) => up,
        }
    }

    /// The flags that the change raises or lowers. A link that goes down
    /// takes with it what depends on it: the chassis its power switch, the
    /// RTK board its fix.
    pub open spec fn flags(self) -> Seq<u8> {
        match self {
            Link::Chassis(true) => seq![CHASSIS],
            Link::Chassis(false) => seq![CHASSIS, POWER_SWITCH],
            Link::PowerSwitch(_) => seq![POWER_SWITCH],
            Link::RtkSerial(true) => seq![RTK_SERIAL],
            Link::RtkSerial(false) => seq![RTK_SERIAL, RTK_FIX],
            Link::RtkNetwork(_) => seq![RTK_NETWORK],
            Link::RtkFix(_) => seq![RTK_FIX],
        }
    }

    /// The word that the change makes of `code`.
    pub open spec fn applied(self, code: u32) -> u32 {
        if self.up() {
            raised(code, self.flags())
        } else {
            lowered(code, self.flags())
        }
    }
}

impl DeviceCode {
    /// Notes a change of a link. Returns the new word if any flag changed.
    pub fn switch(&mut self, link: Link) -> (r: Option<u32>)
        ensures
            final(self).0 == link.applied(old(self).0),
            r == report(old(self).0, final(self).0),
    {
        match link {
            Link::Chassis(true) => {
                let flags = [CHASSIS];
                assert(flags@ =~= link.flags());
                self.set(flags.as_slice())
            },
            Link::Chassis(false) => {
                let flags = [CHASSIS, POWER_SWITCH];
                assert(flags@ =~= link.flags());
                self.clear(flags.as_slice())
            },
            Link::PowerSwitch(up) => {
                let flags = [POWER_SWITCH];
                assert(flags@ =~= link.flags());
                if up {
                    self.set(flags.as_slice())
                } else {
                    self.clear(flags.as_slice())
                }
            },
            Link::RtkSerial(true) => {
                let flags = [RTK_SERIAL];
                assert(flags@ =~= link.flags());
                self.set(flags.as_slice())
            },
            Link::RtkSerial(false) => {
                let flags = [RTK_SERIAL, RTK_FIX];
                assert(flags@ =~= link.flags());
                self.clear(flags.as_slice())
            },
            Link::RtkNetwork(up) => {
                let flags = [RTK_NETWORK];
                assert(flags@ =~= link.flags());
                if up {
                    self.set(flags.as_slice())
                } else {
                    self.clear(flags.as_slice())
                }
            },
            Link::RtkFix(up) => {
                let flags = [RTK_FIX];
                assert(flags@ =~= link.flags());
                if up {
                    self.set(flags.as_slice())
                } else {
                    self.clear(flags.as_slice())
                }
            },
        }
    }
}

impl Default for DeviceCode {
    /// The word with every flag lowered.
    fn default() -> (r: Self)
        ensures
            r.0 == 0,
    {
        DeviceCode(0)
    }
}

/// The listed positions hold a raised flag in `mask_of`, and no other does.
pub proof fn lemma_mask_flags(indices: Seq<u8>, j: u8)
    requires
        in_range(indices),
        j < BITS,
    ensures
        DeviceCode(mask_of(indices)).has(j) <==> indices.contains(j),
    decreases indices.len(),
{
    let b: u32 = 1u32 << j;
    if indices.len() == 0 {
        assert(0u32 & b == 0) by (bit_vector);
    } else {
        let rest = indices.drop_last();
        let i = indices.last();
        let m = mask_of(rest);
        lemma_mask_flags(rest, j);
        assert(((m | (1u32 << i)) & b != 0) <==> (m & b != 0 || i == j)) by (bit_vector)
            requires
                b == 1u32 << j,
                i < 32,
                j < 32,
        ;
        if rest.contains(j) {
            let k = choose|k: int| 0 <= k < rest.len() && rest[k] == j;
            assert(indices[k] == j);
        }
        if indices.contains(j) && i != j {
            let k = choose|k: int| 0 <= k < indices.len() && indices[k] == j;
            assert(rest[k] == j);
        }
        if i == j {
            assert(indices[indices.len() - 1] == j);
        }
    }
}

/// Raising flags raises the listed ones and leaves every other flag as it was.
pub proof fn law_set_raises_the_listed_flags(code: u32, indices: Seq<u8>, j: u8)
    requires
        in_range(indices),
        j < BITS,
    ensures
        DeviceCode(raised(code, indices)).has(j) <==> DeviceCode(code).has(j) || indices.contains(j),
{
    let b: u32 = 1u32 << j;
    let m = mask_of(indices);
    lemma_mask_flags(indices, j);
    assert(((code | m) & b != 0) <==> (code & b != 0 || m & b != 0)) by (bit_vector);
}

/// Lowering flags lowers the listed ones and leaves every other flag as it was.
pub proof fn law_clear_lowers_the_listed_flags(code: u32, indices: Seq<u8>, j: u8)
    requires
        in_range(indices),
        j < BITS,
    ensures
        DeviceCode(lowered(code, indices)).has(j) <==> DeviceCode(code).has(j) && !indices.contains(j),
{
    let b: u32 = 1u32 << j;
    let m = mask_of(indices);
    lemma_mask_flags(indices, j);
    assert(((code & !m) & b != 0) <==> (code & b != 0 && !(m & b != 0))) by (bit_vector)
        requires
            b == 1u32 << j,
            j < 32,
    ;
}

/// One operation on a code: the flags to raise, or the flags to lower.
pub enum Change {
    Raise(Seq<u8>),
    Lower(Seq<u8>),
}

impl Change {
    /// The word that the operation makes of `code`.
    pub open spec fn apply(self, code: u32) -> u32 {
        match self {
            Change::Raise(indices) => raised(code, indices),
            Change::Lower(indices) => lowered(code, indices),
        }
    }
}

/// The word after the operations `ops`, made in order on `start`.
pub open spec fn code_after(start: u32, ops: Seq<Change>) -> u32
    decreases ops.len(),
{
    if ops.len() == 0 {
        start
    } else {
        ops.last().apply(code_after(start, ops.drop_last()))
    }
}

/// The word after each of the operations `ops`, made in order on `start`.
pub open spec fn codes(start: u32, ops: Seq<Change>) -> Seq<u32>
    decreases ops.len(),
{
    if ops.len() == 0 {
        Seq::empty()
    } else {
        codes(start, ops.drop_last()).push(code_after(start, ops))
    }
}

/// The words that the operations `ops` report, in order, when they are made
/// on `start`: one for each operation that reports any.
pub open spec fn events(start: u32, ops: Seq<Change>) -> Seq<u32>
    decreases ops.len(),
{
    if ops.len() == 0 {
        Seq::empty()
    } else {
        let before = code_after(start, ops.drop_last());
        match report(before, ops.last().apply(before)) {
            Some(code) => events(start, ops.drop_last()).push(code),
            None => events(start, ops.drop_last()),
        }
    }
}

/// The entries of `trace` that differ from the entry before them, in order;
/// `start` stands before the first.
pub open spec fn changes(start: u32, trace: Seq<u32>) -> Seq<u32>
    decreases trace.len(),
{
    if trace.len() == 0 {
        Seq::empty()
    } else {
        let before = if trace.len() == 1 {
            start
        } else {
            trace[trace.len() - 2]
        };
        if trace.last() != before {
            changes(start, trace.drop_last()).push(trace.last())
        } else {
            changes(start, trace.drop_last())
        }
    }
}

/// For every sequence of `set` and `clear` operations, the words reported are
/// exactly the subsequence of the words held at which the word changed.
pub proof fn law_events_are_the_changes(start: u32, ops: Seq<Change>)
    ensures
        codes(start, ops).len() == ops.len(),
        ops.len() > 0 ==> codes(start, ops).last() == code_after(start, ops),
        events(start, ops) == changes(start, codes(start, ops)),
    decreases ops.len(),
{
    if ops.len() > 0 {
        let rest = ops.drop_last();
        law_events_are_the_changes(start, rest);
        assert(codes(start, ops).drop_last() =~= codes(start, rest));
    }
}

} // verus!
