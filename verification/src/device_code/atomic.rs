//! The connectivity code behind an atomic word, for writers on several threads.
//!
//! Every operation is one atomic read-modify-write. What the word held before
//! is known only to the operation itself, so the contracts here say what holds
//! of the report whatever the word held, and [`settle_set`] and
//! [`settle_clear`] say what is reported for each word it may have held.

use std::sync::atomic::AtomicU32;
use std::sync::atomic::Ordering;
use std::sync::Arc;
use vstd::prelude::*;
use super::{
    in_range, lowered, raised, report, DeviceCode, Link, CHASSIS, POWER_SWITCH, RTK_FIX, RTK_NETWORK,
    RTK_SERIAL,
};

verus! {

/// Connectivity code shared between threads.
#[derive(Clone)]
pub struct AtomicDeviceCode(Arc<AtomicU32>);

/// The word `code` with the listed flags raised, if that is another word.
pub fn raise(code: u32, indices: &[u8]) -> (r: Option<u32>)
    requires
        in_range(indices@),
    ensures
        r == report(code, raised(code, indices@)),
{
    let mut next = DeviceCode(code);
    next.set(indices)
}

/// The word `code` with the listed flags lowered, if that is another word.
pub fn lower(code: u32, indices: &[u8]) -> (r: Option<u32>)
    requires
        in_range(indices@),
    ensures
        r == report(code, lowered(code, indices@)),
{
    let mut next = DeviceCode(code);
    next.clear(indices)
}

/// `AtomicU32::fetch_update` with [`raise`] as the update. It hands back the
/// word it found: as `Ok` if [`raise`] gave a new word for it, which was then
/// stored, as `Err` if [`raise`] gave none and the word was left alone.
#[verifier::external_body]
fn fetch_raise(word: &AtomicU32, indices: &[u8]) -> (r: Result<u32, u32>)
    requires
        in_range(indices@),
    ensures
        r matches Ok(last) ==> report(last, raised(last, indices@)) is Some,
        r matches Err(last) ==> report(last, raised(last, indices@)) is None,
{
    word.fetch_update(Ordering::SeqCst, Ordering::SeqCst, |last| raise(last, indices))
}

/// `AtomicU32::fetch_update` with [`lower`] as the update. It hands back the
/// word it found: as `Ok` if [`lower`] gave a new word for it, which was then
/// stored, as `Err` if [`lower`] gave none and the word was left alone.
#[verifier::external_body]
fn fetch_lower(word: &AtomicU32, indices: &[u8]) -> (r: Result<u32, u32>)
    requires
        in_range(indices@),
    ensures
        r matches Ok(last) ==> report(last, lowered(last, indices@)) is Some,
        r matches Err(last) ==> report(last, lowered(last, indices@)) is None,
{
    word.fetch_update(Ordering::SeqCst, Ordering::SeqCst, |last| lower(last, indices))
}

/// What raising the listed flags reports, given how the update of the shared
/// word ended: the new code where a word was replaced, nothing otherwise.
pub fn settle_set(outcome: Result<u32, u32>, indices: &[u8]) -> (r: Option<DeviceCode>)
    requires
        in_range(indices@),
    ensures
        r == match outcome {
            Ok(last) => match report(last, raised(last, indices@)) {
                Some(code) => Some(DeviceCode(code)),
                None => None,
            },
            Err(_) => None,
        },
{
    match outcome {
        Ok(last) => match raise(last, indices) {
            Some(code) => Some(DeviceCode(code)),
            None => None,
        },
        Err(_) => None,
    }
}

/// What lowering the listed flags reports, given how the update of the shared
/// word ended: the new code where a word was replaced, nothing otherwise.
pub fn settle_clear(outcome: Result<u32, u32>, indices: &[u8]) -> (r: Option<DeviceCode>)
    requires
        in_range(indices@),
    ensures
        r == match outcome {
            Ok(last) => match report(last, lowered(last, indices@)) {
                Some(code) => Some(DeviceCode(code)),
                None => None,
            },
            Err(_) => None,
        },
{
    match outcome {
        Ok(last) => match lower(last, indices) {
            Some(code) => Some(DeviceCode(code)),
            None => None,
        },
        Err(_) => None,
    }
}

impl AtomicDeviceCode {
    /// Raises the listed flags in one atomic step. Reports the new code if a
    /// flag changed: a report has every listed flag raised, and it is what
    /// raising them makes of some other word.
    pub fn set(&self, indices: &[u8]) -> (r: Option<DeviceCode>)
        requires
            in_range(indices@),
        ensures
            r matches Some(code) ==> raised(code.0, indices@) == code.0,
            r matches Some(code) ==> exists|last: u32|
                #[trigger] raised(last, indices@) == code.0 && last != code.0,
    {
        let outcome = fetch_raise(&self.0, indices);
        proof {
            if let Ok(last) = outcome {
                let m = super::mask_of(indices@);
                assert((last | m) | m == last | m) by (bit_vector);
            }
        }
        settle_set(outcome, indices)
    }

    /// Lowers the listed flags in one atomic step. Reports the new code if a
    /// flag changed: a report has every listed flag lowered, and it is what
    /// lowering them makes of some other word.
    pub fn clear(&self, indices: &[u8]) -> (r: Option<DeviceCode>)
        requires
            in_range(indices@),
        ensures
            r matches Some(code) ==> lowered(code.0, indices@) == code.0,
            r matches Some(code) ==> exists|last: u32|
                #[trigger] lowered(last, indices@) == code.0 && last != code.0,
    {
        let outcome = fetch_lower(&self.0, indices);
        proof {
            if let Ok(last) = outcome {
                let m = super::mask_of(indices@);
                assert((last & !m) & !m == last & !m) by (bit_vector);
            }
        }
        settle_clear(outcome, indices)
    }
}

impl AtomicDeviceCode {
    /// Notes a change of a link in one atomic step. Reports the new code if
    /// a flag changed: a report has the flags of the link as the change
    /// leaves them, and it is what the change makes of some other word.
    pub fn switch(&self, link: Link) -> (r: Option<DeviceCode>)
        ensures
            r matches Some(code) ==> link.applied(code.0) == code.0,
            r matches Some(code) ==> exists|last: u32|
                #[trigger] link.applied(last) == code.0 && last != code.0,
    {
        let r = match link {
            Link::Chassis(true) => {
                let flags = [CHASSIS];
                assert(flags@ =~= link.flags());
                self.set(flags.as_slice())
            },
            Link::Chassis(false) => {
                let flags = [CHASSIS, POWER_SWITCH];
                assert(flags@ =~= link.flags());
                self.clear(flags.as_slice())
            },
            Link::PowerSwitch(up) => {
                let flags = [POWER_SWITCH];
                assert(flags@ =~= link.flags());
                if up {
                    self.set(flags.as_slice())
                } else {
                    self.clear(flags.as_slice())
                }
            },
            Link::RtkSerial(true) => {
                let flags = [RTK_SERIAL];
                assert(flags@ =~= link.flags());
                self.set(flags.as_slice())
            },
            Link::RtkSerial(false) => {
                let flags = [RTK_SERIAL, RTK_FIX];
                assert(flags@ =~= link.flags());
                self.clear(flags.as_slice())
            },
            Link::RtkNetwork(up) => {
                let flags = [RTK_NETWORK];
                assert(flags@ =~= link.flags());
                if up {
                    self.set(flags.as_slice())
                } else {
                    self.clear(flags.as_slice())
                }
            },
            Link::RtkFix(up) => {
                let flags = [RTK_FIX];
                assert(flags@ =~= link.flags());
                if up {
                    self.set(flags.as_slice())
                } else {
                    self.clear(flags.as_slice())
                }
            },
        };
        proof {
            if let Some(code) = r {
                if link.up() {
                    let last = choose|last: u32|
                        #[trigger] raised(last, link.flags()) == code.0 && last != code.0;
                    assert(link.applied(last) == code.0);
                } else {
                    let last = choose|last: u32|
                        #[trigger] lowered(last, link.flags()) == code.0 && last != code.0;
                    assert(link.applied(last) == code.0);
                }
            }
        }
        r
    }
}

impl Default for AtomicDeviceCode {
    /// A shared code with every flag lowered.
    fn default() -> Self {
        AtomicDeviceCode(Arc::new(AtomicU32::new(0)))
    }
}

} // verus!
