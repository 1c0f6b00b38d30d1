//! Overrides that leave by themselves once a duration has passed.
//!
//! An override that fades out has to stay in force while it fades, and to
//! leave afterwards. An [`AutoRemove`] is the timer that stands beside such an
//! override.

use vstd::prelude::*;

verus! {

/// A timer beside an override: once more than `duration` has elapsed, the
/// override is due to leave.
#[derive(Debug, Clone, Copy, PartialEq, Eq, Structural)]
pub struct AutoRemove {
    pub elapsed: u64,
    pub duration: u64,
}

impl AutoRemove {
    /// A timer on which no time has elapsed.
    pub open spec fn spec_new(duration: u64) -> AutoRemove {
        AutoRemove { elapsed: 0, duration }
    }

    /// The time elapsed after a further `delta`. The count stops at the
    /// greatest number it can hold.
    pub open spec fn spec_advance(&self, delta: u64) -> u64 {
        if self.elapsed + delta > u64::MAX {
            u64::MAX
        } else {
            (self.elapsed + delta) as u64
        }
    }

    /// Whether the override is due to leave.
    pub open spec fn spec_expired(&self) -> bool {
        self.elapsed > self.duration
    }

    /// A timer on which no time has elapsed.
    pub fn new(duration: u64) -> (remove: AutoRemove)
        ensures
            remove == AutoRemove::spec_new(duration),
    {
        AutoRemove { elapsed: 0, duration }
    }

    /// Lets `delta` elapse, and says whether the override is due to leave.
    pub fn tick(&mut self, delta: u64) -> (expired: bool)
        ensures
            final(self).duration == old(self).duration,
            final(self).elapsed == old(self).spec_advance(delta),
            expired == final(self).spec_expired(),
    {
        self.elapsed = if delta > u64::MAX - self.elapsed {
            u64::MAX
        } else {
            self.elapsed + delta
        };
        self.elapsed > self.duration
    }
}

/// Whether one tick makes the override due to leave: it is in force, a timer
/// stands beside it, and more than the timer's duration has then elapsed.
pub open spec fn spec_remove_system_due(slot: Option<AutoRemove>, present: bool, delta: u64) -> bool {
    match slot {
        Some(timer) => present && timer.spec_advance(delta) > timer.duration,
        None => false,
    }
}

/// The slot after one tick: the timer stays only while its override is in
/// force and not yet due to leave.
pub open spec fn spec_remove_system_slot(slot: Option<AutoRemove>, present: bool, delta: u64) -> Option<
    AutoRemove,
> {
    match slot {
        Some(timer) => if present && timer.spec_advance(delta) <= timer.duration {
            Some(AutoRemove { elapsed: timer.spec_advance(delta), duration: timer.duration })
        } else {
            None
        },
        None => None,
    }
}

/// Runs one tick of the timer in `slot`, if there is one. `present` says
/// whether the override that the timer stands beside is still in force.
///
/// A timer whose override has left leaves too. Otherwise `delta` elapses on
/// the timer; if the override is then due to leave, the timer leaves the slot
/// and the result is `true`: the caller takes the override away and has the
/// widget redrawn.
pub fn remove_system(slot: &mut Option<AutoRemove>, present: bool, delta: u64) -> (remove: bool)
    ensures
        remove == spec_remove_system_due(*old(slot), present, delta),
        *final(slot) == spec_remove_system_slot(*old(slot), present, delta),
{
    match slot.take() {
        None => false,
        Some(timer) => {
            if !present {
                false
            } else {
                let mut timer = timer;
                let expired = timer.tick(delta);
                if !expired {
                    *slot = Some(timer);
                }
                expired
            }
        },
    }
}

} // verus!
