//! Binding an aspect to a widget's property.
//!
//! When an aspect comes into force (the pointer enters the widget, the widget
//! is pressed) its override is pushed; when it goes out of force the override
//! is popped. Either step can be immediate, or drawn out by a [`Transition`]
//! on the override's value. An override that fades out stays in force while
//! it fades, with an [`AutoRemove`] beside it that takes it away afterwards.
//!
//! The functions here serve any aspect. The aspect's override, its transition
//! and its timer are the caller's to keep: one of each for every property of
//! every widget that the aspect can override.

use vstd::prelude::*;
use crate::auto_remove::{
    remove_system,
    spec_remove_system_due,
    spec_remove_system_slot,
    AutoRemove,
};
use crate::state::{Active, ComponentStates};
use crate::transition::{
    spec_transition_system_redraw,
    spec_transition_system_slot,
    spec_transition_system_value,
    transition_system,
    PropertyTransition,
    Transition,
};

verus! {

/// The aspect comes into force at once: its override is pushed with `value`.
/// Returns whether a redraw is needed, which it always is.
pub fn effect_system<T>(
    registry: &ComponentStates,
    aspect: u64,
    value: T,
    active: &mut Active<T>,
) -> (redraw: bool)
    requires
        old(active).wf(registry),
        registry@.contains(aspect),
    ensures
        redraw,
        final(active).wf(registry),
        final(active)@ == old(active)@.insert(aspect, value),
        forall|base: T| #[trigger]
            final(active).spec_active(base) == (if old(active).spec_yields_to(registry, aspect) {
                value
            } else {
                old(active).spec_active(base)
            }),
{
    active.push(registry, aspect, value);
    true
}

/// The aspect goes out of force at once: its override is popped. Returns
/// whether a redraw is needed: whether there was an override to pop.
pub fn effect_clear_system<T>(
    registry: &ComponentStates,
    aspect: u64,
    active: &mut Active<T>,
) -> (redraw: bool)
    requires
        old(active).wf(registry),
        registry@.contains(aspect),
    ensures
        redraw == old(active).has(aspect),
        final(active).wf(registry),
        final(active)@ == old(active)@.remove(aspect),
        !old(active).has(aspect) ==> final(active).stack() == old(active).stack(),
{
    let present = active.get_by_aspect(registry, aspect).is_some();
    active.pop(registry, aspect);
    present
}

/// The aspect comes into force gradually. Its override is pushed with the
/// value that is effective at this moment, so that nothing changes on screen
/// yet; a transition toward `value` over `in_duration` is put beside it; and
/// a timer left over from fading out is dropped. Returns whether a redraw is
/// needed, which it always is.
pub fn effect_transition_in_system<T: Copy + PropertyTransition<T>>(
    registry: &ComponentStates,
    aspect: u64,
    value: T,
    in_duration: u64,
    base: &T,
    active: &mut Active<T>,
    transition: &mut Option<Transition<T>>,
    auto_remove: &mut Option<AutoRemove>,
) -> (redraw: bool)
    requires
        old(active).wf(registry),
        registry@.contains(aspect),
    ensures
        redraw,
        final(active).wf(registry),
        final(active)@ == old(active)@.insert(aspect, old(active).spec_active(*base)),
        final(active).spec_active(*base) == old(active).spec_active(*base),
        *final(transition) == Some(Transition::<T>::spec_new(value, in_duration)),
        final(auto_remove).is_none(),
{
    let current = *active.active(base);
    active.push(registry, aspect, current);
    *transition = Some(Transition::new(value, in_duration));
    *auto_remove = None;
    true
}

/// The aspect goes out of force gradually.
///
/// Where its override is the authoritative one, the override stays for now:
/// a transition over `out_duration` is put beside it, toward the value right
/// below it in the stack, and a timer that takes the override away once that
/// time has passed. The transition starts from what the override holds at
/// its first tick, be that the value of an earlier transition cut short.
///
/// Where another override covers it, nothing on screen depends on it: it is
/// popped at once, and what stood beside it is dropped.
///
/// Returns whether a redraw is needed: whether the aspect had an override.
pub fn effect_transition_out_system<T: Copy + PropertyTransition<T>>(
    registry: &ComponentStates,
    aspect: u64,
    out_duration: u64,
    base: &T,
    active: &mut Active<T>,
    transition: &mut Option<Transition<T>>,
    auto_remove: &mut Option<AutoRemove>,
) -> (redraw: bool)
    requires
        old(active).wf(registry),
        registry@.contains(aspect),
    ensures
        redraw == old(active).has(aspect),
        final(active).wf(registry),
        old(active).spec_is_active_state(aspect) ==> {
            &&& final(active).stack() == old(active).stack()
            &&& *final(transition) == Some(
                Transition::<T>::spec_new(old(active).spec_second_active(*base), out_duration),
            )
            &&& *final(auto_remove) == Some(AutoRemove::spec_new(out_duration))
        },
        !old(active).spec_is_active_state(aspect) ==> {
            &&& final(active)@ == old(active)@.remove(aspect)
            &&& final(active).spec_active(*base) == old(active).spec_active(*base)
            &&& final(transition).is_none()
            &&& final(auto_remove).is_none()
        },
{
    if active.is_active_state(aspect) {
        let below = match active.get_second_active(base) {
            Some(below) => *below,
            None => *base,
        };
        *transition = Some(Transition::new(below, out_duration));
        *auto_remove = Some(AutoRemove::new(out_duration));
        true
    } else {
        let present = active.get_by_aspect(registry, aspect).is_some();
        active.pop(registry, aspect);
        *transition = None;
        *auto_remove = None;
        present
    }
}

/// The overrides after one tick on the override of `aspect`.
///
/// Where the aspect has no override, they stay as they are. Where it has
/// one, its transition writes into it, and if its timer has run out it is
/// taken away.
pub open spec fn spec_effect_tick_overrides<T: PropertyTransition<T>>(
    aspect: u64,
    overrides: Map<u64, T>,
    transition: Option<Transition<T>>,
    auto_remove: Option<AutoRemove>,
    delta: u64,
) -> Map<u64, T> {
    if !overrides.dom().contains(aspect) {
        overrides
    } else if spec_remove_system_due(auto_remove, true, delta) {
        overrides.remove(aspect)
    } else {
        overrides.insert(aspect, spec_transition_system_value(transition, delta, overrides[aspect]))
    }
}

/// Runs one tick on the override of `aspect`: its transition, if it has one,
/// and its timer, if it has one. A transition or a timer whose override is
/// gone is dropped. Returns whether a redraw is needed: a transition is still
/// under way, or the override was taken away.
pub fn effect_tick_system<T: Copy + PropertyTransition<T>>(
    registry: &ComponentStates,
    aspect: u64,
    active: &mut Active<T>,
    transition: &mut Option<Transition<T>>,
    auto_remove: &mut Option<AutoRemove>,
    delta: u64,
) -> (redraw: bool)
    requires
        old(active).wf(registry),
        registry@.contains(aspect),
    ensures
        final(active).wf(registry),
        final(active)@ == spec_effect_tick_overrides(
            aspect,
            old(active)@,
            *old(transition),
            *old(auto_remove),
            delta,
        ),
        !old(active).has(aspect) ==> {
            &&& final(active).stack() == old(active).stack()
            &&& final(transition).is_none()
            &&& final(auto_remove).is_none()
            &&& !redraw
        },
        old(active).has(aspect) ==> {
            &&& *final(transition) == spec_transition_system_slot(
                *old(transition),
                delta,
                old(active)@[aspect],
            )
            &&& *final(auto_remove) == spec_remove_system_slot(*old(auto_remove), true, delta)
            &&& redraw == (spec_transition_system_redraw(*old(transition), delta)
                || spec_remove_system_due(*old(auto_remove), true, delta))
        },
{
    let current = match active.get_by_aspect(registry, aspect) {
        Some(value) => Some(*value),
        None => None,
    };
    match current {
        Some(current) => {
            let mut value = current;
            let running = transition_system(transition, delta, &mut value);
            active.push(registry, aspect, value);
            let due = remove_system(auto_remove, true, delta);
            if due {
                active.pop(registry, aspect);
            }
            proof {
                if due {
                    assert(final(active)@ =~= old(active)@.remove(aspect));
                }
            }
            running || due
        },
        None => {
            *transition = None;
            *auto_remove = None;
            false
        },
    }
}

/// No jump at the start of a transition. Let a transition that has not
/// ticked yet stand beside the override of `aspect`, with or without a timer
/// that has not run out. Its first tick starts from the value that the
/// override holds at that moment, whatever wrote it; and a first tick before
/// any time has elapsed leaves all overrides as they are.
pub proof fn law_transition_starts_from_what_is_shown<T: PropertyTransition<T>>(
    aspect: u64,
    overrides: Map<u64, T>,
    to: T,
    duration: u64,
    auto_remove: Option<AutoRemove>,
    delta: u64,
)
    requires
        overrides.dom().contains(aspect),
        !spec_remove_system_due(auto_remove, true, delta),
        delta < duration,
    ensures
        spec_transition_system_slot(
            Some(Transition::<T>::spec_new(to, duration)),
            delta,
            overrides[aspect],
        ) == Some(
            Transition { from: Some(overrides[aspect]), to, elapsed: delta, duration },
        ),
        delta == 0 ==> spec_effect_tick_overrides(
            aspect,
            overrides,
            Some(Transition::<T>::spec_new(to, duration)),
            auto_remove,
            delta,
        ) == overrides,
{
    let transition = Transition::<T>::spec_new(to, duration);
    if delta == 0 {
        T::lemma_endpoints(transition.spec_progress_after(delta), overrides[aspect], to);
        assert(spec_effect_tick_overrides(aspect, overrides, Some(transition), auto_remove, delta)
            =~= overrides);
    }
}

} // verus!
