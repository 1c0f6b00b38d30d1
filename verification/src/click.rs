//! The click aspect: what a widget looks like while it is held pressed.

use vstd::prelude::*;
use crate::auto_remove::AutoRemove;
use crate::effect::{
    effect_clear_system,
    effect_system,
    effect_transition_in_system,
    effect_transition_out_system,
};
use crate::state::{Active, ComponentStates};
use crate::transition::{PropertyTransition, Transition};

verus! {

/// The number by which the click aspect is known to a registry.
pub const CLICK_ASPECT: u64 = 2;

/// The aspect of a widget that is held pressed.
#[derive(Debug, Clone, Copy, PartialEq, Eq, Structural)]
pub struct ClickState;

impl ClickState {
    /// The number by which the aspect is known to a registry.
    pub fn aspect() -> (aspect: u64)
        ensures
            aspect == CLICK_ASPECT,
    {
        CLICK_ASPECT
    }
}

/// Makes the click aspect known to a registry.
#[derive(Debug, Clone, Copy, PartialEq, Eq, Structural)]
pub struct UiClickStatePlugin;

impl UiClickStatePlugin {
    /// Registers the click aspect above every aspect registered so far.
    pub fn build(&self, registry: &mut ComponentStates)
        requires
            old(registry).wf(),
            !old(registry)@.contains(CLICK_ASPECT),
        ensures
            final(registry).wf(),
            final(registry)@ == old(registry)@.push(CLICK_ASPECT),
            final(registry)@.contains(CLICK_ASPECT),
            final(registry).spec_priority(CLICK_ASPECT) == old(registry)@.len(),
            forall|other: u64| #[trigger]
                old(registry)@.contains(other) ==> final(registry)@.contains(other)
                    && final(registry).spec_priority(other) == old(registry).spec_priority(other),
    {
        registry.add_component_state(CLICK_ASPECT);
    }
}

/// A value that a property takes at once while the widget is held pressed.
#[derive(Debug, Clone, Copy)]
pub struct ClickEffect<T> {
    pub value: T,
}

impl<T> ClickEffect<T> {
    pub fn new(value: T) -> (effect: ClickEffect<T>)
        ensures
            effect.value == value,
    {
        ClickEffect { value }
    }
}

/// A value that a property moves to while the widget is held pressed: toward
/// it over `in_duration` when the press begins, and back over `out_duration`
/// when it ends.
#[derive(Debug, Clone, Copy)]
pub struct ClickEffectTransition<T> {
    pub value: T,
    pub in_duration: u64,
    pub out_duration: u64,
}

impl<T> ClickEffectTransition<T> {
    pub fn new(value: T, in_duration: u64, out_duration: u64) -> (effect: ClickEffectTransition<T>)
        ensures
            effect.value == value,
            effect.in_duration == in_duration,
            effect.out_duration == out_duration,
    {
        ClickEffectTransition { value, in_duration, out_duration }
    }
}

/// The widget has been pressed: the click override is pushed with the
/// effect's value. Returns whether a redraw is needed, which it always is.
pub fn click_effect_system<T: Copy>(
    registry: &ComponentStates,
    effect: &ClickEffect<T>,
    active: &mut Active<T>,
) -> (redraw: bool)
    requires
        old(active).wf(registry),
        registry@.contains(CLICK_ASPECT),
    ensures
        redraw,
        final(active).wf(registry),
        final(active)@ == old(active)@.insert(CLICK_ASPECT, effect.value),
        forall|base: T| #[trigger]
            final(active).spec_active(base) == (if old(active).spec_yields_to(
                registry,
                CLICK_ASPECT,
            ) {
                effect.value
            } else {
                old(active).spec_active(base)
            }),
{
    effect_system(registry, CLICK_ASPECT, effect.value, active)
}

/// The widget has been released: the click override is popped.
/// Returns whether a redraw is needed: whether there was an override to pop.
pub fn click_effect_clear_system<T>(registry: &ComponentStates, active: &mut Active<T>) -> (redraw:
    bool)
    requires
        old(active).wf(registry),
        registry@.contains(CLICK_ASPECT),
    ensures
        redraw == old(active).has(CLICK_ASPECT),
        final(active).wf(registry),
        final(active)@ == old(active)@.remove(CLICK_ASPECT),
        !old(active).has(CLICK_ASPECT) ==> final(active).stack() == old(active).stack(),
{
    effect_clear_system(registry, CLICK_ASPECT, active)
}

/// The widget has been pressed: the click override is pushed with the
/// value that is effective now, beside it a transition toward the effect's
/// value over `in_duration`; a timer left from fading out is dropped. What is
/// on screen does not change before the transition's first tick. Returns
/// whether a redraw is needed, which it always is.
pub fn click_effect_transition_in_system<T: Copy + PropertyTransition<T>>(
    registry: &ComponentStates,
    effect: &ClickEffectTransition<T>,
    base: &T,
    active: &mut Active<T>,
    transition: &mut Option<Transition<T>>,
    auto_remove: &mut Option<AutoRemove>,
) -> (redraw: bool)
    requires
        old(active).wf(registry),
        registry@.contains(CLICK_ASPECT),
    ensures
        redraw,
        final(active).wf(registry),
        final(active)@ == old(active)@.insert(CLICK_ASPECT, old(active).spec_active(*base)),
        final(active).spec_active(*base) == old(active).spec_active(*base),
        *final(transition) == Some(Transition::<T>::spec_new(effect.value, effect.in_duration)),
        final(auto_remove).is_none(),
{
    effect_transition_in_system(
        registry,
        CLICK_ASPECT,
        effect.value,
        effect.in_duration,
        base,
        active,
        transition,
        auto_remove,
    )
}

/// The widget has been released. Where the click override is the
/// authoritative one it stays for now, with a transition over `out_duration`
/// toward the value right below it and a timer that takes it away
/// afterwards. Where another override covers it, it is popped at once, and
/// what stood beside it is dropped. Returns whether a redraw is needed:
/// whether the aspect had an override.
pub fn click_effect_transition_out_system<T: Copy + PropertyTransition<T>>(
    registry: &ComponentStates,
    effect: &ClickEffectTransition<T>,
    base: &T,
    active: &mut Active<T>,
    transition: &mut Option<Transition<T>>,
    auto_remove: &mut Option<AutoRemove>,
) -> (redraw: bool)
    requires
        old(active).wf(registry),
        registry@.contains(CLICK_ASPECT),
    ensures
        redraw == old(active).has(CLICK_ASPECT),
        final(active).wf(registry),
        old(active).spec_is_active_state(CLICK_ASPECT) ==> {
            &&& final(active).stack() == old(active).stack()
            &&& *final(transition) == Some(
                Transition::<T>::spec_new(
                    old(active).spec_second_active(*base),
                    effect.out_duration,
                ),
            )
            &&& *final(auto_remove) == Some(AutoRemove::spec_new(effect.out_duration))
        },
        !old(active).spec_is_active_state(CLICK_ASPECT) ==> {
            &&& final(active)@ == old(active)@.remove(CLICK_ASPECT)
            &&& final(active).spec_active(*base) == old(active).spec_active(*base)
            &&& final(transition).is_none()
            &&& final(auto_remove).is_none()
        },
{
    effect_transition_out_system(
        registry,
        CLICK_ASPECT,
        effect.out_duration,
        base,
        active,
        transition,
        auto_remove,
    )
}

} // verus!
