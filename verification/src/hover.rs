//! The hover aspect: what a widget looks like while the pointer is over it.

use vstd::prelude::*;
use crate::auto_remove::AutoRemove;
use crate::effect::{
    effect_clear_system,
    effect_system,
    effect_transition_in_system,
    effect_transition_out_system,
};
use crate::state::{Active, ComponentStates};
use crate::transition::{PropertyTransition, Transition};

verus! {

/// The number by which the hover aspect is known to a registry.
pub const HOVER_ASPECT: u64 = 1;

/// The aspect of a widget that the pointer is over.
#[derive(Debug, Clone, Copy, PartialEq, Eq, Structural)]
pub struct HoverState;

impl HoverState {
    /// The number by which the aspect is known to a registry.
    pub fn aspect() -> (aspect: u64)
        ensures
            aspect == HOVER_ASPECT,
    {
        HOVER_ASPECT
    }
}

/// Makes the hover aspect known to a registry.
#[derive(Debug, Clone, Copy, PartialEq, Eq, Structural)]
pub struct UiHoverStatePlugin;

impl UiHoverStatePlugin {
    /// Registers the hover aspect above every aspect registered so far.
    pub fn build(&self, registry: &mut ComponentStates)
        requires
            old(registry).wf(),
            !old(registry)@.contains(HOVER_ASPECT),
        ensures
            final(registry).wf(),
            final(registry)@ == old(registry)@.push(HOVER_ASPECT),
            final(registry)@.contains(HOVER_ASPECT),
            final(registry).spec_priority(HOVER_ASPECT) == old(registry)@.len(),
            forall|other: u64| #[trigger]
                old(registry)@.contains(other) ==> final(registry)@.contains(other)
                    && final(registry).spec_priority(other) == old(registry).spec_priority(other),
    {
        registry.add_component_state(HOVER_ASPECT);
    }
}

/// A value that a property takes at once while the pointer is over the
/// widget.
#[derive(Debug, Clone, Copy)]
pub struct HoverEffect<T> {
    pub value: T,
}

impl<T> HoverEffect<T> {
    pub fn new(value: T) -> (effect: HoverEffect<T>)
        ensures
            effect.value == value,
    {
        HoverEffect { value }
    }
}

/// A value that a property moves to while the pointer is over the widget:
/// toward it over `in_duration` when the pointer enters, and back over
/// `out_duration` when it leaves.
#[derive(Debug, Clone, Copy)]
pub struct HoverEffectTransition<T> {
    pub value: T,
    pub in_duration: u64,
    pub out_duration: u64,
}

impl<T> HoverEffectTransition<T> {
    pub fn new(value: T, in_duration: u64, out_duration: u64) -> (effect: HoverEffectTransition<T>)
        ensures
            effect.value == value,
            effect.in_duration == in_duration,
            effect.out_duration == out_duration,
    {
        HoverEffectTransition { value, in_duration, out_duration }
    }
}

/// The pointer has entered the widget: the hover override is pushed with the
/// effect's value. Returns whether a redraw is needed, which it always is.
pub fn hover_effect_system<T: Copy>(
    registry: &ComponentStates,
    effect: &HoverEffect<T>,
    active: &mut Active<T>,
) -> (redraw: bool)
    requires
        old(active).wf(registry),
        registry@.contains(HOVER_ASPECT),
    ensures
        redraw,
        final(active).wf(registry),
        final(active)@ == old(active)@.insert(HOVER_ASPECT, effect.value),
        forall|base: T| #[trigger]
            final(active).spec_active(base) == (if old(active).spec_yields_to(
                registry,
                HOVER_ASPECT,
            ) {
                effect.value
            } else {
                old(active).spec_active(base)
            }),
{
    effect_system(registry, HOVER_ASPECT, effect.value, active)
}

/// The pointer has left the widget: the hover override is popped.
/// Returns whether a redraw is needed: whether there was an override to pop.
pub fn hover_effect_clear_system<T>(registry: &ComponentStates, active: &mut Active<T>) -> (redraw:
    bool)
    requires
        old(active).wf(registry),
        registry@.contains(HOVER_ASPECT),
    ensures
        redraw == old(active).has(HOVER_ASPECT),
        final(active).wf(registry),
        final(active)@ == old(active)@.remove(HOVER_ASPECT),
        !old(active).has(HOVER_ASPECT) ==> final(active).stack() == old(active).stack(),
{
    effect_clear_system(registry, HOVER_ASPECT, active)
}

/// The pointer has entered the widget: the hover override is pushed with the
/// value that is effective now, beside it a transition toward the effect's
/// value over `in_duration`; a timer left from fading out is dropped. What is
/// on screen does not change before the transition's first tick. Returns
/// whether a redraw is needed, which it always is.
pub fn hover_effect_transition_in_system<T: Copy + PropertyTransition<T>>(
    registry: &ComponentStates,
    effect: &HoverEffectTransition<T>,
    base: &T,
    active: &mut Active<T>,
    transition: &mut Option<Transition<T>>,
    auto_remove: &mut Option<AutoRemove>,
) -> (redraw: bool)
    requires
        old(active).wf(registry),
        registry@.contains(HOVER_ASPECT),
    ensures
        redraw,
        final(active).wf(registry),
        final(active)@ == old(active)@.insert(HOVER_ASPECT, old(active).spec_active(*base)),
        final(active).spec_active(*base) == old(active).spec_active(*base),
        *final(transition) == Some(Transition::<T>::spec_new(effect.value, effect.in_duration)),
        final(auto_remove).is_none(),
{
    effect_transition_in_system(
        registry,
        HOVER_ASPECT,
        effect.value,
        effect.in_duration,
        base,
        active,
        transition,
        auto_remove,
    )
}

/// The pointer has left the widget. Where the hover override is the
/// authoritative one it stays for now, with a transition over `out_duration`
/// toward the value right below it and a timer that takes it away
/// afterwards. Where another override covers it, it is popped at once, and
/// what stood beside it is dropped. Returns whether a redraw is needed:
/// whether the aspect had an override.
pub fn hover_effect_transition_out_system<T: Copy + PropertyTransition<T>>(
    registry: &ComponentStates,
    effect: &HoverEffectTransition<T>,
    base: &T,
    active: &mut Active<T>,
    transition: &mut Option<Transition<T>>,
    auto_remove: &mut Option<AutoRemove>,
) -> (redraw: bool)
    requires
        old(active).wf(registry),
        registry@.contains(HOVER_ASPECT),
    ensures
        redraw == old(active).has(HOVER_ASPECT),
        final(active).wf(registry),
        old(active).spec_is_active_state(HOVER_ASPECT) ==> {
            &&& final(active).stack() == old(active).stack()
            &&& *final(transition) == Some(
                Transition::<T>::spec_new(
                    old(active).spec_second_active(*base),
                    effect.out_duration,
                ),
            )
            &&& *final(auto_remove) == Some(AutoRemove::spec_new(effect.out_duration))
        },
        !old(active).spec_is_active_state(HOVER_ASPECT) ==> {
            &&& final(active)@ == old(active)@.remove(HOVER_ASPECT)
            &&& final(active).spec_active(*base) == old(active).spec_active(*base)
            &&& final(transition).is_none()
            &&& final(auto_remove).is_none()
        },
{
    effect_transition_out_system(
        registry,
        HOVER_ASPECT,
        effect.out_duration,
        base,
        active,
        transition,
        auto_remove,
    )
}

} // verus!
