//! A widget-effect engine: layered property overrides, timed interpolation
//! between property values, and pointer hit-testing for boxes with rounded
//! corners.

pub mod auto_remove;
pub mod click;
pub mod collision;
pub mod effect;
pub mod event;
pub mod hover;
pub mod property;
pub mod state;
pub mod transition;
pub mod update;

use vstd::prelude::*;
use crate::click::{UiClickStatePlugin, CLICK_ASPECT};
use crate::hover::{UiHoverStatePlugin, HOVER_ASPECT};
use crate::state::ComponentStates;

verus! {

/// Makes the aspects of this library known to a registry.
#[derive(Debug, Clone, Copy, PartialEq, Eq, Structural)]
pub struct UiPlugin;

impl UiPlugin {
    /// Registers the hover aspect and then the click aspect, so that a
    /// widget that is pressed while the pointer is over it shows as pressed.
    pub fn build(&self, registry: &mut ComponentStates)
        requires
            old(registry).wf(),
            !old(registry)@.contains(HOVER_ASPECT),
            !old(registry)@.contains(CLICK_ASPECT),
        ensures
            final(registry).wf(),
            final(registry)@ == old(registry)@.push(HOVER_ASPECT).push(CLICK_ASPECT),
            final(registry)@.contains(HOVER_ASPECT),
            final(registry)@.contains(CLICK_ASPECT),
            final(registry).spec_priority(HOVER_ASPECT) == old(registry)@.len(),
            final(registry).spec_priority(CLICK_ASPECT) == old(registry)@.len() + 1,
            forall|other: u64| #[trigger]
                old(registry)@.contains(other) ==> final(registry)@.contains(other)
                    && final(registry).spec_priority(other) == old(registry).spec_priority(other),
    {
        UiHoverStatePlugin.build(registry);
        assert(!registry@.contains(CLICK_ASPECT)) by {
            if registry@.contains(CLICK_ASPECT) {
                let at = registry@.index_of(CLICK_ASPECT);
                assert(registry@[at] == CLICK_ASPECT);
                if at < old(registry)@.len() {
                    assert(old(registry)@[at] == CLICK_ASPECT);
                }
            }
        }
        let ghost between = registry@;
        UiClickStatePlugin.build(registry);
        assert forall|other: u64| #[trigger]
            old(registry)@.contains(other) implies registry@.contains(other)
            && registry.spec_priority(other) == old(registry).spec_priority(other) by {
            assert(between.contains(other));
        }
    }
}

} // verus!
