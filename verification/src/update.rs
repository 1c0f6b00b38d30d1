//! Properties that a widget takes over from its parent.

use vstd::prelude::*;
use crate::property::{Position, Size, VisibleRegion, ZLevel};

verus! {

/// Marks a widget whose level follows that of its parent.
#[derive(Debug, Clone, Copy, PartialEq, Eq, Structural)]
pub struct AutoZUpdate;

/// Marks a widget whose visible region follows the rectangle of its parent.
#[derive(Debug, Clone, Copy, PartialEq, Eq, Structural)]
pub struct AutoVisibleRegionUpdate;

/// The levels of a set of widgets, each under the number of its widget.
///
/// The levels are kept in a `bevy::utils::HashMap`, which Verus does not look
/// into: what the map holds is known to the proofs as [`z_levels_view`] only.
#[verifier::external_body]
pub struct ZLevels {
    levels: bevy::utils::HashMap<u64, u32>,
}

/// What a [`ZLevels`] holds: the level of each widget that was put into it.
pub uninterp spec fn z_levels_view(levels: ZLevels) -> Map<u64, u32>;

/// No levels at all.
pub open spec fn spec_no_levels() -> Map<u64, u32> {
    Map::empty()
}

/// `bevy::utils::HashMap::new`, which is `hashbrown::HashMap::new`: a map
/// that holds nothing.
#[verifier::external_body]
fn z_levels_new() -> (levels: ZLevels)
    ensures
        z_levels_view(levels) == spec_no_levels(),
{
    ZLevels { levels: bevy::utils::HashMap::new() }
}

/// `hashbrown::HashMap::insert`: afterwards the map holds `level` under
/// `element`, whether or not it held a level under `element` before, and
/// under every other key what it held before.
#[verifier::external_body]
fn z_levels_insert(levels: &mut ZLevels, element: u64, level: u32)
    ensures
        z_levels_view(*final(levels)) == z_levels_view(*old(levels)).insert(element, level),
{
    levels.levels.insert(element, level);
}

/// `hashbrown::HashMap::get`: the level that the map holds under `element`,
/// or `None` where it holds none.
#[verifier::external_body]
fn z_levels_get(levels: &ZLevels, element: u64) -> (level: Option<u32>)
    ensures
        level == spec_level_of(z_levels_view(*levels), Some(element)),
{
    levels.levels.get(&element).copied()
}

/// The level that `levels` holds for the widget `parent`, if there is such a
/// widget and it has a level.
pub open spec fn spec_level_of(levels: Map<u64, u32>, parent: Option<u64>) -> Option<u32> {
    match parent {
        Some(parent) => if levels.dom().contains(parent) {
            Some(levels[parent])
        } else {
            None
        },
        None => None,
    }
}

/// The level of a widget that follows a parent at level `parent`: one above.
pub open spec fn spec_update_z_level(
    z_level: ZLevel,
    auto_update: Option<AutoZUpdate>,
    parent: Option<u32>,
) -> ZLevel {
    match (auto_update, parent) {
        (Some(_), Some(parent)) => ZLevel((parent + 1) as u32),
        _ => z_level,
    }
}

/// Puts a widget that follows its parent one level above it. `parent` is the
/// level of the parent, if the widget has a parent and the parent a level.
pub fn update_z_level(z_level: &mut ZLevel, auto_update: Option<AutoZUpdate>, parent: Option<u32>)
    requires
        auto_update.is_some() && parent.is_some() ==> parent.unwrap() < u32::MAX,
    ensures
        *final(z_level) == spec_update_z_level(*old(z_level), auto_update, parent),
{
    if auto_update.is_some() {
        if let Some(parent) = parent {
            let level = parent + 1;
            if z_level.0 != level {
                *z_level = ZLevel(level);
            }
        }
    }
}

/// A widget as its level is settled: its number, its level, whether the level
/// follows the parent's, and the number of its parent.
#[derive(Debug, Clone, Copy, PartialEq, Eq, Structural)]
pub struct ZWidget {
    pub element: u64,
    pub z_level: ZLevel,
    pub auto_update: Option<AutoZUpdate>,
    pub parent: Option<u64>,
}

/// The levels of the given widgets by their numbers. Of two widgets with one
/// number the later one counts.
pub open spec fn spec_z_levels(widgets: Seq<ZWidget>) -> Map<u64, u32>
    decreases widgets.len(),
{
    if widgets.len() == 0 {
        Map::empty()
    } else {
        spec_z_levels(widgets.drop_last()).insert(
            widgets.last().element,
            widgets.last().z_level.0,
        )
    }
}

/// Whether the widget at `at` can be put above its parent: it does not
/// follow a parent, or the parent's level is not the highest there is.
pub open spec fn spec_z_fits_at(widgets: Seq<ZWidget>, at: int) -> bool {
    let parent = spec_level_of(spec_z_levels(widgets), widgets[at].parent);
    widgets[at].auto_update.is_some() && parent.is_some() ==> parent.unwrap() < u32::MAX
}

/// Whether every widget can be put above its parent.
pub open spec fn spec_z_fits(widgets: Seq<ZWidget>) -> bool {
    forall|at: int| 0 <= at < widgets.len() ==> #[trigger] spec_z_fits_at(widgets, at)
}

/// The widget at `at` with its level settled: one above the level that its
/// parent had, if it follows a parent that is among the widgets.
pub open spec fn spec_z_updated_at(widgets: Seq<ZWidget>, at: int) -> ZWidget {
    ZWidget {
        element: widgets[at].element,
        z_level: spec_update_z_level(
            widgets[at].z_level,
            widgets[at].auto_update,
            spec_level_of(spec_z_levels(widgets), widgets[at].parent),
        ),
        auto_update: widgets[at].auto_update,
        parent: widgets[at].parent,
    }
}

/// Settles the levels of the given widgets: each widget that follows its
/// parent comes to stand one level above the level that the parent had
/// before. Where some parent stands at the highest level there is, nothing
/// is changed and the result is `false`.
pub fn update_z(widgets: &mut Vec<ZWidget>) -> (updated: bool)
    ensures
        updated == spec_z_fits(old(widgets)@),
        final(widgets)@.len() == old(widgets)@.len(),
        updated ==> forall|at: int|
            0 <= at < old(widgets)@.len() ==> #[trigger] final(widgets)@[at] == spec_z_updated_at(
                old(widgets)@,
                at,
            ),
        !updated ==> final(widgets)@ == old(widgets)@,
{
    let ghost before = widgets@;
    let count = widgets.len();
    let mut levels = z_levels_new();
    let mut index: usize = 0;
    while index < count
        invariant
            widgets@ == before,
            count == before.len(),
            index <= count,
            z_levels_view(levels) == spec_z_levels(before.take(index as int)),
        decreases count - index,
    {
        z_levels_insert(&mut levels, widgets[index].element, widgets[index].z_level.0);
        proof {
            assert(before.take(index + 1).drop_last() =~= before.take(index as int));
        }
        index += 1;
    }
    proof {
        assert(before.take(count as int) =~= before);
    }
    index = 0;
    while index < count
        invariant
            widgets@ == before,
            count == before.len(),
            index <= count,
            z_levels_view(levels) == spec_z_levels(before),
            forall|at: int| 0 <= at < index ==> #[trigger] spec_z_fits_at(before, at),
        decreases count - index,
    {
        let widget = widgets[index];
        if widget.auto_update.is_some() {
            if let Some(parent) = widget.parent {
                if let Some(level) = z_levels_get(&levels, parent) {
                    if level == u32::MAX {
                        assert(!spec_z_fits_at(before, index as int));
                        return false;
                    }
                }
            }
        }
        index += 1;
    }
    index = 0;
    while index < count
        invariant
            widgets@.len() == before.len(),
            count == before.len(),
            index <= count,
            z_levels_view(levels) == spec_z_levels(before),
            spec_z_fits(before),
            forall|at: int| 0 <= at < index ==> #[trigger] widgets@[at] == spec_z_updated_at(before, at),
            forall|at: int| index <= at < count ==> #[trigger] widgets@[at] == before[at],
        decreases count - index,
    {
        let mut widget = widgets[index];
        let parent = match widget.parent {
            Some(parent) => z_levels_get(&levels, parent),
            None => None,
        };
        assert(spec_z_fits_at(before, index as int));
        update_z_level(&mut widget.z_level, widget.auto_update, parent);
        widgets.set(index, widget);
        index += 1;
    }
    true
}

/// The visible region of a widget that follows its parent: the parent's
/// rectangle, or everything where there is no parent to follow.
pub open spec fn spec_update_visible_region(
    visible_region: VisibleRegion,
    auto_update: Option<AutoVisibleRegionUpdate>,
    parent: Option<(Position, Size)>,
) -> VisibleRegion {
    match auto_update {
        Some(_) => match parent {
            Some((position, size)) => VisibleRegion {
                x: position.x,
                y: position.y,
                width: size.width,
                height: size.height,
            },
            None => VisibleRegion { x: 0, y: 0, width: u32::MAX, height: u32::MAX },
        },
        None => visible_region,
    }
}

/// Gives a widget that follows its parent the parent's rectangle as its
/// visible region. `parent` is the rectangle of the parent, if the widget has
/// a parent and the parent a rectangle.
pub fn update_visible_region(
    visible_region: &mut VisibleRegion,
    auto_update: Option<AutoVisibleRegionUpdate>,
    parent: Option<(Position, Size)>,
)
    ensures
        *final(visible_region) == spec_update_visible_region(
            *old(visible_region),
            auto_update,
            parent,
        ),
{
    if auto_update.is_some() {
        *visible_region = match parent {
            Some((position, size)) => VisibleRegion::new(
                position.x,
                position.y,
                size.width,
                size.height,
            ),
            None => VisibleRegion::everything(),
        };
    }
}

} // verus!
