//! What the pointer does to a widget.
//!
//! Each function here decides for one widget what a movement or a click of
//! the pointer means: whether the pointer is over the widget, which marker
//! the widget gains or loses, and which event is to be sent.

use vstd::prelude::*;
use crate::collision::{hit, spec_hit, CollisionFunction, Point};
use crate::property::{Position, Size, VisibleRegion};

verus! {

/// The pointer has come over `element`.
#[derive(Debug, Clone, Copy, PartialEq, Eq, Structural)]
pub struct HoverEnterEvent {
    pub element: u64,
}

/// The pointer has left `element`.
#[derive(Debug, Clone, Copy, PartialEq, Eq, Structural)]
pub struct HoverExitEvent {
    pub element: u64,
}

/// The button has gone down over `element`.
#[derive(Debug, Clone, Copy, PartialEq, Eq, Structural)]
pub struct PressEvent {
    pub element: u64,
}

/// The button has come up after it went down over `element`.
#[derive(Debug, Clone, Copy, PartialEq, Eq, Structural)]
pub struct ReleaseEvent {
    pub element: u64,
}

/// The button has gone down and come up over `element`.
#[derive(Debug, Clone, Copy, PartialEq, Eq, Structural)]
pub struct ClickEvent {
    pub element: u64,
}

/// Marks a widget that the pointer is over.
#[derive(Debug, Clone, Copy, PartialEq, Eq, Structural)]
pub struct ElementHovered;

/// Marks a widget over which the button went down and has not come up yet.
#[derive(Debug, Clone, Copy, PartialEq, Eq, Structural)]
pub struct ElementPressed;

/// A button of the pointer.
#[derive(Debug, Clone, Copy, PartialEq, Eq, Structural)]
pub enum MouseButton {
    Left,
    Right,
    Middle,
    Other,
}

/// What a button has done.
#[derive(Debug, Clone, Copy, PartialEq, Eq, Structural)]
pub enum ButtonState {
    Pressed,
    Released,
}

/// What a movement of the pointer means to a widget.
#[derive(Debug, Clone, Copy, PartialEq, Eq, Structural)]
pub enum HoverChange {
    Unchanged,
    Entered(HoverEnterEvent),
    Exited(HoverExitEvent),
}

/// A widget as the pointer meets it: where it is, what shape it has, and how
/// much of it is visible.
#[derive(Debug, Clone, Copy)]
pub struct Element<C: CollisionFunction> {
    pub element: u64,
    pub position: Position,
    pub size: Size,
    pub collision: C,
    pub visible_region: Option<VisibleRegion>,
}

impl<C: CollisionFunction> Element<C> {
    /// Whether the widget is under `cursor`.
    pub open spec fn spec_under(&self, cursor: Point) -> bool {
        spec_hit(self.position, self.size, self.collision, self.visible_region, cursor)
    }

    /// Whether the widget is under `cursor`.
    pub fn under(&self, cursor: Point) -> (inside: bool)
        ensures
            inside == self.spec_under(cursor),
    {
        hit(self.position, self.size, &self.collision, self.visible_region, cursor)
    }
}

/// What a movement of the pointer to `cursor` means to a widget that was, or
/// was not, under the pointer before.
pub open spec fn spec_on_mouse_move<C: CollisionFunction>(
    element: Element<C>,
    hovered: Option<ElementHovered>,
    cursor: Point,
) -> HoverChange {
    if element.spec_under(cursor) && hovered.is_none() {
        HoverChange::Entered(HoverEnterEvent { element: element.element })
    } else if !element.spec_under(cursor) && hovered.is_some() {
        HoverChange::Exited(HoverExitEvent { element: element.element })
    } else {
        HoverChange::Unchanged
    }
}

/// The pointer has moved to `cursor`. A widget that it is now over, and was
/// not over before, is entered and gains its marker; a widget that it was
/// over, and is not over now, is left and loses its marker.
pub fn on_mouse_move<C: CollisionFunction>(element: &Element<C>, hovered: &mut Option<ElementHovered>, cursor: Point) -> (change:
    HoverChange)
    ensures
        final(hovered).is_some() == element.spec_under(cursor),
        change == spec_on_mouse_move(*element, *old(hovered), cursor),
{
    let inside = element.under(cursor);
    let was = hovered.is_some();
    if inside && !was {
        *hovered = Some(ElementHovered);
        HoverChange::Entered(HoverEnterEvent { element: element.element })
    } else if !inside && was {
        *hovered = None;
        HoverChange::Exited(HoverExitEvent { element: element.element })
    } else {
        HoverChange::Unchanged
    }
}

/// Whether a change of a button presses the widget: the left button has gone
/// down while the pointer, at `cursor`, is over the widget.
pub open spec fn spec_on_mouse_click_start<C: CollisionFunction>(
    element: Element<C>,
    button: MouseButton,
    state: ButtonState,
    cursor: Point,
) -> Option<PressEvent> {
    if button == MouseButton::Left && state == ButtonState::Pressed && element.spec_under(cursor) {
        Some(PressEvent { element: element.element })
    } else {
        None
    }
}

/// A button has changed while the pointer is at `cursor`. Where the left
/// button has gone down over the widget, the widget is pressed and gains its
/// marker.
pub fn on_mouse_click_start<C: CollisionFunction>(
    element: &Element<C>,
    pressed: &mut Option<ElementPressed>,
    button: MouseButton,
    state: ButtonState,
    cursor: Point,
) -> (event: Option<PressEvent>)
    ensures
        event == spec_on_mouse_click_start(*element, button, state, cursor),
        event.is_some() ==> final(pressed).is_some(),
        event.is_none() ==> *final(pressed) == *old(pressed),
{
    if button == MouseButton::Left && state == ButtonState::Pressed && element.under(cursor) {
        *pressed = Some(ElementPressed);
        Some(PressEvent { element: element.element })
    } else {
        None
    }
}

/// Whether a change of a button releases the widget: the widget was pressed,
/// and the left button has come up.
pub open spec fn spec_on_mouse_click_end<C: CollisionFunction>(
    element: Element<C>,
    pressed: Option<ElementPressed>,
    button: MouseButton,
    state: ButtonState,
) -> Option<ReleaseEvent> {
    if pressed.is_some() && button == MouseButton::Left && state == ButtonState::Released {
        Some(ReleaseEvent { element: element.element })
    } else {
        None
    }
}

/// A button has changed while the pointer is at `cursor`. Where the left
/// button has come up and the widget was pressed, the widget is released and
/// loses its marker; if the pointer is still over it, it has been clicked as
/// well.
pub fn on_mouse_click_end<C: CollisionFunction>(
    element: &Element<C>,
    pressed: &mut Option<ElementPressed>,
    button: MouseButton,
    state: ButtonState,
    cursor: Point,
) -> (events: (Option<ReleaseEvent>, Option<ClickEvent>))
    ensures
        events.0 == spec_on_mouse_click_end(*element, *old(pressed), button, state),
        events.1 == (if events.0.is_some() && element.spec_under(cursor) {
            Some(ClickEvent { element: element.element })
        } else {
            None
        }),
        events.0.is_some() ==> final(pressed).is_none(),
        events.0.is_none() ==> *final(pressed) == *old(pressed),
{
    if pressed.is_some() && button == MouseButton::Left && state == ButtonState::Released {
        *pressed = None;
        let click = if element.under(cursor) {
            Some(ClickEvent { element: element.element })
        } else {
            None
        };
        (Some(ReleaseEvent { element: element.element }), click)
    } else {
        (None, None)
    }
}

} // verus!
