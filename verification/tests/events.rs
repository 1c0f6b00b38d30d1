use epui::collision::{
    hit, update_box_collision, AABBCollisionFunction, Collision, CollisionFunction, Point,
};
use epui::event::{
    on_mouse_click_end, on_mouse_click_start, on_mouse_move, ButtonState, ClickEvent, Element,
    ElementHovered, ElementPressed, HoverChange, HoverEnterEvent, HoverExitEvent, MouseButton,
    PressEvent, ReleaseEvent,
};

fn button() -> Element<Collision> {
    Element {
        element: 3,
        position: Position::new(50, 50),
        size: Size::new(200, 60),
        collision: Collision::Rectangle(AABBCollisionFunction),
        visible_region: None,
    }
}

const OVER: Point = Point { x: 60, y: 60 };
const AWAY: Point = Point { x: 10, y: 10 };
use epui::property::{
    CornersRoundness, FontSize, Position, Scalar, Size, UiText, VisibleRegion, ZLevel,
};
use epui::update::{
    update_visible_region, update_z, update_z_level, AutoVisibleRegionUpdate, AutoZUpdate, ZWidget,
};

#[test]
fn moving_enters_and_leaves_once() {
    let mut hovered = None;
    assert_eq!(on_mouse_move(&button(), &mut hovered, AWAY), HoverChange::Unchanged);
    assert_eq!(
        on_mouse_move(&button(), &mut hovered, OVER),
        HoverChange::Entered(HoverEnterEvent { element: 3 })
    );
    assert_eq!(hovered, Some(ElementHovered));
    assert_eq!(on_mouse_move(&button(), &mut hovered, OVER), HoverChange::Unchanged);
    assert_eq!(
        on_mouse_move(&button(), &mut hovered, AWAY),
        HoverChange::Exited(HoverExitEvent { element: 3 })
    );
    assert_eq!(hovered, None);
}

#[test]
fn press_needs_the_left_button_over_the_widget() {
    let mut pressed = None;
    assert_eq!(
        on_mouse_click_start(&button(), &mut pressed, MouseButton::Right, ButtonState::Pressed, OVER),
        None
    );
    assert_eq!(
        on_mouse_click_start(&button(), &mut pressed, MouseButton::Left, ButtonState::Pressed, AWAY),
        None
    );
    assert_eq!(
        on_mouse_click_start(&button(), &mut pressed, MouseButton::Left, ButtonState::Released, OVER),
        None
    );
    assert_eq!(pressed, None);
    assert_eq!(
        on_mouse_click_start(&button(), &mut pressed, MouseButton::Left, ButtonState::Pressed, OVER),
        Some(PressEvent { element: 3 })
    );
    assert_eq!(pressed, Some(ElementPressed));
}

#[test]
fn release_over_the_widget_is_a_click() {
    let mut pressed = Some(ElementPressed);
    assert_eq!(
        on_mouse_click_end(&button(), &mut pressed, MouseButton::Left, ButtonState::Pressed, OVER),
        (None, None)
    );
    assert_eq!(pressed, Some(ElementPressed));
    assert_eq!(
        on_mouse_click_end(&button(), &mut pressed, MouseButton::Left, ButtonState::Released, OVER),
        (Some(ReleaseEvent { element: 3 }), Some(ClickEvent { element: 3 }))
    );
    assert_eq!(pressed, None);
    assert_eq!(
        on_mouse_click_end(&button(), &mut pressed, MouseButton::Left, ButtonState::Released, OVER),
        (None, None)
    );

    let mut pressed = Some(ElementPressed);
    assert_eq!(
        on_mouse_click_end(&button(), &mut pressed, MouseButton::Left, ButtonState::Released, AWAY),
        (Some(ReleaseEvent { element: 3 }), None)
    );
    assert_eq!(pressed, None);
}

#[test]
fn a_hidden_widget_is_not_entered() {
    let mut widget = button();
    widget.visible_region = Some(VisibleRegion::new(0, 0, 55, 55));
    let mut hovered = None;
    assert!(!widget.under(OVER));
    assert!(widget.under(Point::new(52, 52)));
    assert_eq!(on_mouse_move(&widget, &mut hovered, OVER), HoverChange::Unchanged);
    assert_eq!(
        on_mouse_move(&widget, &mut hovered, Point::new(52, 52)),
        HoverChange::Entered(HoverEnterEvent { element: 3 })
    );
    assert_eq!(
        on_mouse_move(&widget, &mut hovered, OVER),
        HoverChange::Exited(HoverExitEvent { element: 3 })
    );
}

#[test]
fn a_hit_needs_the_visible_region() {
    let position = Position::new(10, 10);
    let size = Size::new(20, 20);
    let shape = Collision::Rectangle(AABBCollisionFunction);
    assert!(hit(position, size, &shape, None, Point::new(10, 10)));
    assert!(hit(position, size, &shape, None, Point::new(30, 30)));
    assert!(!hit(position, size, &shape, None, Point::new(31, 30)));
    let region = VisibleRegion::new(0, 0, 15, 15);
    assert!(hit(position, size, &shape, Some(region), Point::new(15, 15)));
    assert!(!hit(position, size, &shape, Some(region), Point::new(16, 15)));
    assert!(!hit(position, size, &shape, Some(region), Point::new(5, 5)));
    assert!(hit(position, size, &shape, Some(VisibleRegion::everything()), Point::new(30, 30)));
}

#[test]
fn roundness_turns_a_shape_into_a_box() {
    let mut shape = Collision::Rectangle(AABBCollisionFunction);
    let position = Position::new(0, 0);
    let size = Size::new(100, 100);
    assert!(hit(position, size, &shape, None, Point::new(1, 1)));
    update_box_collision(&mut shape, CornersRoundness::from_scalar(Scalar::one()));
    assert!(!hit(position, size, &shape, None, Point::new(1, 1)));
    update_box_collision(&mut shape, CornersRoundness::from_scalar(Scalar::zero()));
    assert!(hit(position, size, &shape, None, Point::new(1, 1)));
}

#[test]
fn a_child_stands_one_level_above_its_parent() {
    let mut level = ZLevel(0);
    update_z_level(&mut level, Some(AutoZUpdate), Some(4));
    assert_eq!(level, ZLevel(5));
    update_z_level(&mut level, None, Some(9));
    assert_eq!(level, ZLevel(5));
    update_z_level(&mut level, Some(AutoZUpdate), None);
    assert_eq!(level, ZLevel(5));
}

fn widget(element: u64, level: u32, follows: bool, parent: Option<u64>) -> ZWidget {
    ZWidget {
        element,
        z_level: ZLevel(level),
        auto_update: if follows { Some(AutoZUpdate) } else { None },
        parent,
    }
}

#[test]
fn levels_follow_the_levels_that_parents_had() {
    let mut widgets = vec![
        widget(1, 7, false, None),
        widget(2, 0, true, Some(1)),
        widget(3, 0, true, Some(2)),
        widget(4, 3, false, Some(1)),
        widget(5, 9, true, Some(99)),
        widget(6, 9, true, None),
    ];
    assert!(update_z(&mut widgets));
    let levels: Vec<u32> = widgets.iter().map(|widget| widget.z_level.0).collect();
    assert_eq!(levels, vec![7, 8, 1, 3, 9, 9]);
    assert!(update_z(&mut widgets));
    let levels: Vec<u32> = widgets.iter().map(|widget| widget.z_level.0).collect();
    assert_eq!(levels, vec![7, 8, 9, 3, 9, 9]);
    assert_eq!(widgets[2], widget(3, 9, true, Some(2)));
}

#[test]
fn of_two_widgets_with_one_number_the_later_counts() {
    let mut widgets = vec![
        widget(1, 1, false, None),
        widget(1, 5, false, None),
        widget(2, 0, true, Some(1)),
    ];
    assert!(update_z(&mut widgets));
    assert_eq!(widgets[2].z_level, ZLevel(6));
}

#[test]
fn no_level_above_the_highest() {
    let mut widgets = vec![
        widget(1, u32::MAX, false, None),
        widget(2, 0, true, Some(3)),
        widget(3, 4, true, Some(1)),
    ];
    let before = widgets.clone();
    assert!(!update_z(&mut widgets));
    assert_eq!(widgets, before);

    let mut widgets = vec![widget(1, u32::MAX, true, None), widget(2, 0, false, Some(1))];
    assert!(update_z(&mut widgets));
    assert_eq!(widgets[1].z_level, ZLevel(0));
    let mut empty: Vec<ZWidget> = Vec::new();
    assert!(update_z(&mut empty));
}

#[test]
fn a_child_is_visible_within_its_parent() {
    let mut region = VisibleRegion::default();
    update_visible_region(
        &mut region,
        Some(AutoVisibleRegionUpdate),
        Some((Position::new(5, 6), Size::new(7, 8))),
    );
    assert_eq!(region, VisibleRegion::new(5, 6, 7, 8));
    update_visible_region(&mut region, None, None);
    assert_eq!(region, VisibleRegion::new(5, 6, 7, 8));
    update_visible_region(&mut region, Some(AutoVisibleRegionUpdate), None);
    assert_eq!(region, VisibleRegion::new(0, 0, u32::MAX, u32::MAX));
    assert_eq!(region, VisibleRegion::everything());
}

#[test]
fn defaults() {
    assert_eq!(Position::default(), Position::new(0, 0));
    assert_eq!(Size::default(), Size::new(50, 50));
    assert_eq!(FontSize::default(), FontSize(16));
    assert_eq!(ZLevel::default(), ZLevel(0));
    assert_eq!(VisibleRegion::default(), VisibleRegion::new(0, 0, 0, 0));
    assert_eq!(CornersRoundness::default(), CornersRoundness::from_scalar(Scalar::zero()));
    assert_eq!(UiText::default(), UiText(String::new()));
}

struct LeftHalf;

impl CollisionFunction for LeftHalf {
    fn spec_contains(&self, position: Position, size: Size, point: Point) -> bool {
        self.contains(position, size, point)
    }

    fn contains(&self, position: Position, size: Size, point: Point) -> bool {
        AABBCollisionFunction.contains(position, Size::new(size.width / 2, size.height), point)
    }
}

#[test]
fn a_shape_of_the_callers_own_is_hit_like_any_other() {
    let widget = Element {
        element: 9,
        position: Position::new(0, 0),
        size: Size::new(100, 100),
        collision: LeftHalf,
        visible_region: None,
    };
    assert!(hit(widget.position, widget.size, &widget.collision, None, Point::new(50, 50)));
    assert!(!hit(widget.position, widget.size, &widget.collision, None, Point::new(51, 50)));
    let mut hovered = None;
    assert_eq!(
        on_mouse_move(&widget, &mut hovered, Point::new(10, 10)),
        HoverChange::Entered(HoverEnterEvent { element: 9 })
    );
    assert_eq!(
        on_mouse_move(&widget, &mut hovered, Point::new(90, 10)),
        HoverChange::Exited(HoverExitEvent { element: 9 })
    );
}
