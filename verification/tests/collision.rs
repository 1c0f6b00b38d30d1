use epui::collision::{
    AABBCollisionFunction, BoxCollisionFunction, CollisionFunction, Point,
};
use epui::property::{CornersRoundness, Position, Scalar, Size};

fn round_box() -> BoxCollisionFunction {
    BoxCollisionFunction::new(CornersRoundness::from_scalar(Scalar::one()))
}

#[test]
fn round_box_contains_its_centre() {
    let shape = round_box();
    assert!(shape.contains(Position::new(0, 0), Size::new(100, 100), Point::new(50, 50)));
}

#[test]
fn round_box_rejects_its_extreme_corner() {
    let shape = round_box();
    assert!(!shape.contains(Position::new(0, 0), Size::new(100, 100), Point::new(1, 1)));
    assert!(!shape.contains(Position::new(0, 0), Size::new(100, 100), Point::new(99, 1)));
    assert!(!shape.contains(Position::new(0, 0), Size::new(100, 100), Point::new(1, 99)));
    assert!(!shape.contains(Position::new(0, 0), Size::new(100, 100), Point::new(99, 99)));
}

#[test]
fn round_box_contains_the_middle_of_an_edge() {
    let shape = round_box();
    assert!(shape.contains(Position::new(0, 0), Size::new(100, 100), Point::new(50, 1)));
    assert!(shape.contains(Position::new(0, 0), Size::new(100, 100), Point::new(1, 50)));
    assert!(shape.contains(Position::new(0, 0), Size::new(100, 100), Point::new(50, 100)));
}

#[test]
fn square_box_contains_its_whole_rectangle() {
    let shape = BoxCollisionFunction::new(CornersRoundness::from_scalar(Scalar::zero()));
    let position = Position::new(0, 0);
    let size = Size::new(100, 100);
    assert!(shape.contains(position, size, Point::new(0, 0)));
    assert!(shape.contains(position, size, Point::new(99, 99)));
    for x in 0..=100 {
        for y in 0..=100 {
            assert!(shape.contains(position, size, Point::new(x, y)));
            assert!(AABBCollisionFunction.contains(position, size, Point::new(x, y)));
        }
    }
    assert!(!shape.contains(position, size, Point::new(101, 50)));
    assert!(!shape.contains(position, size, Point::new(-1, 50)));
}

#[test]
fn wide_box_is_round_at_its_ends_only() {
    let shape = round_box();
    let position = Position::new(10, 20);
    let size = Size::new(200, 100);
    assert!(shape.contains(position, size, Point::new(110, 20)));
    assert!(shape.contains(position, size, Point::new(60, 20)));
    assert!(shape.contains(position, size, Point::new(10, 70)));
    assert!(shape.contains(position, size, Point::new(210, 70)));
    assert!(!shape.contains(position, size, Point::new(11, 21)));
    assert!(!shape.contains(position, size, Point::new(209, 21)));
    assert!(!shape.contains(position, size, Point::new(11, 119)));
    assert!(!shape.contains(position, size, Point::new(209, 119)));
    assert!(shape.contains(position, size, Point::new(25, 35)));
    assert!(!shape.contains(position, size, Point::new(24, 34)));
}

#[test]
fn tall_box_contains_the_tips_of_its_arcs() {
    let shape = round_box();
    let position = Position::new(0, 0);
    let size = Size::new(100, 200);
    assert!(shape.contains(position, size, Point::new(50, 0)));
    assert!(shape.contains(position, size, Point::new(50, 200)));
    assert!(shape.contains(position, size, Point::new(0, 100)));
    assert!(!shape.contains(position, size, Point::new(0, 0)));
}

#[test]
fn each_corner_has_its_own_roundness() {
    let corners = CornersRoundness {
        top_left_scalar: Scalar::one(),
        top_right_scalar: Scalar::zero(),
        bottom_left_scalar: Scalar::from_millionths(500_000),
        bottom_right_scalar: Scalar::zero(),
    };
    let shape = BoxCollisionFunction::new(corners);
    let position = Position::new(0, 0);
    let size = Size::new(100, 100);
    assert!(!shape.contains(position, size, Point::new(1, 1)));
    assert!(shape.contains(position, size, Point::new(99, 1)));
    assert!(shape.contains(position, size, Point::new(100, 0)));
    assert!(shape.contains(position, size, Point::new(99, 99)));
    assert!(!shape.contains(position, size, Point::new(1, 99)));
    assert!(shape.contains(position, size, Point::new(8, 92)));
    assert!(!shape.contains(position, size, Point::new(7, 93)));
}

#[test]
fn degenerate_input_counts_as_square() {
    let position = Position::new(5, 5);
    let empty = Size::new(0, 0);
    let round = round_box();
    assert!(round.contains(position, empty, Point::new(5, 5)));
    assert!(!round.contains(position, empty, Point::new(6, 5)));

    let beyond = BoxCollisionFunction::new(CornersRoundness::from_scalar(
        Scalar::from_millionths(2_000_000),
    ));
    let size = Size::new(100, 100);
    assert!(beyond.contains(Position::new(0, 0), size, Point::new(0, 0)));
    assert!(beyond.contains(Position::new(0, 0), size, Point::new(100, 100)));
    assert!(!beyond.contains(Position::new(0, 0), size, Point::new(101, 100)));
    assert!(BoxCollisionFunction::default().contains(Position::new(0, 0), size, Point::new(1, 1)));
}

#[test]
fn far_points_are_outside() {
    let shape = round_box();
    let position = Position::new(u32::MAX, u32::MAX);
    let size = Size::new(u32::MAX, u32::MAX);
    assert!(!shape.contains(position, size, Point::new(i64::MIN, i64::MIN)));
    assert!(!shape.contains(position, size, Point::new(i64::MAX, i64::MAX)));
    assert!(!shape.contains(position, size, Point::new(u32::MAX as i64, u32::MAX as i64)));
    let centre = u32::MAX as i64 + (u32::MAX / 2) as i64;
    assert!(shape.contains(position, size, Point::new(centre, centre)));
    assert!(AABBCollisionFunction.contains(position, size, Point::new(u32::MAX as i64, centre)));
}
