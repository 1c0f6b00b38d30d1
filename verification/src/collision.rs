//! Whether a point lies inside a widget.
//!
//! Two shapes are known: the plain rectangle, and the box whose four corners
//! are rounded each by its own amount. Both count their border as inside. All
//! of the geometry is exact: distances from the centre are measured in half
//! pixels and in millionths, so that nothing is rounded.

use vstd::prelude::*;
use crate::property::{CornersRoundness, Position, Scalar, Size, VisibleRegion, SCALAR_ONE};

verus! {

/// A point in the coordinate space in which widgets are placed.
#[derive(Debug, Clone, Copy, Hash, PartialEq, Eq, Structural)]
pub struct Point {
    pub x: i64,
    pub y: i64,
}

impl Point {
    pub fn new(x: i64, y: i64) -> (point: Point)
        ensures
            point == (Point { x, y }),
    {
        Point { x, y }
    }
}

/// Whether `point` lies in the rectangle at (`x`, `y`) that is `width` wide
/// and `height` high, border included.
pub open spec fn spec_in_rectangle(x: int, y: int, width: int, height: int, point: Point) -> bool {
    &&& x <= point.x <= x + width
    &&& y <= point.y <= y + height
}

/// Whether `point` lies in the rectangle at (`x`, `y`) that is `width` wide
/// and `height` high, border included.
pub fn in_rectangle(x: u32, y: u32, width: u32, height: u32, point: Point) -> (inside: bool)
    ensures
        inside == spec_in_rectangle(x as int, y as int, width as int, height as int, point),
{
    let px: i128 = point.x as i128;
    let py: i128 = point.y as i128;
    x as i128 <= px && px <= x as i128 + width as i128 && y as i128 <= py && py <= y as i128
        + height as i128
}

impl VisibleRegion {
    /// Whether the region shows `point`.
    pub open spec fn spec_contains(&self, point: Point) -> bool {
        spec_in_rectangle(self.x as int, self.y as int, self.width as int, self.height as int, point)
    }

    /// Whether the region shows `point`.
    pub fn contains(&self, point: Point) -> (inside: bool)
        ensures
            inside == self.spec_contains(point),
    {
        in_rectangle(self.x, self.y, self.width, self.height, point)
    }
}

/// A shape that a widget can have for the pointer.
pub trait CollisionFunction {
    /// Whether the shape, laid over the rectangle at `position` of extent
    /// `size`, contains `point`.
    spec fn spec_contains(&self, position: Position, size: Size, point: Point) -> bool;

    /// Whether the shape, laid over the rectangle at `position` of extent
    /// `size`, contains `point`.
    fn contains(&self, position: Position, size: Size, point: Point) -> (inside: bool)
        ensures
            inside == self.spec_contains(position, size, point),
    ;
}

/// The plain rectangle.
#[derive(Debug, Default, Clone, Copy, PartialEq, Eq, Structural)]
pub struct AABBCollisionFunction;

impl CollisionFunction for AABBCollisionFunction {
    open spec fn spec_contains(&self, position: Position, size: Size, point: Point) -> bool {
        spec_in_rectangle(
            position.x as int,
            position.y as int,
            size.width as int,
            size.height as int,
            point,
        )
    }

    fn contains(&self, position: Position, size: Size, point: Point) -> (inside: bool) {
        in_rectangle(position.x, position.y, size.width, size.height, point)
    }
}

/// The roundness that a corner is drawn with, in millionths: the scalar
/// itself where it lies in the unit interval, and none otherwise.
pub open spec fn spec_roundness(scalar: Scalar) -> int {
    if scalar.in_unit_interval() {
        scalar.millionths as int
    } else {
        0
    }
}

/// Twice the distance between `coordinate` and the middle of the span that
/// starts at `start` and is `extent` long.
pub open spec fn spec_doubled_offset(start: int, extent: int, coordinate: int) -> int {
    if 2 * coordinate >= 2 * start + extent {
        2 * coordinate - (2 * start + extent)
    } else {
        2 * start + extent - 2 * coordinate
    }
}

/// The box with rounded corners.
///
/// A corner of roundness `r` is an arc of radius `r * m`, where `m` is half
/// of the box's shorter side; with all four at one, a square box is a disc.
#[derive(Debug, Clone, Copy, PartialEq, Eq, Structural)]
pub struct BoxCollisionFunction {
    pub corners_roundness: CornersRoundness,
}

impl BoxCollisionFunction {
    pub fn new(corners_roundness: CornersRoundness) -> (function: BoxCollisionFunction)
        ensures
            function.corners_roundness == corners_roundness,
    {
        BoxCollisionFunction { corners_roundness }
    }

    /// The roundness of the corner in whose quarter of the box `point` lies.
    /// A point level with the centre counts to the left, or to the top.
    pub open spec fn spec_corner(&self, position: Position, size: Size, point: Point) -> Scalar {
        let right = 2 * point.x > 2 * position.x + size.width;
        let bottom = 2 * point.y > 2 * position.y + size.height;
        if right {
            if bottom {
                self.corners_roundness.bottom_right_scalar
            } else {
                self.corners_roundness.top_right_scalar
            }
        } else {
            if bottom {
                self.corners_roundness.bottom_left_scalar
            } else {
                self.corners_roundness.top_left_scalar
            }
        }
    }

    /// Whether a point at the doubled offsets `dx` and `dy` from the centre
    /// lies in the middle part of the box, which no rounding reaches: the span
    /// between the centres of the arcs of greatest roundness.
    pub open spec fn spec_in_middle(size: Size, dx: int, dy: int) -> bool {
        if size.width >= size.height {
            dx <= size.width - size.height
        } else {
            dy <= size.height - size.width
        }
    }

    /// Whether a point at the doubled offsets `dx` and `dy` from the centre
    /// lies within a corner of the given roundness (in millionths): beside
    /// the arc, along one of the two straight sides, or within the arc's
    /// radius of the arc's centre.
    pub open spec fn spec_in_corner(size: Size, roundness: int, dx: int, dy: int) -> bool {
        let minor = if size.width <= size.height {
            size.width as int
        } else {
            size.height as int
        };
        let radius = minor * roundness;
        let anchor_x = size.width * SCALAR_ONE - radius;
        let anchor_y = size.height * SCALAR_ONE - radius;
        let far_x = dx * SCALAR_ONE - anchor_x;
        let far_y = dy * SCALAR_ONE - anchor_y;
        ||| far_x < 0
        ||| far_y < 0
        ||| far_x * far_x + far_y * far_y <= radius * radius
    }
}

impl Default for BoxCollisionFunction {
    fn default() -> (function: BoxCollisionFunction)
        ensures
            function.corners_roundness == CornersRoundness::spec_square(),
    {
        BoxCollisionFunction { corners_roundness: CornersRoundness::default() }
    }
}

impl CollisionFunction for BoxCollisionFunction {
    open spec fn spec_contains(&self, position: Position, size: Size, point: Point) -> bool {
        let dx = spec_doubled_offset(position.x as int, size.width as int, point.x as int);
        let dy = spec_doubled_offset(position.y as int, size.height as int, point.y as int);
        &&& spec_in_rectangle(
            position.x as int,
            position.y as int,
            size.width as int,
            size.height as int,
            point,
        )
        &&& {
            ||| self.corners_roundness.is_square()
            ||| Self::spec_in_middle(size, dx, dy)
            ||| Self::spec_in_corner(
                size,
                spec_roundness(self.spec_corner(position, size, point)),
                dx,
                dy,
            )
        }
    }

    fn contains(&self, position: Position, size: Size, point: Point) -> (inside: bool) {
        if !in_rectangle(position.x, position.y, size.width, size.height, point) {
            return false;
        }
        let corners = self.corners_roundness;
        if corners.top_left_scalar.millionths == 0 && corners.top_right_scalar.millionths == 0
            && corners.bottom_left_scalar.millionths == 0 && corners.bottom_right_scalar.millionths
            == 0 {
            return true;
        }
        let width: i128 = size.width as i128;
        let height: i128 = size.height as i128;
        let centre_x: i128 = 2 * (position.x as i128) + width;
        let centre_y: i128 = 2 * (position.y as i128) + height;
        let point_x: i128 = 2 * (point.x as i128);
        let point_y: i128 = 2 * (point.y as i128);
        let right = point_x > centre_x;
        let bottom = point_y > centre_y;
        let dx: i128 = if point_x >= centre_x {
            point_x - centre_x
        } else {
            centre_x - point_x
        };
        let dy: i128 = if point_y >= centre_y {
            point_y - centre_y
        } else {
            centre_y - point_y
        };
        let in_middle = if width >= height {
            dx <= width - height
        } else {
            dy <= height - width
        };
        if in_middle {
            return true;
        }
        let corner = if right {
            if bottom {
                corners.bottom_right_scalar
            } else {
                corners.top_right_scalar
            }
        } else {
            if bottom {
                corners.bottom_left_scalar
            } else {
                corners.top_left_scalar
            }
        };
        let roundness: i128 = if corner.millionths <= SCALAR_ONE {
            corner.millionths as i128
        } else {
            0
        };
        let minor: i128 = if width <= height {
            width
        } else {
            height
        };
        let one: i128 = SCALAR_ONE as i128;
        proof {
            assert(0 <= minor * roundness <= minor * one) by (nonlinear_arith)
                requires
                    0 <= minor,
                    0 <= roundness <= one,
            ;
            assert(minor * one <= width * one && minor * one <= height * one
                && width * one <= 0xffff_ffff * 1_000_000 && height * one <= 0xffff_ffff
                * 1_000_000 && 0 <= dx * one <= 0xffff_ffff * 1_000_000 && 0 <= dy * one
                <= 0xffff_ffff * 1_000_000) by (nonlinear_arith)
                requires
                    0 <= minor <= width <= 0xffff_ffff,
                    minor <= height <= 0xffff_ffff,
                    0 <= dx <= width,
                    0 <= dy <= height,
                    one == 1_000_000,
            ;
        }
        let radius: i128 = minor * roundness;
        let anchor_x: i128 = width * one - radius;
        let anchor_y: i128 = height * one - radius;
        let far_x: i128 = dx * one - anchor_x;
        let far_y: i128 = dy * one - anchor_y;
        if far_x < 0 || far_y < 0 {
            return true;
        }
        proof {
            let bound: int = 4_294_967_295_000_000int;
            assert(far_x * far_x <= bound * bound && far_y * far_y <= bound * bound && radius
                * radius <= bound * bound) by (nonlinear_arith)
                requires
                    0 <= far_x <= bound,
                    0 <= far_y <= bound,
                    0 <= radius <= bound,
            ;
        }
        far_x * far_x + far_y * far_y <= radius * radius
    }
}

/// The shape of a widget: one of the shapes that are known.
#[derive(Debug, Clone, Copy, PartialEq, Eq, Structural)]
pub enum Collision {
    Rectangle(AABBCollisionFunction),
    RoundedBox(BoxCollisionFunction),
}

impl CollisionFunction for Collision {
    open spec fn spec_contains(&self, position: Position, size: Size, point: Point) -> bool {
        match *self {
            Collision::Rectangle(function) => function.spec_contains(position, size, point),
            Collision::RoundedBox(function) => function.spec_contains(position, size, point),
        }
    }

    fn contains(&self, position: Position, size: Size, point: Point) -> (inside: bool) {
        match self {
            Collision::Rectangle(function) => function.contains(position, size, point),
            Collision::RoundedBox(function) => function.contains(position, size, point),
        }
    }
}

/// Marks a widget whose shape follows its corners' roundness.
#[derive(Debug, Clone, Copy, PartialEq, Eq, Structural)]
pub struct BoxCollision;

/// What a widget with rounded corners carries for the pointer: the shape of
/// a box, and the marker that keeps the shape in step with the roundness.
#[derive(Debug, Clone, Copy, PartialEq, Eq, Structural)]
pub struct BoxCollisionBundle {
    pub collision: Collision,
    pub box_collision: BoxCollision,
}

impl BoxCollisionBundle {
    pub fn new() -> (bundle: BoxCollisionBundle)
        ensures
            bundle.collision == Collision::RoundedBox(
                BoxCollisionFunction { corners_roundness: CornersRoundness::spec_square() },
            ),
    {
        BoxCollisionBundle {
            collision: Collision::RoundedBox(BoxCollisionFunction::default()),
            box_collision: BoxCollision,
        }
    }
}

impl Default for BoxCollisionBundle {
    fn default() -> (bundle: BoxCollisionBundle)
        ensures
            bundle.collision == Collision::RoundedBox(
                BoxCollisionFunction { corners_roundness: CornersRoundness::spec_square() },
            ),
    {
        BoxCollisionBundle::new()
    }
}

/// What a rectangular widget carries for the pointer: the shape of its
/// rectangle.
#[derive(Debug, Clone, Copy, PartialEq, Eq, Structural)]
pub struct AABBCollisionBundle {
    pub collision: Collision,
}

impl AABBCollisionBundle {
    pub fn new() -> (bundle: AABBCollisionBundle)
        ensures
            bundle.collision == Collision::Rectangle(AABBCollisionFunction),
    {
        AABBCollisionBundle { collision: Collision::Rectangle(AABBCollisionFunction) }
    }
}

impl Default for AABBCollisionBundle {
    fn default() -> (bundle: AABBCollisionBundle)
        ensures
            bundle.collision == Collision::Rectangle(AABBCollisionFunction),
    {
        AABBCollisionBundle::new()
    }
}

/// Gives `collision` the shape of a box whose corners are rounded as
/// `corners_roundness` says, whatever shape it had.
pub fn update_box_collision(collision: &mut Collision, corners_roundness: CornersRoundness)
    ensures
        *final(collision) == Collision::RoundedBox(BoxCollisionFunction { corners_roundness }),
{
    *collision = Collision::RoundedBox(BoxCollisionFunction { corners_roundness });
}

/// Whether a widget is under `point`: the point lies in the part of the
/// widget that is visible, and in the widget's shape.
///
/// A widget without a visible region of its own is visible over its whole
/// rectangle.
pub open spec fn spec_hit<C: CollisionFunction>(
    position: Position,
    size: Size,
    collision: C,
    visible_region: Option<VisibleRegion>,
    point: Point,
) -> bool {
    let region = match visible_region {
        Some(region) => region,
        None => VisibleRegion {
            x: position.x,
            y: position.y,
            width: size.width,
            height: size.height,
        },
    };
    region.spec_contains(point) && collision.spec_contains(position, size, point)
}

/// Whether a widget is under `point`.
pub fn hit<C: CollisionFunction>(
    position: Position,
    size: Size,
    collision: &C,
    visible_region: Option<VisibleRegion>,
    point: Point,
) -> (inside: bool)
    ensures
        inside == spec_hit(position, size, *collision, visible_region, point),
{
    let region = match visible_region {
        Some(region) => region,
        None => VisibleRegion::new(position.x, position.y, size.width, size.height),
    };
    region.contains(point) && collision.contains(position, size, point)
}

/// A box without rounding is its rectangle.
pub proof fn law_square_box_is_rectangle(
    function: BoxCollisionFunction,
    position: Position,
    size: Size,
    point: Point,
)
    requires
        function.corners_roundness.is_square(),
    ensures
        function.spec_contains(position, size, point) == AABBCollisionFunction.spec_contains(
            position,
            size,
            point,
        ),
{
}

/// Whatever its corners, a box lies within its rectangle.
pub proof fn law_box_within_rectangle(
    function: BoxCollisionFunction,
    position: Position,
    size: Size,
    point: Point,
)
    requires
        function.spec_contains(position, size, point),
    ensures
        AABBCollisionFunction.spec_contains(position, size, point),
{
}

/// A square box whose corners are all fully rounded is the disc inscribed in
/// its rectangle: it holds the points of the rectangle whose distance from
/// the centre is at most half of the side.
pub proof fn law_round_square_is_disc(
    function: BoxCollisionFunction,
    position: Position,
    size: Size,
    point: Point,
)
    requires
        size.width == size.height,
        function.corners_roundness == (CornersRoundness {
            top_left_scalar: Scalar { millionths: SCALAR_ONE },
            top_right_scalar: Scalar { millionths: SCALAR_ONE },
            bottom_left_scalar: Scalar { millionths: SCALAR_ONE },
            bottom_right_scalar: Scalar { millionths: SCALAR_ONE },
        }),
    ensures
        function.spec_contains(position, size, point) == {
            let dx = spec_doubled_offset(position.x as int, size.width as int, point.x as int);
            let dy = spec_doubled_offset(position.y as int, size.height as int, point.y as int);
            &&& AABBCollisionFunction.spec_contains(position, size, point)
            &&& dx * dx + dy * dy <= size.width * size.width
        },
{
    let side = size.width as int;
    let dx = spec_doubled_offset(position.x as int, side, point.x as int);
    let dy = spec_doubled_offset(position.y as int, side, point.y as int);
    let one = SCALAR_ONE as int;
    let corner = function.spec_corner(position, size, point);
    assert(spec_roundness(corner) == one);
    if AABBCollisionFunction.spec_contains(position, size, point) {
        assert(0 <= dx <= side && 0 <= dy <= side);
        let radius = side * one;
        let far_x = dx * one - (side * one - radius);
        let far_y = dy * one - (side * one - radius);
        assert(far_x == dx * one && far_y == dy * one);
        assert((far_x * far_x + far_y * far_y <= radius * radius) == (dx * dx + dy * dy <= side
            * side)) by (nonlinear_arith)
            requires
                far_x == dx * one,
                far_y == dy * one,
                radius == side * one,
                one == 1_000_000,
        ;
        assert(dx == 0 ==> dx * dx + dy * dy <= side * side) by (nonlinear_arith)
            requires
                0 <= dy <= side,
        ;
        assert(!(far_x < 0) && !(far_y < 0)) by (nonlinear_arith)
            requires
                far_x == dx * one,
                far_y == dy * one,
                0 <= dx,
                0 <= dy,
                one == 1_000_000,
        ;
    }
}

} // verus!
