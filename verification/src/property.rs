//! The value types that describe a widget: where it is, how large it is and
//! how it is drawn.
//!
//! Every quantity is an integer. Pixels are whole numbers, and the quantities
//! that range over the unit interval (colour channels, corner roundness) are
//! held in fixed point as a [`Scalar`], a count of millionths.

use vstd::prelude::*;

verus! {

/// The number of millionths that make up one whole.
pub const SCALAR_ONE: u32 = 1_000_000;

/// A non-negative number in fixed point, counted in millionths.
///
/// `Scalar { millionths: 250_000 }` stands for a quarter.
#[derive(Debug, Clone, Copy, Hash, PartialEq, Eq, Structural)]
pub struct Scalar {
    pub millionths: u32,
}

impl Scalar {
    /// The scalar that stands for zero.
    pub fn zero() -> (scalar: Scalar)
        ensures
            scalar == (Scalar { millionths: 0 }),
    {
        Scalar { millionths: 0 }
    }

    /// The scalar that stands for one.
    pub fn one() -> (scalar: Scalar)
        ensures
            scalar == (Scalar { millionths: SCALAR_ONE }),
    {
        Scalar { millionths: SCALAR_ONE }
    }

    /// The scalar that holds the given number of millionths.
    pub fn from_millionths(millionths: u32) -> (scalar: Scalar)
        ensures
            scalar == (Scalar { millionths }),
    {
        Scalar { millionths }
    }

    /// Whether the scalar lies in the unit interval.
    pub open spec fn in_unit_interval(self) -> bool {
        self.millionths <= SCALAR_ONE
    }
}

impl Default for Scalar {
    fn default() -> (scalar: Scalar)
        ensures
            scalar == (Scalar { millionths: 0 }),
    {
        Scalar { millionths: 0 }
    }
}

/// The top-left corner of a widget, in pixels.
#[derive(Debug, Clone, Copy, Hash, PartialEq, Eq, Structural)]
pub struct Position {
    pub x: u32,
    pub y: u32,
}

impl Position {
    #[inline]
    pub fn new(x: u32, y: u32) -> (position: Position)
        ensures
            position == (Position { x, y }),
    {
        Position { x, y }
    }
}

impl Default for Position {
    fn default() -> (position: Position)
        ensures
            position == (Position { x: 0, y: 0 }),
    {
        Position { x: 0, y: 0 }
    }
}

/// The depth of a widget: a widget with a greater level is drawn above one
/// with a smaller level.
#[derive(Debug, Clone, Copy, Hash, PartialEq, Eq, Structural)]
pub struct ZLevel(pub u32);

impl Default for ZLevel {
    fn default() -> (level: ZLevel)
        ensures
            level.0 == 0,
    {
        ZLevel(0)
    }
}

/// The extent of a widget, in pixels.
#[derive(Debug, Clone, Copy, Hash, PartialEq, Eq, Structural)]
pub struct Size {
    pub width: u32,
    pub height: u32,
}

impl Size {
    #[inline]
    pub fn new(width: u32, height: u32) -> (size: Size)
        ensures
            size == (Size { width, height }),
    {
        Size { width, height }
    }
}

impl Default for Size {
    fn default() -> (size: Size)
        ensures
            size == (Size { width: 50, height: 50 }),
    {
        Size::new(50, 50)
    }
}

/// A colour as four channels, each a [`Scalar`] in normalized space: zero is
/// none of the channel, one is all of it.
#[derive(Debug, Clone, Copy, Hash, PartialEq, Eq, Structural)]
pub struct Color {
    pub red: Scalar,
    pub green: Scalar,
    pub blue: Scalar,
    pub alpha: Scalar,
}

impl Color {
    /// The colour with the given channels.
    pub fn rgba(red: Scalar, green: Scalar, blue: Scalar, alpha: Scalar) -> (color: Color)
        ensures
            color == (Color { red, green, blue, alpha }),
    {
        Color { red, green, blue, alpha }
    }
}

impl Default for Color {
    /// Opaque white.
    fn default() -> (color: Color)
        ensures
            color.red.millionths == SCALAR_ONE,
            color.green.millionths == SCALAR_ONE,
            color.blue.millionths == SCALAR_ONE,
            color.alpha.millionths == SCALAR_ONE,
    {
        Color { red: Scalar::one(), green: Scalar::one(), blue: Scalar::one(), alpha: Scalar::one() }
    }
}

/// The colour that a widget is filled with.
#[derive(Debug, Clone, Copy, Hash, PartialEq, Eq, Structural)]
pub struct ColoredElement {
    pub color: Color,
}

impl ColoredElement {
    #[inline]
    pub fn new(color: Color) -> (element: ColoredElement)
        ensures
            element.color == color,
    {
        ColoredElement { color }
    }
}

impl Default for ColoredElement {
    fn default() -> (element: ColoredElement)
        ensures
            element.color.red.millionths == SCALAR_ONE,
            element.color.green.millionths == SCALAR_ONE,
            element.color.blue.millionths == SCALAR_ONE,
            element.color.alpha.millionths == SCALAR_ONE,
    {
        ColoredElement { color: Color::default() }
    }
}

/// How far each corner of a box is rounded: zero leaves the corner square,
/// one rounds it by half of the box's shorter side.
#[derive(Debug, Clone, Copy, Hash, PartialEq, Eq, Structural)]
pub struct CornersRoundness {
    pub top_left_scalar: Scalar,
    pub top_right_scalar: Scalar,
    pub bottom_left_scalar: Scalar,
    pub bottom_right_scalar: Scalar,
}

impl CornersRoundness {
    /// The roundness that rounds all four corners alike.
    pub fn from_scalar(scalar: Scalar) -> (corners: CornersRoundness)
        ensures
            corners == (CornersRoundness {
                top_left_scalar: scalar,
                top_right_scalar: scalar,
                bottom_left_scalar: scalar,
                bottom_right_scalar: scalar,
            }),
    {
        CornersRoundness {
            top_left_scalar: scalar,
            top_right_scalar: scalar,
            bottom_left_scalar: scalar,
            bottom_right_scalar: scalar,
        }
    }

    /// The roundness that rounds no corner.
    pub open spec fn spec_square() -> CornersRoundness {
        CornersRoundness {
            top_left_scalar: Scalar { millionths: 0 },
            top_right_scalar: Scalar { millionths: 0 },
            bottom_left_scalar: Scalar { millionths: 0 },
            bottom_right_scalar: Scalar { millionths: 0 },
        }
    }

    /// Whether no corner is rounded at all.
    pub open spec fn is_square(self) -> bool {
        &&& self.top_left_scalar.millionths == 0
        &&& self.top_right_scalar.millionths == 0
        &&& self.bottom_left_scalar.millionths == 0
        &&& self.bottom_right_scalar.millionths == 0
    }
}

impl Default for CornersRoundness {
    fn default() -> (corners: CornersRoundness)
        ensures
            corners == CornersRoundness::spec_square(),
    {
        CornersRoundness::from_scalar(Scalar::zero())
    }
}

/// The rectangle outside of which a widget is neither drawn nor hit.
#[derive(Debug, Clone, Copy, Hash, PartialEq, Eq, Structural)]
pub struct VisibleRegion {
    pub x: u32,
    pub y: u32,
    pub width: u32,
    pub height: u32,
}

impl VisibleRegion {
    #[inline]
    pub fn new(x: u32, y: u32, width: u32, height: u32) -> (region: VisibleRegion)
        ensures
            region == (VisibleRegion { x, y, width, height }),
    {
        VisibleRegion { x, y, width, height }
    }

    /// The region that hides nothing: it starts at the origin and is as wide
    /// and as high as a region can be.
    pub fn everything() -> (region: VisibleRegion)
        ensures
            region == (VisibleRegion { x: 0, y: 0, width: u32::MAX, height: u32::MAX }),
    {
        VisibleRegion { x: 0, y: 0, width: u32::MAX, height: u32::MAX }
    }
}

impl Default for VisibleRegion {
    fn default() -> (region: VisibleRegion)
        ensures
            region == (VisibleRegion { x: 0, y: 0, width: 0, height: 0 }),
    {
        VisibleRegion { x: 0, y: 0, width: 0, height: 0 }
    }
}

/// The text that a widget shows.
#[derive(Debug, Default, Clone, Hash, PartialEq, Eq)]
pub struct UiText(pub String);

/// The size of a text's font, in pixels.
#[derive(Debug, Clone, Copy, Hash, PartialEq, Eq, Structural)]
pub struct FontSize(pub u32);

impl Default for FontSize {
    fn default() -> (size: FontSize)
        ensures
            size.0 == 16,
    {
        FontSize(16)
    }
}

} // verus!
