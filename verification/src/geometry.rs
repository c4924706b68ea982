//! Integer screen geometry: points, sizes and rectangles.
use vstd::prelude::*;

verus! {

/// A point on the screen, in pixels.
#[derive(Clone, Copy, Debug, PartialEq, Eq, Structural)]
pub struct Point {
    pub x: i32,
    pub y: i32,
}

/// A width and a height, in pixels.
#[derive(Clone, Copy, Debug, PartialEq, Eq, Structural)]
pub struct Size {
    pub width: u32,
    pub height: u32,
}

/// An axis-aligned rectangle given by its top-left corner and its size.
#[derive(Clone, Copy, Debug, PartialEq, Eq, Structural)]
pub struct Rectangle {
    pub top_left: Point,
    pub size: Size,
}

/// The radii of the four corners of a rounded rectangle.
#[derive(Clone, Copy, Debug, PartialEq, Eq, Structural)]
pub struct CornerRadii {
    pub top_left: Size,
    pub top_right: Size,
    pub bottom_right: Size,
    pub bottom_left: Size,
}

impl Point {
    pub fn new(x: i32, y: i32) -> (p: Point)
        ensures
            p == (Point { x, y }),
    {
        Point { x, y }
    }

    /// The sum of two points, component by component.
    pub open spec fn plus(self, other: Point) -> Point {
        Point { x: (self.x + other.x) as i32, y: (self.y + other.y) as i32 }
    }

    /// Whether `self + other` fits in `i32` on both axes.
    pub open spec fn can_add(self, other: Point) -> bool {
        &&& i32::MIN <= self.x + other.x <= i32::MAX
        &&& i32::MIN <= self.y + other.y <= i32::MAX
    }

    /// `self` moved by `other`.
    pub fn offset_by(self, other: Point) -> (p: Point)
        requires
            self.can_add(other),
        ensures
            p == self.plus(other),
            p.x == self.x + other.x,
            p.y == self.y + other.y,
    {
        Point { x: self.x + other.x, y: self.y + other.y }
    }
}

impl Size {
    pub fn new(width: u32, height: u32) -> (s: Size)
        ensures
            s == (Size { width, height }),
    {
        Size { width, height }
    }
}

impl Rectangle {
    pub fn new(top_left: Point, size: Size) -> (r: Rectangle)
        ensures
            r == (Rectangle { top_left, size }),
    {
        Rectangle { top_left, size }
    }
}

/// How far the top-left corner of a circle of the given diameter lies from its
/// centre, on each axis: half the diameter less one, rounded down.
pub open spec fn circle_center_offset(diameter: u32) -> int {
    if diameter == 0 {
        0
    } else {
        (diameter - 1) / 2
    }
}

/// The square that bounds a circle of the given diameter around `center`.
pub open spec fn spec_circle_bounds(center: Point, diameter: u32) -> Rectangle {
    Rectangle {
        top_left: Point {
            x: (center.x - circle_center_offset(diameter)) as i32,
            y: (center.y - circle_center_offset(diameter)) as i32,
        },
        size: Size { width: diameter, height: diameter },
    }
}

/// The bounding box of `Circle::with_center(center, diameter)` of embedded-graphics.
///
/// Trusted: in embedded-graphics, `Circle::with_center` places the top-left
/// corner at `center` less `diameter.saturating_sub(1) / 2` on both axes, and
/// `bounding_box` is the square of side `diameter` at that corner.
#[verifier::external_body]
pub(crate) fn circle_bounds(center: Point, diameter: u32) -> (r: Rectangle)
    requires
        center.x - circle_center_offset(diameter) >= i32::MIN,
        center.y - circle_center_offset(diameter) >= i32::MIN,
    ensures
        r == spec_circle_bounds(center, diameter),
{
    let circle = embedded_graphics::primitives::Circle::with_center(
        embedded_graphics::geometry::Point::new(center.x, center.y),
        diameter,
    );
    let b = embedded_graphics::geometry::Dimensions::bounding_box(&circle);
    Rectangle {
        top_left: Point { x: b.top_left.x, y: b.top_left.y },
        size: Size { width: b.size.width, height: b.size.height },
    }
}

} // verus!
