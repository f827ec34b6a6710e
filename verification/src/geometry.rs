//! Plain-value points, sizes, rectangles and RGB565 colours.
//!
//! These mirror the `embedded-graphics` geometry that the drawing code works
//! with; rectangle containment, corners and intersection are computed by
//! `embedded-graphics` itself.

use embedded_graphics::geometry::Point as EgPoint;
use embedded_graphics::geometry::Size as EgSize;
use embedded_graphics::primitives::Rectangle as EgRectangle;
use vstd::prelude::*;

verus! {

/// A point in a 2D pixel grid (X grows right, Y grows down).
#[derive(Clone, Copy, Debug, PartialEq, Eq, Structural)]
pub struct Point {
    pub x: i32,
    pub y: i32,
}

impl Point {
    pub fn new(x: i32, y: i32) -> (r: Self)
        ensures
            r.x == x,
            r.y == y,
    {
        Point { x, y }
    }

    pub fn zero() -> (r: Self)
        ensures
            r.x == 0,
            r.y == 0,
    {
        Point { x: 0, y: 0 }
    }
}

/// A width and a height in pixels.
#[derive(Clone, Copy, Debug, PartialEq, Eq, Structural)]
pub struct Size {
    pub width: u32,
    pub height: u32,
}

impl Size {
    pub fn new(width: u32, height: u32) -> (r: Self)
        ensures
            r.width == width,
            r.height == height,
    {
        Size { width, height }
    }
}

/// An axis-aligned rectangle given by its top-left corner and its size.
#[derive(Clone, Copy, Debug, PartialEq, Eq, Structural)]
pub struct Rectangle {
    pub top_left: Point,
    pub size: Size,
}

/// The rectangle at the origin with no area.
pub open spec fn zero_rect() -> Rectangle {
    Rectangle { top_left: Point { x: 0, y: 0 }, size: Size { width: 0, height: 0 } }
}

pub open spec fn spec_min(a: int, b: int) -> int {
    if a <= b { a } else { b }
}

pub open spec fn spec_max(a: int, b: int) -> int {
    if a >= b { a } else { b }
}

impl Rectangle {
    pub fn new(top_left: Point, size: Size) -> (r: Self)
        ensures
            r.top_left == top_left,
            r.size == size,
    {
        Rectangle { top_left, size }
    }

    pub open spec fn spec_zero_sized(self) -> bool {
        self.size.width == 0 || self.size.height == 0
    }

    /// The corners of a non-empty rectangle can be computed without overflow.
    pub open spec fn in_range(self) -> bool {
        self.spec_zero_sized() || {
            &&& self.size.width <= i32::MAX
            &&& self.size.height <= i32::MAX
            &&& self.top_left.x + self.size.width <= i32::MAX
            &&& self.top_left.y + self.size.height <= i32::MAX
        }
    }

    /// X coordinate one past the right edge.
    pub open spec fn right(self) -> int {
        self.top_left.x + self.size.width
    }

    /// Y coordinate one past the bottom edge.
    pub open spec fn bottom(self) -> int {
        self.top_left.y + self.size.height
    }

    pub open spec fn spec_contains(self, p: Point) -> bool {
        &&& !self.spec_zero_sized()
        &&& self.top_left.x <= p.x < self.right()
        &&& self.top_left.y <= p.y < self.bottom()
    }

    pub open spec fn spec_bottom_right(self) -> Option<Point> {
        if self.spec_zero_sized() {
            None
        } else {
            Some(Point { x: (self.right() - 1) as i32, y: (self.bottom() - 1) as i32 })
        }
    }

    /// Whether the rectangle has no pixels.
    pub fn is_zero_sized(&self) -> (r: bool)
        ensures
            r == self.spec_zero_sized(),
    {
        self.size.height == 0 || self.size.width == 0
    }

    /// Whether the corners of the rectangle can be computed without overflow.
    pub fn is_in_range(&self) -> (r: bool)
        ensures
            r == self.in_range(),
    {
        self.size.width == 0 || self.size.height == 0 || (self.size.width <= i32::MAX as u32
            && self.size.height <= i32::MAX as u32 && self.top_left.x as i64 + self.size.width as i64
            <= i32::MAX as i64 && self.top_left.y as i64 + self.size.height as i64 <= i32::MAX as i64)
    }

    /// Bottom-right pixel of the rectangle; `None` when it has no pixels.
    ///
    /// Computed by `embedded_graphics::primitives::Rectangle::bottom_right`,
    /// which returns `top_left + size - (1, 1)` for a non-empty rectangle.
    #[verifier::external_body]
    pub(crate) fn bottom_right(&self) -> (r: Option<Point>)
        requires
            self.in_range(),
        ensures
            r == self.spec_bottom_right(),
    {
        let eg = EgRectangle::new(
            EgPoint::new(self.top_left.x, self.top_left.y),
            EgSize::new(self.size.width, self.size.height),
        );
        eg.bottom_right().map(|p| Point { x: p.x, y: p.y })
    }

    /// Whether `point` lies inside the rectangle.
    ///
    /// Computed by `embedded_graphics::primitives::Rectangle::contains`, which
    /// accepts exactly the points between the top-left and the bottom-right
    /// corner, and no point of an empty rectangle.
    #[verifier::external_body]
    pub(crate) fn contains(&self, point: Point) -> (r: bool)
        requires
            self.in_range(),
        ensures
            r == self.spec_contains(point),
    {
        let eg = EgRectangle::new(
            EgPoint::new(self.top_left.x, self.top_left.y),
            EgSize::new(self.size.width, self.size.height),
        );
        eg.contains(EgPoint::new(point.x, point.y))
    }

    /// The intersection of two rectangles, or the zero rectangle when they do
    /// not overlap.
    ///
    /// Computed by `embedded_graphics::primitives::Rectangle::intersection`.
    #[verifier::external_body]
    pub(crate) fn intersection(&self, other: &Rectangle) -> (r: Rectangle)
        requires
            self.in_range(),
            other.in_range(),
        ensures
            r == spec_intersection(*self, *other),
    {
        let a = EgRectangle::new(
            EgPoint::new(self.top_left.x, self.top_left.y),
            EgSize::new(self.size.width, self.size.height),
        );
        let b = EgRectangle::new(
            EgPoint::new(other.top_left.x, other.top_left.y),
            EgSize::new(other.size.width, other.size.height),
        );
        let r = a.intersection(&b);
        Rectangle { top_left: Point { x: r.top_left.x, y: r.top_left.y }, size: Size { width: r.size.width, height: r.size.height } }
    }
}

/// What `embedded-graphics` returns as the intersection of `a` and `b`: the
/// overlap of two non-empty rectangles; an empty rectangle when its top-left
/// corner lies inside the other, non-empty one; the zero rectangle otherwise.
pub open spec fn spec_intersection(a: Rectangle, b: Rectangle) -> Rectangle {
    if !a.spec_zero_sized() && !b.spec_zero_sized() {
        if a.top_left.x < b.right() && b.top_left.x < a.right() && a.top_left.y < b.bottom()
            && b.top_left.y < a.bottom() {
            let left = spec_max(a.top_left.x as int, b.top_left.x as int);
            let top = spec_max(a.top_left.y as int, b.top_left.y as int);
            let right = spec_min(a.right(), b.right());
            let bottom = spec_min(a.bottom(), b.bottom());
            Rectangle {
                top_left: Point { x: left as i32, y: top as i32 },
                size: Size { width: (right - left) as u32, height: (bottom - top) as u32 },
            }
        } else {
            zero_rect()
        }
    } else if a.spec_zero_sized() && !b.spec_zero_sized() {
        if b.spec_contains(a.top_left) {
            a
        } else {
            zero_rect()
        }
    } else if !a.spec_zero_sized() && b.spec_zero_sized() {
        if a.spec_contains(b.top_left) {
            b
        } else {
            zero_rect()
        }
    } else {
        zero_rect()
    }
}

/// The intersection holds exactly the points that both rectangles hold, and
/// it never reaches outside a non-empty `b`.
pub proof fn lemma_intersection_points(a: Rectangle, b: Rectangle, p: Point)
    requires
        a.in_range(),
        b.in_range(),
    ensures
        spec_intersection(a, b).spec_contains(p) <==> (a.spec_contains(p) && b.spec_contains(p)),
        spec_intersection(a, b).in_range(),
        !b.spec_zero_sized() && !spec_intersection(a, b).spec_zero_sized() ==> {
            let r = spec_intersection(a, b);
            &&& b.top_left.x <= r.top_left.x
            &&& b.top_left.y <= r.top_left.y
            &&& r.right() <= b.right()
            &&& r.bottom() <= b.bottom()
        },
{
}

/// A 16-bit RGB565 colour, stored as red in bits 15..11, green in bits 10..5
/// and blue in bits 4..0.
#[derive(Clone, Copy, Debug, PartialEq, Eq, Structural)]
pub struct Rgb565 {
    pub raw: u16,
}

impl Rgb565 {
    pub fn black() -> (c: Self)
        ensures
            c.raw == 0x0000,
    {
        Rgb565 { raw: 0x0000 }
    }

    pub fn white() -> (c: Self)
        ensures
            c.raw == 0xFFFF,
    {
        Rgb565 { raw: 0xFFFF }
    }

    pub fn cyan() -> (c: Self)
        ensures
            c.raw == 0x07FF,
    {
        Rgb565 { raw: 0x07FF }
    }

    pub fn yellow() -> (c: Self)
        ensures
            c.raw == 0xFFE0,
    {
        Rgb565 { raw: 0xFFE0 }
    }

    /// Builds a colour from 5-bit red, 6-bit green and 5-bit blue channels;
    /// channel bits above those widths are dropped.
    pub fn new(r: u8, g: u8, b: u8) -> (c: Self)
        ensures
            c.raw == ((((r & 0x1F) as u16) << 11u16) | (((g & 0x3F) as u16) << 5u16) | ((b
                & 0x1F) as u16)),
    {
        Rgb565 { raw: (((r & 0x1F) as u16) << 11u16) | (((g & 0x3F) as u16) << 5u16) | ((b & 0x1F) as u16) }
    }

    /// The raw big-endian-ordered storage value.
    pub fn into_storage(self) -> (r: u16)
        ensures
            r == self.raw,
    {
        self.raw
    }
}

} // verus!
