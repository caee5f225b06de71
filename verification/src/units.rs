//! Integer geometry in device pixels.

use vstd::prelude::*;

verus! {

/// A position in device pixels.
#[derive(Clone, Copy, Debug, PartialEq, Eq, Structural)]
pub struct DeviceIntPoint {
    pub x: i32,
    pub y: i32,
}

/// A size in device pixels.
#[derive(Clone, Copy, Debug, PartialEq, Eq, Structural)]
pub struct DeviceIntSize {
    pub width: i32,
    pub height: i32,
}

/// The pixels from `min` (inside) to `max` (outside).
#[derive(Clone, Copy, Debug, PartialEq, Eq, Structural)]
pub struct DeviceIntRect {
    pub min: DeviceIntPoint,
    pub max: DeviceIntPoint,
}

impl DeviceIntPoint {
    pub fn new(x: i32, y: i32) -> (r: Self)
        ensures
            r.x == x,
            r.y == y,
    {
        DeviceIntPoint { x, y }
    }
}

impl DeviceIntSize {
    pub fn new(width: i32, height: i32) -> (r: Self)
        ensures
            r.width == width,
            r.height == height,
    {
        DeviceIntSize { width, height }
    }

    /// True when one of the sides is not positive.
    pub open spec fn spec_is_empty(self) -> bool {
        self.width <= 0 || self.height <= 0
    }

    pub fn is_empty(&self) -> (r: bool)
        ensures
            r == self.spec_is_empty(),
    {
        self.width <= 0 || self.height <= 0
    }
}

impl DeviceIntRect {
    pub fn new(min: DeviceIntPoint, max: DeviceIntPoint) -> (r: Self)
        ensures
            r.min == min,
            r.max == max,
    {
        DeviceIntRect { min, max }
    }

    /// The rectangle of the given size at the origin.
    pub fn from_size(size: DeviceIntSize) -> (r: Self)
        ensures
            r == (DeviceIntRect {
                min: DeviceIntPoint { x: 0, y: 0 },
                max: DeviceIntPoint { x: size.width, y: size.height },
            }),
    {
        DeviceIntRect {
            min: DeviceIntPoint { x: 0, y: 0 },
            max: DeviceIntPoint { x: size.width, y: size.height },
        }
    }

    pub open spec fn spec_width(self) -> int {
        self.max.x - self.min.x
    }

    pub open spec fn spec_height(self) -> int {
        self.max.y - self.min.y
    }

    /// Both sides fit in an `i32`.
    pub open spec fn sized(self) -> bool {
        &&& i32::MIN <= self.spec_width() <= i32::MAX
        &&& i32::MIN <= self.spec_height() <= i32::MAX
    }

    /// The pixel `(x, y)` lies in the rectangle.
    pub open spec fn has(self, x: int, y: int) -> bool {
        self.min.x <= x < self.max.x && self.min.y <= y < self.max.y
    }

    /// True when the rectangle holds no pixel.
    pub open spec fn spec_is_empty(self) -> bool {
        !(self.max.x > self.min.x && self.max.y > self.min.y)
    }

    pub fn is_empty(&self) -> (r: bool)
        ensures
            r == self.spec_is_empty(),
    {
        !(self.max.x > self.min.x && self.max.y > self.min.y)
    }

    pub fn width(&self) -> (r: i32)
        requires
            self.sized(),
        ensures
            r == self.spec_width(),
    {
        self.max.x - self.min.x
    }

    pub fn height(&self) -> (r: i32)
        requires
            self.sized(),
        ensures
            r == self.spec_height(),
    {
        self.max.y - self.min.y
    }

    pub fn size(&self) -> (r: DeviceIntSize)
        requires
            self.sized(),
        ensures
            r.width == self.spec_width(),
            r.height == self.spec_height(),
    {
        DeviceIntSize { width: self.max.x - self.min.x, height: self.max.y - self.min.y }
    }

    /// The two rectangles overlap in their interiors.
    pub open spec fn spec_intersects(self, other: Self) -> bool {
        &&& self.min.x < other.max.x
        &&& self.max.x > other.min.x
        &&& self.min.y < other.max.y
        &&& self.max.y > other.min.y
    }

    pub fn intersects(&self, other: &Self) -> (r: bool)
        ensures
            r == self.spec_intersects(*other),
    {
        self.min.x < other.max.x && self.max.x > other.min.x && self.min.y < other.max.y
            && self.max.y > other.min.y
    }

    /// `other` is empty, or each of its sides lies between those of `self`.
    pub open spec fn spec_contains_box(self, other: Self) -> bool {
        ||| other.spec_is_empty()
        ||| (self.min.x <= other.min.x && other.max.x <= self.max.x && self.min.y <= other.min.y
            && other.max.y <= self.max.y)
    }

    pub fn contains_box(&self, other: &Self) -> (r: bool)
        ensures
            r == self.spec_contains_box(*other),
    {
        other.is_empty() || (self.min.x <= other.min.x && other.max.x <= self.max.x && self.min.y
            <= other.min.y && other.max.y <= self.max.y)
    }
}

/// Two rectangles that hold pixels overlap exactly when they share one.
pub proof fn intersects_means_shared_pixel(a: DeviceIntRect, b: DeviceIntRect)
    requires
        !a.spec_is_empty(),
        !b.spec_is_empty(),
    ensures
        a.spec_intersects(b) <==> exists|x: int, y: int| #[trigger] a.has(x, y) && b.has(x, y),
{
    if a.spec_intersects(b) {
        let x: int = if a.min.x > b.min.x { a.min.x as int } else { b.min.x as int };
        let y: int = if a.min.y > b.min.y { a.min.y as int } else { b.min.y as int };
        assert(a.has(x, y) && b.has(x, y));
    }
}

/// A rectangle in whole pixels of a picture's own space, wide enough for sums of
/// device coordinates.
#[derive(Clone, Copy, Debug, PartialEq, Eq, Structural)]
pub struct LayoutRect {
    pub x0: i64,
    pub y0: i64,
    pub x1: i64,
    pub y1: i64,
}

/// The greatest coordinate that takes part in picture arithmetic.
pub const MAX_LAYOUT_COORD: i64 = 0x1000_0000;

impl LayoutRect {
    /// The rectangle without extent at the origin.
    pub open spec fn spec_zero() -> Self {
        LayoutRect { x0: 0, y0: 0, x1: 0, y1: 0 }
    }

    #[verifier::when_used_as_spec(spec_zero)]
    pub fn zero() -> (r: Self)
        ensures
            r == Self::spec_zero(),
    {
        LayoutRect { x0: 0, y0: 0, x1: 0, y1: 0 }
    }

    /// Every coordinate lies within `limit` of the origin.
    pub open spec fn within(self, limit: int) -> bool {
        &&& -limit <= self.x0 <= limit
        &&& -limit <= self.y0 <= limit
        &&& -limit <= self.x1 <= limit
        &&& -limit <= self.y1 <= limit
    }

    pub open spec fn spec_is_empty(self) -> bool {
        !(self.x1 > self.x0 && self.y1 > self.y0)
    }

    pub fn is_empty(&self) -> (r: bool)
        ensures
            r == self.spec_is_empty(),
    {
        !(self.x1 > self.x0 && self.y1 > self.y0)
    }

    /// The smallest rectangle around both; an empty one adds nothing.
    pub open spec fn spec_union(self, other: Self) -> Self {
        if other.spec_is_empty() {
            self
        } else if self.spec_is_empty() {
            other
        } else {
            LayoutRect {
                x0: if self.x0 < other.x0 { self.x0 } else { other.x0 },
                y0: if self.y0 < other.y0 { self.y0 } else { other.y0 },
                x1: if self.x1 > other.x1 { self.x1 } else { other.x1 },
                y1: if self.y1 > other.y1 { self.y1 } else { other.y1 },
            }
        }
    }

    pub fn union(&self, other: &Self) -> (r: Self)
        ensures
            r == self.spec_union(*other),
    {
        if other.is_empty() {
            *self
        } else if self.is_empty() {
            *other
        } else {
            LayoutRect {
                x0: if self.x0 < other.x0 { self.x0 } else { other.x0 },
                y0: if self.y0 < other.y0 { self.y0 } else { other.y0 },
                x1: if self.x1 > other.x1 { self.x1 } else { other.x1 },
                y1: if self.y1 > other.y1 { self.y1 } else { other.y1 },
            }
        }
    }

    /// The common part, or the zero rectangle where there is none.
    pub open spec fn spec_common(self, other: Self) -> Self {
        let r = LayoutRect {
            x0: if self.x0 > other.x0 { self.x0 } else { other.x0 },
            y0: if self.y0 > other.y0 { self.y0 } else { other.y0 },
            x1: if self.x1 < other.x1 { self.x1 } else { other.x1 },
            y1: if self.y1 < other.y1 { self.y1 } else { other.y1 },
        };
        if r.spec_is_empty() {
            Self::spec_zero()
        } else {
            r
        }
    }

    pub fn common(&self, other: &Self) -> (r: Self)
        ensures
            r == self.spec_common(*other),
    {
        let r = LayoutRect {
            x0: if self.x0 > other.x0 { self.x0 } else { other.x0 },
            y0: if self.y0 > other.y0 { self.y0 } else { other.y0 },
            x1: if self.x1 < other.x1 { self.x1 } else { other.x1 },
            y1: if self.y1 < other.y1 { self.y1 } else { other.y1 },
        };
        if r.is_empty() {
            Self::zero()
        } else {
            r
        }
    }

    /// The rectangle with each side moved by its own amount.
    pub open spec fn spec_moved(self, x0: int, y0: int, x1: int, y1: int) -> Self {
        LayoutRect {
            x0: (self.x0 + x0) as i64,
            y0: (self.y0 + y0) as i64,
            x1: (self.x1 + x1) as i64,
            y1: (self.y1 + y1) as i64,
        }
    }

    pub fn moved(&self, x0: i64, y0: i64, x1: i64, y1: i64) -> (r: Self)
        requires
            self.within(0x1000_0000_0000),
            -0x1000_0000_0000 <= x0 <= 0x1000_0000_0000,
            -0x1000_0000_0000 <= y0 <= 0x1000_0000_0000,
            -0x1000_0000_0000 <= x1 <= 0x1000_0000_0000,
            -0x1000_0000_0000 <= y1 <= 0x1000_0000_0000,
        ensures
            r == self.spec_moved(x0 as int, y0 as int, x1 as int, y1 as int),
    {
        LayoutRect { x0: self.x0 + x0, y0: self.y0 + y0, x1: self.x1 + x1, y1: self.y1 + y1 }
    }
}

} // verus!
