//! Exact layout geometry: rational coordinates, points, sizes, rectangles,
//! and the builder that makes a rectangle from integer corners.

use vstd::prelude::*;

verus! {

/// The mathematical value of a coordinate: the rational number `num / den`.
pub ghost struct Ratio {
    pub num: int,
    pub den: int,
}

impl Ratio {
    /// The integer `n` as a rational.
    pub open spec fn from_int(n: int) -> Ratio {
        Ratio { num: n, den: 1 }
    }

    /// The sum of two rationals, not reduced.
    pub open spec fn plus(self, other: Ratio) -> Ratio {
        Ratio { num: self.num * other.den + other.num * self.den, den: self.den * other.den }
    }

    /// The difference of two rationals, not reduced.
    pub open spec fn minus(self, other: Ratio) -> Ratio {
        Ratio { num: self.num * other.den - other.num * self.den, den: self.den * other.den }
    }

    /// The rational multiplied by the integer `k`.
    pub open spec fn times_int(self, k: int) -> Ratio {
        Ratio { num: self.num * k, den: self.den }
    }

    /// The rational divided by the integer `k`.
    pub open spec fn over_int(self, k: int) -> Ratio {
        Ratio { num: self.num, den: self.den * k }
    }
}

/// The mathematical value of a rectangle: origin and size on both axes.
pub ghost struct RectModel {
    pub x: Ratio,
    pub y: Ratio,
    pub width: Ratio,
    pub height: Ratio,
}

impl RectModel {
    /// The rectangle with integer origin `(x, y)` and integer size `(w, h)`.
    pub open spec fn from_ints(x: int, y: int, w: int, h: int) -> RectModel {
        RectModel {
            x: Ratio::from_int(x),
            y: Ratio::from_int(y),
            width: Ratio::from_int(w),
            height: Ratio::from_int(h),
        }
    }
}

/// One coordinate in layout units, held exactly as `num / den`.
#[derive(Clone, Copy, Debug, PartialEq, Eq, Structural)]
pub struct Scalar {
    pub num: i128,
    pub den: i128,
}

impl View for Scalar {
    type V = Ratio;

    open spec fn view(&self) -> Ratio {
        Ratio { num: self.num as int, den: self.den as int }
    }
}

impl Scalar {
    /// A scalar stands for a number when its denominator is positive.
    pub open spec fn wf(self) -> bool {
        self.den >= 1
    }

    /// The whole number `n`.
    pub fn from_int(n: i64) -> (s: Scalar)
        ensures
            s@ == Ratio::from_int(n as int),
            s.wf(),
    {
        Scalar { num: n as i128, den: 1 }
    }
}

/// A point in layout space.
#[derive(Clone, Copy, Debug, PartialEq, Eq, Structural)]
pub struct LayoutPoint {
    pub x: Scalar,
    pub y: Scalar,
}

/// A width and a height in layout units; either may be zero or negative.
#[derive(Clone, Copy, Debug, PartialEq, Eq, Structural)]
pub struct LayoutSize {
    pub width: Scalar,
    pub height: Scalar,
}

/// An axis-aligned rectangle: an origin and a size.
#[derive(Clone, Copy, Debug, PartialEq, Eq, Structural)]
pub struct LayoutRect {
    pub origin: LayoutPoint,
    pub size: LayoutSize,
}

impl View for LayoutRect {
    type V = RectModel;

    open spec fn view(&self) -> RectModel {
        RectModel {
            x: self.origin.x@,
            y: self.origin.y@,
            width: self.size.width@,
            height: self.size.height@,
        }
    }
}

impl LayoutRect {
    /// Every coordinate of the rectangle stands for a number.
    pub open spec fn wf(self) -> bool {
        self.origin.x.wf() && self.origin.y.wf() && self.size.width.wf() && self.size.height.wf()
    }

    /// The rectangle with the given origin and size.
    pub fn new(origin: LayoutPoint, size: LayoutSize) -> (r: LayoutRect)
        ensures
            r.origin == origin,
            r.size == size,
    {
        LayoutRect { origin, size }
    }

    /// The rectangle with whole-number origin `(x, y)` and size `(w, h)`.
    pub fn from_ints(x: i64, y: i64, w: i64, h: i64) -> (r: LayoutRect)
        ensures
            r@ == RectModel::from_ints(x as int, y as int, w as int, h as int),
            r.wf(),
    {
        LayoutRect {
            origin: LayoutPoint { x: Scalar::from_int(x), y: Scalar::from_int(y) },
            size: LayoutSize { width: Scalar::from_int(w), height: Scalar::from_int(h) },
        }
    }
}

/// Builds rectangles from a corner: `(x, y).to(x2, y2)` spans to the far
/// corner, `(x, y).by(w, h)` takes a size. Sizes are not checked: a far corner
/// left of or above the near one gives a negative size.
pub trait HandyDandyRectBuilder {
    /// The near corner that the value stands for.
    spec fn corner(&self) -> (int, int);

    /// The rectangle from the corner to the far corner `(x2, y2)`.
    fn to(&self, x2: i32, y2: i32) -> (r: LayoutRect)
        ensures
            r@ == RectModel::from_ints(
                self.corner().0,
                self.corner().1,
                x2 - self.corner().0,
                y2 - self.corner().1,
            ),
            r.wf(),
    ;

    /// The rectangle at the corner with size `(w, h)`.
    fn by(&self, w: i32, h: i32) -> (r: LayoutRect)
        ensures
            r@ == RectModel::from_ints(self.corner().0, self.corner().1, w as int, h as int),
            r.wf(),
    ;
}

impl HandyDandyRectBuilder for (i32, i32) {
    open spec fn corner(&self) -> (int, int) {
        (self.0 as int, self.1 as int)
    }

    fn to(&self, x2: i32, y2: i32) -> (r: LayoutRect) {
        LayoutRect::from_ints(
            self.0 as i64,
            self.1 as i64,
            x2 as i64 - self.0 as i64,
            y2 as i64 - self.1 as i64,
        )
    }

    fn by(&self, w: i32, h: i32) -> (r: LayoutRect) {
        LayoutRect::from_ints(self.0 as i64, self.1 as i64, w as i64, h as i64)
    }
}

} // verus!
