//! Points and axis-aligned rectangles.

use vstd::prelude::*;

verus! {

/// A point over the integers: the model of [`Point`].
pub struct Spot {
    pub x: int,
    pub y: int,
}

/// A point of the screen; `y` grows downward.
#[derive(Clone, Copy, Debug, PartialEq, Eq, Structural)]
pub struct Point {
    pub x: i64,
    pub y: i64,
}

impl View for Point {
    type V = Spot;

    open spec fn view(&self) -> Spot {
        Spot { x: self.x as int, y: self.y as int }
    }
}

/// An axis-aligned rectangle over the integers: the model of [`Rect`].
pub struct Area {
    pub x: int,
    pub y: int,
    pub w: int,
    pub h: int,
}

impl Area {
    pub open spec fn left(self) -> int {
        self.x
    }

    pub open spec fn right(self) -> int {
        self.x + self.w
    }

    pub open spec fn top(self) -> int {
        self.y
    }

    pub open spec fn bottom(self) -> int {
        self.y + self.h
    }

    /// The two rectangles share interior: on both axes each begins strictly
    /// before the other ends. Rectangles that only touch do not overlap.
    pub open spec fn overlaps(self, other: Area) -> bool {
        &&& self.left() < other.right()
        &&& self.right() > other.left()
        &&& self.top() < other.bottom()
        &&& self.bottom() > other.top()
    }
}

/// An axis-aligned rectangle given by its top-left corner and its size.
#[derive(Clone, Copy, Debug, PartialEq, Eq, Structural)]
pub struct Rect {
    pub x: i64,
    pub y: i64,
    pub w: i64,
    pub h: i64,
}

impl View for Rect {
    type V = Area;

    open spec fn view(&self) -> Area {
        Area { x: self.x as int, y: self.y as int, w: self.w as int, h: self.h as int }
    }
}

impl Rect {
    pub fn new(x: i64, y: i64, w: i64, h: i64) -> (r: Rect)
        ensures
            r == (Rect { x, y, w, h }),
    {
        Rect { x, y, w, h }
    }

    /// Whether the two rectangles overlap. Sums are taken in a wider type, so
    /// the answer is right for every rectangle.
    pub fn overlaps(&self, other: &Rect) -> (r: bool)
        ensures
            r == self@.overlaps(other@),
    {
        let self_right: i128 = self.x as i128 + self.w as i128;
        let self_bottom: i128 = self.y as i128 + self.h as i128;
        let other_right: i128 = other.x as i128 + other.w as i128;
        let other_bottom: i128 = other.y as i128 + other.h as i128;
        (self.x as i128) < other_right && self_right > other.x as i128 && (self.y as i128)
            < other_bottom && self_bottom > other.y as i128
    }
}

} // verus!
