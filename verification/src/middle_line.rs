//! The divider down the middle of the field.

use vstd::prelude::*;
use crate::court::{SCREEN_HEIGHT, SCREEN_WIDTH};
use crate::geometry::{Point, Rect};

verus! {

/// Width of the divider: 5 pixels.
pub const LINE_WIDTH: i64 = 5_000_000_000;

/// Left edge of the divider: `(SCREEN_WIDTH - LINE_WIDTH) / 2`.
pub const LINE_X: i64 = 637_500_000_000;

/// The divider: a bar as high as the screen, centred horizontally.
#[derive(Clone, Copy, Debug, PartialEq, Eq, Structural)]
pub struct MiddleLine {
    /// The bar's shape, with its top-left corner at the origin.
    pub rect: Rect,
    /// Where the bar's top-left corner stands on the screen.
    pub pos: Point,
}

impl MiddleLine {
    /// The divider: `LINE_WIDTH` wide, as high as the screen, at the top, with
    /// its left edge at `LINE_X`.
    pub open spec fn layout() -> MiddleLine {
        MiddleLine {
            rect: Rect { x: 0, y: 0, w: LINE_WIDTH, h: SCREEN_HEIGHT },
            pos: Point { x: LINE_X, y: 0 },
        }
    }

    /// The divider. It leaves as much of the screen to its left as to its right.
    pub fn new() -> (r: MiddleLine)
        ensures
            r == MiddleLine::layout(),
            r.pos.x == (SCREEN_WIDTH - LINE_WIDTH) / 2,
            r.pos.x + r.rect.w == SCREEN_WIDTH - r.pos.x,
    {
        MiddleLine {
            rect: Rect { x: 0, y: 0, w: LINE_WIDTH, h: SCREEN_HEIGHT },
            pos: Point { x: (SCREEN_WIDTH - LINE_WIDTH) / 2, y: 0 },
        }
    }
}

} // verus!
