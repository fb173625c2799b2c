//! The playing field: its size, the paddles' size and where they stand.

use vstd::prelude::*;

verus! {

/// Height of the screen: 720 pixels.
pub const SCREEN_HEIGHT: i64 = 720_000_000_000;

/// Width of the screen: 1280 pixels.
pub const SCREEN_WIDTH: i64 = 1_280_000_000_000;

/// Height of a paddle: 150 pixels.
pub const SLIDER_HEIGHT: i64 = 150_000_000_000;

/// Width of a paddle: 20 pixels.
pub const SLIDER_WIDTH: i64 = 20_000_000_000;

/// Gap between a paddle and the screen edge behind it: 20 pixels.
pub const X_MARGIN: i64 = 20_000_000_000;

/// The side of the field a paddle defends.
#[derive(Clone, Copy, Debug, PartialEq, Eq, Structural)]
pub enum Side {
    Left,
    Right,
}

} // verus!
