//! The paddles.

use vstd::prelude::*;
use crate::court::{SCREEN_HEIGHT, SCREEN_WIDTH, SLIDER_HEIGHT, SLIDER_WIDTH, X_MARGIN, Side};
use crate::geometry::{Area, Point, Rect};
use crate::units::clamp;

verus! {

/// The lowest position of a paddle's top edge: `SCREEN_HEIGHT - SLIDER_HEIGHT`.
pub const PADDLE_MAX_Y: i64 = 570_000_000_000;

/// A paddle as the rules see it: the side it defends, the height of its top
/// edge and its score. Its horizontal position and its bounds follow from these.
pub struct PlayerView {
    pub side: Side,
    pub y: int,
    pub score: int,
}

impl PlayerView {
    /// The paddle lies wholly on the screen and its score is a count.
    pub open spec fn valid(self) -> bool {
        &&& 0 <= self.y <= SCREEN_HEIGHT - SLIDER_HEIGHT
        &&& 0 <= self.score
    }

    /// The left edge: one margin in from the screen edge that the paddle defends.
    pub open spec fn x(self) -> int {
        match self.side {
            Side::Left => X_MARGIN as int,
            Side::Right => SCREEN_WIDTH - X_MARGIN - SLIDER_WIDTH,
        }
    }

    /// The bounding rectangle, derived from the position and the fixed size.
    pub open spec fn bounds(self) -> Area {
        Area { x: self.x(), y: self.y, w: SLIDER_WIDTH as int, h: SLIDER_HEIGHT as int }
    }

    /// The paddle moved vertically by `delta` and held on the screen.
    pub open spec fn moved(self, delta: int) -> PlayerView {
        PlayerView { y: clamp(self.y + delta, 0, SCREEN_HEIGHT - SLIDER_HEIGHT), ..self }
    }

    /// The paddle after the moves `deltas`, made first to last.
    pub open spec fn moved_all(self, deltas: Seq<int>) -> PlayerView
        decreases deltas.len(),
    {
        if deltas.len() == 0 {
            self
        } else {
            self.moved(deltas.first()).moved_all(deltas.drop_first())
        }
    }

    /// The paddle with one more point.
    pub open spec fn scored(self) -> PlayerView {
        PlayerView { score: self.score + 1, ..self }
    }

    /// Whatever the moves, a paddle that is on the screen stays on it: its top
    /// edge never leaves `0 ..= SCREEN_HEIGHT - SLIDER_HEIGHT`, even where a
    /// single move would overshoot. Moves change neither side nor score.
    pub proof fn lemma_moves_stay_on_screen(self, deltas: Seq<int>)
        requires
            self.valid(),
        ensures
            self.moved_all(deltas).valid(),
            0 <= self.moved_all(deltas).y <= SCREEN_HEIGHT - SLIDER_HEIGHT,
            self.moved_all(deltas).side == self.side,
            self.moved_all(deltas).score == self.score,
        decreases deltas.len(),
    {
        if deltas.len() > 0 {
            self.moved(deltas.first()).lemma_moves_stay_on_screen(deltas.drop_first());
        }
    }
}

/// A paddle. Its top edge is always within `0 ..= PADDLE_MAX_Y` and its score
/// is never negative.
#[derive(Clone, Copy, Debug)]
pub struct Player {
    y: i64,
    score: i32,
    side: Side,
}

impl View for Player {
    type V = PlayerView;

    closed spec fn view(&self) -> PlayerView {
        PlayerView { side: self.side, y: self.y as int, score: self.score as int }
    }
}

impl Player {
    #[verifier::type_invariant]
    spec fn on_screen(self) -> bool {
        self@.valid()
    }

    /// A paddle on the given side, vertically centred, with no points.
    pub fn new(side: Side) -> (r: Player)
        ensures
            r@ == (PlayerView { side, y: (SCREEN_HEIGHT - SLIDER_HEIGHT) / 2, score: 0 }),
    {
        Player { y: (SCREEN_HEIGHT - SLIDER_HEIGHT) / 2, score: 0, side }
    }

    /// Moves the paddle vertically by `y_delta`, stopping at the screen's edges.
    pub fn move_y(&mut self, y_delta: i64)
        ensures
            final(self)@ == old(self)@.moved(y_delta as int),
            old(self)@.valid(),
            final(self)@.valid(),
    {
        proof {
            use_type_invariant(&*self);
        }
        let y: i64 = self.y;
        let new_y: i64 = if y_delta <= -y {
            0
        } else if y_delta >= PADDLE_MAX_Y - y {
            PADDLE_MAX_Y
        } else {
            y + y_delta
        };
        self.y = new_y;
    }

    /// Gives the paddle one more point.
    pub fn add_point(&mut self)
        requires
            old(self)@.score < i32::MAX,
        ensures
            final(self)@ == old(self)@.scored(),
    {
        proof {
            use_type_invariant(&*self);
        }
        self.score = self.score + 1;
    }

    /// The side that the paddle defends.
    pub fn side(&self) -> (r: Side)
        ensures
            r == self@.side,
    {
        self.side
    }

    /// The score.
    pub fn score(&self) -> (r: i32)
        ensures
            r == self@.score,
            self@.valid(),
    {
        proof {
            use_type_invariant(self);
        }
        self.score
    }

    /// The top-left corner.
    pub fn pos(&self) -> (r: Point)
        ensures
            r.x == self@.x(),
            r.y == self@.y,
            self@.valid(),
    {
        proof {
            use_type_invariant(self);
        }
        let x: i64 = match self.side {
            Side::Left => X_MARGIN,
            Side::Right => SCREEN_WIDTH - X_MARGIN - SLIDER_WIDTH,
        };
        Point { x, y: self.y }
    }

    /// The bounding rectangle.
    pub fn bounds(&self) -> (r: Rect)
        ensures
            r@ == self@.bounds(),
            self@.valid(),
    {
        let pos = self.pos();
        Rect { x: pos.x, y: pos.y, w: SLIDER_WIDTH, h: SLIDER_HEIGHT }
    }
}

} // verus!
