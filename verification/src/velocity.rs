//! The ball's velocity: a vector whose length is the ball's fixed speed.

use vstd::prelude::*;

verus! {

/// The ball's speed: 1200 pixels per second.
pub const BALL_MAGNITUDE: i64 = 1_200_000;

/// A vector over the integers: the model of [`Velocity`].
pub struct Vector {
    pub x: int,
    pub y: int,
}

impl Vector {
    /// The square of the vector's length.
    pub open spec fn norm_squared(self) -> int {
        self.x * self.x + self.y * self.y
    }

    /// The vector's length is the ball's speed to within one speed unit:
    /// integer components cannot do better, and a real vector of exactly that
    /// length, rounded to the nearest integers, always qualifies.
    pub open spec fn is_speed(self) -> bool {
        &&& -(BALL_MAGNITUDE + 1) <= self.x <= BALL_MAGNITUDE + 1
        &&& -(BALL_MAGNITUDE + 1) <= self.y <= BALL_MAGNITUDE + 1
        &&& (BALL_MAGNITUDE - 1) * (BALL_MAGNITUDE - 1) <= self.norm_squared()
        &&& self.norm_squared() <= (BALL_MAGNITUDE + 1) * (BALL_MAGNITUDE + 1)
    }

    /// The opposite vector.
    pub open spec fn reversed(self) -> Vector {
        Vector { x: -self.x, y: -self.y }
    }

    /// The vector with its vertical component negated.
    pub open spec fn bounced(self) -> Vector {
        Vector { x: self.x, y: -self.y }
    }

    /// The vector itself, or its opposite when `flip` is set.
    pub open spec fn oriented(self, flip: bool) -> Vector {
        if flip {
            self.reversed()
        } else {
            self
        }
    }

    /// Negating components changes no length.
    pub proof fn lemma_norm_of_negations(self)
        ensures
            self.reversed().norm_squared() == self.norm_squared(),
            self.bounced().norm_squared() == self.norm_squared(),
            self.is_speed() ==> self.reversed().is_speed() && self.bounced().is_speed(),
    {
        assert((-self.x) * (-self.x) == self.x * self.x) by (nonlinear_arith);
        assert((-self.y) * (-self.y) == self.y * self.y) by (nonlinear_arith);
    }
}

/// A velocity of the ball, in speed units. Every value has the ball's speed
/// (see [`Vector::is_speed`]).
#[derive(Clone, Copy, Debug)]
pub struct Velocity {
    x: i64,
    y: i64,
}

impl View for Velocity {
    type V = Vector;

    closed spec fn view(&self) -> Vector {
        Vector { x: self.x as int, y: self.y as int }
    }
}

impl Velocity {
    #[verifier::type_invariant]
    spec fn has_speed(self) -> bool {
        self@.is_speed()
    }

    /// The velocity with the given components, if they make up the ball's speed.
    pub fn new(x: i64, y: i64) -> (r: Option<Velocity>)
        ensures
            r is Some <==> (Vector { x: x as int, y: y as int }).is_speed(),
            r matches Some(v) ==> v@ == (Vector { x: x as int, y: y as int }),
    {
        if x < -(BALL_MAGNITUDE + 1) || x > BALL_MAGNITUDE + 1 || y < -(BALL_MAGNITUDE + 1) || y
            > BALL_MAGNITUDE + 1 {
            return None;
        }
        assert(0 <= x * x <= (BALL_MAGNITUDE + 1) * (BALL_MAGNITUDE + 1)) by (nonlinear_arith)
            requires
                -(BALL_MAGNITUDE + 1) <= x <= BALL_MAGNITUDE + 1,
        ;
        assert(0 <= y * y <= (BALL_MAGNITUDE + 1) * (BALL_MAGNITUDE + 1)) by (nonlinear_arith)
            requires
                -(BALL_MAGNITUDE + 1) <= y <= BALL_MAGNITUDE + 1,
        ;
        let norm_squared: i64 = x * x + y * y;
        if norm_squared < (BALL_MAGNITUDE - 1) * (BALL_MAGNITUDE - 1) || norm_squared > (
        BALL_MAGNITUDE + 1) * (BALL_MAGNITUDE + 1) {
            return None;
        }
        Some(Velocity { x, y })
    }

    /// The horizontal component; positive is rightward.
    pub fn x(&self) -> (r: i64)
        ensures
            r == self@.x,
            self@.is_speed(),
    {
        proof {
            use_type_invariant(self);
        }
        self.x
    }

    /// The vertical component; positive is downward.
    pub fn y(&self) -> (r: i64)
        ensures
            r == self@.y,
            self@.is_speed(),
    {
        proof {
            use_type_invariant(self);
        }
        self.y
    }

    /// The opposite velocity.
    pub fn reversed(&self) -> (r: Velocity)
        ensures
            r@ == self@.reversed(),
    {
        proof {
            use_type_invariant(self);
            self@.lemma_norm_of_negations();
        }
        Velocity { x: -self.x, y: -self.y }
    }

    /// The velocity after a bounce off a horizontal wall.
    pub fn bounced(&self) -> (r: Velocity)
        ensures
            r@ == self@.bounced(),
    {
        proof {
            use_type_invariant(self);
            self@.lemma_norm_of_negations();
        }
        Velocity { x: self.x, y: -self.y }
    }

    /// The velocity itself, or its opposite when `flip` is set.
    pub fn oriented(&self, flip: bool) -> (r: Velocity)
        ensures
            r@ == self@.oriented(flip),
    {
        if flip {
            self.reversed()
        } else {
            *self
        }
    }
}

} // verus!
