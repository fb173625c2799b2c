//! The game: both paddles, the ball, the keys held down and the score text,
//! brought forward one frame at a time.

use vstd::prelude::*;
use crate::ball::{Ball, BallView, CollisionResult, BALL_SIZE, SCORE_PAUSE, SERVE_DELAY};
use crate::court::{SCREEN_HEIGHT, SCREEN_WIDTH, SLIDER_HEIGHT, Side};
use crate::middle_line::MiddleLine;
use crate::player::{Player, PlayerView};
use crate::scores_display::{ScoresDisplay, ScoresView};
use crate::units::SECOND;
use crate::velocity::{Vector, Velocity};

verus! {

/// The speed of a paddle while its key is held: 1200 pixels per second.
pub const PADDLE_SPEED: i64 = 1_200_000;

/// A key of the keyboard, as far as the game tells keys apart.
#[derive(Clone, Copy, Debug, PartialEq, Eq, Structural)]
pub enum Key {
    /// Moves the left paddle up.
    W,
    /// Moves the left paddle down.
    S,
    /// Moves the right paddle up.
    Up,
    /// Moves the right paddle down.
    Down,
    /// Any other key.
    Other,
}

/// Which of the four keys are held down.
#[derive(Clone, Copy, Debug, PartialEq, Eq, Structural)]
pub struct ButtonState {
    pub w_pressed: bool,
    pub s_pressed: bool,
    pub up_pressed: bool,
    pub down_pressed: bool,
}

impl ButtonState {
    /// The state with the flag of `key` set to `held`; other keys have no flag.
    pub open spec fn with(self, key: Key, held: bool) -> ButtonState {
        match key {
            Key::W => ButtonState { w_pressed: held, ..self },
            Key::S => ButtonState { s_pressed: held, ..self },
            Key::Up => ButtonState { up_pressed: held, ..self },
            Key::Down => ButtonState { down_pressed: held, ..self },
            Key::Other => self,
        }
    }

    /// The state after a key went down. A repeated event and an event
    /// without a key change nothing.
    pub open spec fn after_key_down(self, keycode: Option<Key>, repeated: bool) -> ButtonState {
        match keycode {
            Some(key) if !repeated => self.with(key, true),
            _ => self,
        }
    }

    /// The state after a key went up. An event without a key changes nothing.
    pub open spec fn after_key_up(self, keycode: Option<Key>) -> ButtonState {
        match keycode {
            Some(key) => self.with(key, false),
            None => self,
        }
    }

    /// Sets the flag of `key` to `held`.
    pub fn set(&mut self, key: Key, held: bool)
        ensures
            *final(self) == old(self).with(key, held),
    {
        match key {
            Key::W => {
                self.w_pressed = held;
            },
            Key::S => {
                self.s_pressed = held;
            },
            Key::Up => {
                self.up_pressed = held;
            },
            Key::Down => {
                self.down_pressed = held;
            },
            Key::Other => (),
        }
    }
}

impl Default for ButtonState {
    /// No key is held.
    fn default() -> (r: ButtonState)
        ensures
            r == (ButtonState {
                w_pressed: false,
                s_pressed: false,
                up_pressed: false,
                down_pressed: false,
            }),
    {
        ButtonState { w_pressed: false, s_pressed: false, up_pressed: false, down_pressed: false }
    }
}

/// A sound to be played.
#[derive(Clone, Copy, Debug, PartialEq, Eq, Structural)]
pub enum Sound {
    /// The ball hit the left paddle.
    ClickHigh,
    /// The ball hit the right paddle.
    ClickLow,
    /// A player scored.
    Score,
}

/// The sound that goes with what an update ran into: one for each paddle, one
/// for a point, none for a wall and none where nothing happened.
pub open spec fn sound_spec(result: CollisionResult) -> Option<Sound> {
    match result {
        CollisionResult::PlayerScores => Some(Sound::Score),
        CollisionResult::CollideSlider(Side::Left) => Some(Sound::ClickHigh),
        CollisionResult::CollideSlider(Side::Right) => Some(Sound::ClickLow),
        CollisionResult::CollideTopBottom => None,
        CollisionResult::NoEvent => None,
    }
}

/// The sound that goes with what an update ran into.
pub fn sound_for(result: CollisionResult) -> (r: Option<Sound>)
    ensures
        r == sound_spec(result),
{
    match result {
        CollisionResult::PlayerScores => Some(Sound::Score),
        CollisionResult::CollideSlider(side) => match side {
            Side::Left => Some(Sound::ClickHigh),
            Side::Right => Some(Sound::ClickLow),
        },
        CollisionResult::CollideTopBottom => None,
        CollisionResult::NoEvent => None,
    }
}

/// The paddle after a frame of `dt`: moved up by speed times elapsed time if
/// its up key is held, else down by as much if its down key is held, else
/// where it was.
pub open spec fn steered(player: PlayerView, up: bool, down: bool, dt: int) -> PlayerView {
    if up {
        player.moved(-(PADDLE_SPEED * dt))
    } else if down {
        player.moved(PADDLE_SPEED * dt)
    } else {
        player
    }
}

/// The game as the rules see it.
pub struct GameView {
    pub left: PlayerView,
    pub right: PlayerView,
    pub ball: BallView,
    pub keys: ButtonState,
}

impl GameView {
    /// The left paddle after the keys have acted for `dt`.
    pub open spec fn left_steered(self, dt: int) -> PlayerView {
        steered(self.left, self.keys.w_pressed, self.keys.s_pressed, dt)
    }

    /// The right paddle after the keys have acted for `dt`.
    pub open spec fn right_steered(self, dt: int) -> PlayerView {
        steered(self.right, self.keys.up_pressed, self.keys.down_pressed, dt)
    }

    /// One frame at time `now`, after `dt` has elapsed: first the paddles
    /// move as the keys say, then the ball is updated against them.
    pub open spec fn updated(self, now: int, dt: int, serve: Vector) -> (GameView, CollisionResult) {
        let step = self.ball.updated(
            self.left_steered(dt),
            self.right_steered(dt),
            now,
            dt,
            serve,
        );
        (GameView { left: step.left, right: step.right, ball: step.ball, keys: self.keys }, step.result)
    }

    /// A frame can be carried out on machine integers
    /// (see [`BallView::can_update`]).
    pub open spec fn can_update(self, now: int, dt: int) -> bool {
        self.ball.can_update(self.left_steered(dt), self.right_steered(dt), now, dt)
    }

    /// Through every frame both paddles stay on the screen, whatever keys are
    /// held and however long the frame lasts, and no score goes down.
    pub proof fn lemma_frame_keeps_paddles_on_screen(self, now: int, dt: int, serve: Vector)
        requires
            self.left.valid(),
            self.right.valid(),
        ensures
            self.updated(now, dt, serve).0.left.valid(),
            self.updated(now, dt, serve).0.right.valid(),
            0 <= self.updated(now, dt, serve).0.left.y <= SCREEN_HEIGHT - SLIDER_HEIGHT,
            0 <= self.updated(now, dt, serve).0.right.y <= SCREEN_HEIGHT - SLIDER_HEIGHT,
            self.updated(now, dt, serve).0.left.score >= self.left.score,
            self.updated(now, dt, serve).0.right.score >= self.right.score,
            self.updated(now, dt, serve).0.keys == self.keys,
    {
    }

    /// A frame that ends in a point leaves the ball in the middle of the
    /// screen, at rest for `SCORE_PAUSE`, with exactly one point more on the
    /// board; no other frame changes a score.
    pub proof fn lemma_frame_counts_points(self, now: int, dt: int, serve: Vector)
        ensures
            self.updated(now, dt, serve).1 == CollisionResult::PlayerScores ==> {
                &&& self.updated(now, dt, serve).0.ball.x == (SCREEN_WIDTH - BALL_SIZE) / 2
                &&& self.updated(now, dt, serve).0.ball.y == (SCREEN_HEIGHT - BALL_SIZE) / 2
                &&& self.updated(now, dt, serve).0.ball.paused_until == now + SCORE_PAUSE
                &&& self.updated(now, dt, serve).0.left.score + self.updated(
                    now,
                    dt,
                    serve,
                ).0.right.score == self.left.score + self.right.score + 1
            },
            self.updated(now, dt, serve).1 != CollisionResult::PlayerScores ==> {
                &&& self.updated(now, dt, serve).0.left.score == self.left.score
                &&& self.updated(now, dt, serve).0.right.score == self.right.score
            },
    {
    }
}

/// The distance a paddle travels in `dt`, or in one second if `dt` is longer.
fn paddle_step(dt: u64) -> (r: i64)
    ensures
        dt <= SECOND ==> r == PADDLE_SPEED * dt,
        dt > SECOND ==> r == PADDLE_SPEED * SECOND,
{
    if dt <= SECOND {
        PADDLE_SPEED * (dt as i64)
    } else {
        PADDLE_SPEED * (SECOND as i64)
    }
}

/// Moves a paddle as its keys say, for a frame of `dt`.
fn steer(player: &mut Player, up: bool, down: bool, dt: u64)
    ensures
        final(player)@ == steered(old(player)@, up, down, dt as int),
{
    let step = paddle_step(dt);
    if up {
        player.move_y(-step);
    } else if down {
        player.move_y(step);
    }
}

/// The whole state of a game.
#[derive(Debug)]
pub struct PongState {
    players: (Player, Player),
    ball: Ball,
    middle_line: MiddleLine,
    button_state: ButtonState,
    scores_display: ScoresDisplay,
}

impl View for PongState {
    type V = GameView;

    closed spec fn view(&self) -> GameView {
        GameView {
            left: self.players.0@,
            right: self.players.1@,
            ball: self.ball@,
            keys: self.button_state,
        }
    }
}

impl PongState {
    /// The score text shows the two players' scores, and the divider stands
    /// in the middle.
    pub closed spec fn wf(&self) -> bool {
        &&& self.scores_display@ == ScoresView::of(self.players.0@.score, self.players.1@.score)
        &&& self.middle_line == MiddleLine::layout()
    }

    /// A new game at time `now`: both paddles centred on their sides with no
    /// points, no key held, and the ball in the middle, to be served after
    /// the serve delay along `candidate` or against it, as a coin decides.
    pub fn new(now: u64, candidate: Velocity) -> (r: PongState)
        requires
            now + SERVE_DELAY <= u64::MAX,
        ensures
            r.wf(),
            r@.left == (PlayerView {
                side: Side::Left,
                y: (SCREEN_HEIGHT - SLIDER_HEIGHT) / 2,
                score: 0,
            }),
            r@.right == (PlayerView {
                side: Side::Right,
                y: (SCREEN_HEIGHT - SLIDER_HEIGHT) / 2,
                score: 0,
            }),
            r@.keys == (ButtonState {
                w_pressed: false,
                s_pressed: false,
                up_pressed: false,
                down_pressed: false,
            }),
            r@.ball.x == (SCREEN_WIDTH - BALL_SIZE) / 2,
            r@.ball.y == (SCREEN_HEIGHT - BALL_SIZE) / 2,
            r@.ball.vel == candidate@ || r@.ball.vel == candidate@.reversed(),
            r@.ball.paused_until == now + SERVE_DELAY,
            r@.ball.deflection is None,
    {
        let players = (Player::new(Side::Left), Player::new(Side::Right));
        let scores_display = ScoresDisplay::new(&players);
        PongState {
            players,
            button_state: ButtonState::default(),
            scores_display,
            ball: Ball::new(now, candidate),
            middle_line: MiddleLine::new(),
        }
    }

    /// Whether [`PongState::update`] can be called at time `now` with the
    /// elapsed time `dt`.
    pub fn can_update(&self, now: u64, dt: u64) -> (r: bool)
        ensures
            r == self@.can_update(now as int, dt as int),
    {
        let mut players = self.players;
        steer(&mut players.0, self.button_state.w_pressed, self.button_state.s_pressed, dt);
        steer(&mut players.1, self.button_state.up_pressed, self.button_state.down_pressed, dt);
        self.ball.can_update(now, dt, &players)
    }

    /// One frame at time `now`, after `dt` has elapsed
    /// (see [`GameView::updated`]). After a point the score text is brought up
    /// to date. A new serve goes along `candidate` or against it, as a coin
    /// decides.
    pub fn update(&mut self, now: u64, dt: u64, candidate: Velocity) -> (r: CollisionResult)
        requires
            old(self).wf(),
            old(self)@.can_update(now as int, dt as int),
        ensures
            final(self).wf(),
            (final(self)@, r) == old(self)@.updated(now as int, dt as int, candidate@) || (
            final(self)@,
            r,
        ) == old(self)@.updated(now as int, dt as int, candidate@.reversed()),
    {
        steer(&mut self.players.0, self.button_state.w_pressed, self.button_state.s_pressed, dt);
        steer(&mut self.players.1, self.button_state.up_pressed, self.button_state.down_pressed, dt);
        let r = self.ball.update(now, dt, &mut self.players, candidate);
        match r {
            CollisionResult::PlayerScores => {
                self.scores_display.update_score(&self.players);
            },
            _ => {},
        }
        r
    }

    /// Gives the ball the velocity `dir` with which it leaves the paddle it
    /// has hit (see [`Ball::deflect`]).
    pub fn deflect(&mut self, dir: Velocity) -> (r: bool)
        ensures
            r == (old(self)@.ball.deflection is Some),
            final(self)@ == (GameView { ball: old(self)@.ball.deflected(dir@), ..old(self)@ }),
            final(self).wf() == old(self).wf(),
    {
        self.ball.deflect(dir)
    }

    /// A key went down: its flag is set, unless the event is a repeat.
    pub fn key_down_event(&mut self, keycode: Option<Key>, repeated: bool)
        ensures
            final(self)@ == (GameView {
                keys: old(self)@.keys.after_key_down(keycode, repeated),
                ..old(self)@
            }),
            final(self).wf() == old(self).wf(),
    {
        if repeated {
            return ;
        }
        if let Some(key) = keycode {
            self.button_state.set(key, true);
        }
    }

    /// A key went up: its flag is cleared.
    pub fn key_up_event(&mut self, keycode: Option<Key>)
        ensures
            final(self)@ == (GameView { keys: old(self)@.keys.after_key_up(keycode), ..old(self)@ }),
            final(self).wf() == old(self).wf(),
    {
        if let Some(key) = keycode {
            self.button_state.set(key, false);
        }
    }

    /// The two paddles, the left one first.
    pub fn players(&self) -> (r: &(Player, Player))
        ensures
            r.0@ == self@.left,
            r.1@ == self@.right,
    {
        &self.players
    }

    /// The ball.
    pub fn ball(&self) -> (r: &Ball)
        ensures
            r@ == self@.ball,
    {
        &self.ball
    }

    /// The divider.
    pub fn middle_line(&self) -> (r: MiddleLine)
        requires
            self.wf(),
        ensures
            r == MiddleLine::layout(),
    {
        self.middle_line
    }

    /// The keys held down.
    pub fn button_state(&self) -> (r: ButtonState)
        ensures
            r == self@.keys,
    {
        self.button_state
    }

    /// The score text.
    pub fn scores_display(&self) -> (r: &ScoresDisplay)
        requires
            self.wf(),
        ensures
            r@ == ScoresView::of(self@.left.score, self@.right.score),
    {
        &self.scores_display
    }
}

} // verus!
