use pong::ball::{center_pos, CollisionResult, SCORE_PAUSE, SERVE_DELAY};
use pong::court::Side;
use pong::game::{sound_for, ButtonState, Key, PongState, Sound, PADDLE_SPEED};
use pong::geometry::Point;
use pong::middle_line::MiddleLine;
use pong::units::{DEGREE, PIXEL, PIXEL_PER_SECOND, SECOND};
use pong::velocity::{Velocity, BALL_MAGNITUDE};

fn level() -> Velocity {
    Velocity::new(BALL_MAGNITUDE, 0).unwrap()
}

fn no_keys() -> ButtonState {
    ButtonState { w_pressed: false, s_pressed: false, up_pressed: false, down_pressed: false }
}

fn paddle_heights(game: &PongState) -> (i64, i64) {
    (game.players().0.pos().y, game.players().1.pos().y)
}

#[test]
fn paddle_speed_is_1200_pixels_per_second() {
    assert_eq!(PADDLE_SPEED, 1200 * PIXEL_PER_SECOND);
}

#[test]
fn default_button_state_holds_no_key() {
    assert_eq!(ButtonState::default(), no_keys());
}

#[test]
fn button_state_set_touches_one_flag() {
    let mut keys = no_keys();
    keys.set(Key::S, true);
    assert_eq!(keys, ButtonState { s_pressed: true, ..no_keys() });
    keys.set(Key::Up, true);
    assert_eq!(keys, ButtonState { s_pressed: true, up_pressed: true, ..no_keys() });
    keys.set(Key::Other, true);
    assert_eq!(keys, ButtonState { s_pressed: true, up_pressed: true, ..no_keys() });
    keys.set(Key::S, false);
    assert_eq!(keys, ButtonState { up_pressed: true, ..no_keys() });
    keys.set(Key::W, true);
    keys.set(Key::Down, true);
    keys.set(Key::Up, false);
    assert_eq!(keys, ButtonState { w_pressed: true, down_pressed: true, ..no_keys() });
}

#[test]
fn sounds_go_with_paddles_and_points_only() {
    assert_eq!(sound_for(CollisionResult::PlayerScores), Some(Sound::Score));
    assert_eq!(sound_for(CollisionResult::CollideSlider(Side::Left)), Some(Sound::ClickHigh));
    assert_eq!(sound_for(CollisionResult::CollideSlider(Side::Right)), Some(Sound::ClickLow));
    assert_eq!(sound_for(CollisionResult::CollideTopBottom), None);
    assert_eq!(sound_for(CollisionResult::NoEvent), None);
}

#[test]
fn new_game_starts_centred_and_scoreless() {
    let game = PongState::new(7, level());
    assert_eq!(game.players().0.side(), Side::Left);
    assert_eq!(game.players().1.side(), Side::Right);
    assert_eq!(game.players().0.pos(), Point { x: 20 * PIXEL, y: 285 * PIXEL });
    assert_eq!(game.players().1.pos(), Point { x: 1240 * PIXEL, y: 285 * PIXEL });
    assert_eq!(game.players().0.score(), 0);
    assert_eq!(game.players().1.score(), 0);
    assert_eq!(game.button_state(), no_keys());
    assert_eq!(game.ball().pos(), center_pos());
    assert_eq!(game.ball().paused_until(), 7 + SERVE_DELAY);
    assert_eq!(game.ball().deflection(), None);
    assert_eq!(game.ball().vel().y(), 0);
    assert_eq!(game.ball().vel().x().abs(), BALL_MAGNITUDE);
    assert_eq!(game.middle_line(), MiddleLine::new());
    assert_eq!(game.scores_display().text0(), "0");
    assert_eq!(game.scores_display().text1(), "0");
    assert_eq!(game.scores_display().pos0(), Point { x: 560 * PIXEL, y: 10 * PIXEL });
    assert_eq!(game.scores_display().pos1(), Point { x: 660 * PIXEL, y: 10 * PIXEL });
}

#[test]
fn key_down_sets_the_flag_of_its_key() {
    let mut game = PongState::new(0, level());
    game.key_down_event(Some(Key::W), false);
    assert_eq!(game.button_state(), ButtonState { w_pressed: true, ..no_keys() });
    game.key_down_event(Some(Key::Down), false);
    assert_eq!(game.button_state(), ButtonState { w_pressed: true, down_pressed: true, ..no_keys() });
    game.key_down_event(Some(Key::S), false);
    game.key_down_event(Some(Key::Up), false);
    assert_eq!(
        game.button_state(),
        ButtonState { w_pressed: true, s_pressed: true, up_pressed: true, down_pressed: true }
    );
    game.key_down_event(Some(Key::W), false);
    assert_eq!(
        game.button_state(),
        ButtonState { w_pressed: true, s_pressed: true, up_pressed: true, down_pressed: true }
    );
}

#[test]
fn key_down_ignores_repeats_and_other_keys() {
    let mut game = PongState::new(0, level());
    game.key_down_event(Some(Key::W), true);
    game.key_down_event(Some(Key::S), true);
    game.key_down_event(Some(Key::Up), true);
    game.key_down_event(Some(Key::Down), true);
    assert_eq!(game.button_state(), no_keys());
    game.key_down_event(Some(Key::Other), false);
    game.key_down_event(None, false);
    game.key_down_event(None, true);
    assert_eq!(game.button_state(), no_keys());
}

#[test]
fn key_up_clears_the_flag_of_its_key() {
    let mut game = PongState::new(0, level());
    for key in [Key::W, Key::S, Key::Up, Key::Down] {
        game.key_down_event(Some(key), false);
    }
    game.key_up_event(Some(Key::S));
    assert_eq!(
        game.button_state(),
        ButtonState { w_pressed: true, s_pressed: false, up_pressed: true, down_pressed: true }
    );
    game.key_up_event(Some(Key::Other));
    game.key_up_event(None);
    assert_eq!(
        game.button_state(),
        ButtonState { w_pressed: true, s_pressed: false, up_pressed: true, down_pressed: true }
    );
    game.key_up_event(Some(Key::W));
    game.key_up_event(Some(Key::Up));
    game.key_up_event(Some(Key::Down));
    game.key_up_event(Some(Key::Down));
    assert_eq!(game.button_state(), no_keys());
}

#[test]
fn keys_leave_the_rest_of_the_game_alone() {
    let mut game = PongState::new(0, level());
    let ball_before = (game.ball().pos(), game.ball().vel().x(), game.ball().paused_until());
    game.key_down_event(Some(Key::W), false);
    game.key_up_event(Some(Key::W));
    game.key_down_event(Some(Key::Down), false);
    assert_eq!(paddle_heights(&game), (285 * PIXEL, 285 * PIXEL));
    assert_eq!(
        (game.ball().pos(), game.ball().vel().x(), game.ball().paused_until()),
        ball_before
    );
    assert_eq!(game.scores_display().text0(), "0");
}

#[test]
fn held_keys_move_the_paddles_by_speed_times_elapsed_time() {
    let mut game = PongState::new(0, level());
    game.key_down_event(Some(Key::W), false);
    game.key_down_event(Some(Key::Down), false);
    assert!(game.can_update(1000, 10_000));
    let r = game.update(1000, 10_000, level());
    assert_eq!(r, CollisionResult::NoEvent);
    // 1200 pixels per second for 10 ms: 12 pixels
    assert_eq!(paddle_heights(&game), (273 * PIXEL, 297 * PIXEL));
    game.key_up_event(Some(Key::W));
    game.update(11_000, 16_667, level());
    assert_eq!(paddle_heights(&game), (273 * PIXEL, 297 * PIXEL + 1_200_000 * 16_667));
    // the ball rests all the while
    assert_eq!(game.ball().pos(), center_pos());
}

#[test]
fn up_key_wins_over_down_key() {
    let mut game = PongState::new(0, level());
    for key in [Key::W, Key::S, Key::Up, Key::Down] {
        game.key_down_event(Some(key), false);
    }
    game.update(0, 10_000, level());
    assert_eq!(paddle_heights(&game), (273 * PIXEL, 273 * PIXEL));
    game.key_up_event(Some(Key::W));
    game.key_up_event(Some(Key::Up));
    game.update(0, 20_000, level());
    assert_eq!(paddle_heights(&game), (297 * PIXEL, 297 * PIXEL));
}

#[test]
fn paddles_never_leave_the_screen() {
    let mut game = PongState::new(0, level());
    game.key_down_event(Some(Key::W), false);
    game.key_down_event(Some(Key::Down), false);
    for dt in [SECOND, 0, 1, u64::MAX, 3 * SECOND, 237_500, 1] {
        game.update(0, dt, level());
        assert_eq!(paddle_heights(&game), (0, 570 * PIXEL));
    }
    game.key_up_event(Some(Key::W));
    game.key_up_event(Some(Key::Down));
    game.key_down_event(Some(Key::S), false);
    game.key_down_event(Some(Key::Up), false);
    game.update(0, 100_000, level());
    assert_eq!(paddle_heights(&game), (120 * PIXEL, 450 * PIXEL));
    game.update(0, u64::MAX, level());
    assert_eq!(paddle_heights(&game), (570 * PIXEL, 0));
    game.update(0, SECOND + 1, level());
    assert_eq!(paddle_heights(&game), (570 * PIXEL, 0));
}

#[test]
fn ball_served_from_the_middle_ends_in_a_point() {
    let mut game = PongState::new(0, level());
    let leftward = game.ball().vel().x() < 0;
    // both paddles out of the ball's way
    game.key_down_event(Some(Key::W), false);
    game.key_down_event(Some(Key::Up), false);
    let dt = 16_667;
    let mut now = 0;
    let mut frames_moving = 0;
    let result = loop {
        assert!(game.can_update(now, dt));
        let before = game.ball().pos();
        let r = game.update(now, dt, Velocity::new(720_000, 960_000).unwrap());
        if r != CollisionResult::NoEvent {
            break r;
        }
        if now < SERVE_DELAY {
            assert_eq!(game.ball().pos(), before);
        } else {
            frames_moving += 1;
            let step = if leftward { -1_200_000 * 16_667 } else { 1_200_000 * 16_667 };
            assert_eq!(game.ball().pos(), Point { x: before.x + step, y: before.y });
        }
        now += dt;
        assert!(now < 20 * SECOND);
    };
    assert_eq!(result, CollisionResult::PlayerScores);
    assert_eq!(sound_for(result), Some(Sound::Score));
    if leftward {
        // 630 pixels to the left edge: the 32nd frame crosses it
        assert_eq!(frames_moving, 31);
        assert_eq!((game.players().0.score(), game.players().1.score()), (0, 1));
        assert_eq!(game.scores_display().text0(), "0");
        assert_eq!(game.scores_display().text1(), "1");
    } else {
        // 630 pixels to the right paddle's line at 1260: the 32nd frame crosses it
        assert_eq!(frames_moving, 31);
        assert_eq!((game.players().0.score(), game.players().1.score()), (1, 0));
        assert_eq!(game.scores_display().text0(), "1");
        assert_eq!(game.scores_display().text1(), "0");
    }
    assert_eq!(game.ball().pos(), center_pos());
    assert_eq!(game.ball().paused_until(), now + SCORE_PAUSE);
    assert_eq!(paddle_heights(&game), (0, 0));
    // the ball rests, whatever time is said to have elapsed
    for dt in [0, 16_667, 10 * SECOND] {
        let r = game.update(now + SCORE_PAUSE - 1, dt, level());
        assert_eq!(r, CollisionResult::NoEvent);
        assert_eq!(game.ball().pos(), center_pos());
    }
    let served = game.ball().vel();
    let r = game.update(now + SCORE_PAUSE, 1000, level());
    assert_eq!(r, CollisionResult::NoEvent);
    assert_eq!(
        game.ball().pos(),
        Point { x: 630 * PIXEL + served.x() * 1000, y: 350 * PIXEL + served.y() * 1000 }
    );
}

#[test]
fn ball_returned_by_a_paddle_waits_for_its_velocity() {
    let mut game = PongState::new(0, level());
    let leftward = game.ball().vel().x() < 0;
    // half a second brings the ball into the paddle that it flies toward
    let r = game.update(SERVE_DELAY, SECOND / 2, level());
    let side = if leftward { Side::Left } else { Side::Right };
    assert_eq!(r, CollisionResult::CollideSlider(side));
    assert_eq!(sound_for(r), Some(if leftward { Sound::ClickHigh } else { Sound::ClickLow }));
    // paddle top at 285, ball top at 350: 65 of 150 pixels down the paddle
    let angle = if leftward { -6 * DEGREE } else { 186 * DEGREE };
    assert_eq!(game.ball().deflection(), Some(angle));
    assert_eq!(game.ball().pos().x, if leftward { 40 * PIXEL } else { 1220 * PIXEL });
    assert!(!game.can_update(SERVE_DELAY, 1000));
    let radians = (angle as f64 / DEGREE as f64).to_radians();
    let dir = Velocity::new(
        (BALL_MAGNITUDE as f64 * radians.cos()).round() as i64,
        (BALL_MAGNITUDE as f64 * radians.sin()).round() as i64,
    )
    .unwrap();
    assert!(game.deflect(dir));
    assert!(!game.deflect(level()));
    assert_eq!(game.ball().deflection(), None);
    assert_eq!((game.ball().vel().x(), game.ball().vel().y()), (dir.x(), dir.y()));
    assert_eq!(game.ball().vel().x() > 0, leftward);
    assert!(game.ball().vel().y() < 0);
    assert!(game.can_update(SERVE_DELAY, 1000));
    let r = game.update(SERVE_DELAY, 1000, level());
    assert_eq!(r, CollisionResult::NoEvent);
    assert_eq!((game.players().0.score(), game.players().1.score()), (0, 0));
}

#[test]
fn can_update_sees_the_paddles_where_the_keys_take_them() {
    let mut game = PongState::new(0, level());
    assert!(game.can_update(SERVE_DELAY, SECOND));
    assert!(!game.can_update(SERVE_DELAY, u64::MAX));
    assert!(game.can_update(SERVE_DELAY - 1, u64::MAX));
    game.key_down_event(Some(Key::W), false);
    assert!(game.can_update(SERVE_DELAY, SECOND));
    assert!(!game.can_update(u64::MAX, SECOND));
}
