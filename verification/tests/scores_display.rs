use pong::court::Side;
use pong::geometry::Point;
use pong::player::Player;
use pong::scores_display::{decimal_string, ScoresDisplay, FONT_SIZE, TEXT_GAP, TEXT_TOP};
use pong::units::PIXEL;

fn players_with(score0: i32, score1: i32) -> (Player, Player) {
    let mut players = (Player::new(Side::Left), Player::new(Side::Right));
    for _ in 0..score0 {
        players.0.add_point();
    }
    for _ in 0..score1 {
        players.1.add_point();
    }
    players
}

#[test]
fn text_constants_are_in_pixels() {
    assert_eq!(FONT_SIZE, 60 * PIXEL);
    assert_eq!(TEXT_GAP, 20 * PIXEL);
    assert_eq!(TEXT_TOP, 10 * PIXEL);
}

#[test]
fn decimal_string_writes_the_numeral() {
    assert_eq!(decimal_string(0), "0");
    assert_eq!(decimal_string(7), "7");
    assert_eq!(decimal_string(9), "9");
    assert_eq!(decimal_string(10), "10");
    assert_eq!(decimal_string(42), "42");
    assert_eq!(decimal_string(100), "100");
    assert_eq!(decimal_string(1_234_567_890), "1234567890");
    assert_eq!(decimal_string(i32::MAX), "2147483647");
    for n in 0..2000 {
        assert_eq!(decimal_string(n), format!("{}", n));
    }
}

#[test]
fn offset_is_one_glyph_for_each_further_digit() {
    assert_eq!(ScoresDisplay::calc_pos0_offset(0), 0);
    assert_eq!(ScoresDisplay::calc_pos0_offset(1), 0);
    assert_eq!(ScoresDisplay::calc_pos0_offset(9), 0);
    assert_eq!(ScoresDisplay::calc_pos0_offset(10), 60 * PIXEL);
    assert_eq!(ScoresDisplay::calc_pos0_offset(99), 60 * PIXEL);
    assert_eq!(ScoresDisplay::calc_pos0_offset(100), 120 * PIXEL);
    assert_eq!(ScoresDisplay::calc_pos0_offset(999), 120 * PIXEL);
    assert_eq!(ScoresDisplay::calc_pos0_offset(1000), 180 * PIXEL);
    assert_eq!(ScoresDisplay::calc_pos0_offset(9_999_999), 360 * PIXEL);
    assert_eq!(ScoresDisplay::calc_pos0_offset(10_000_000), 420 * PIXEL);
    assert_eq!(ScoresDisplay::calc_pos0_offset(i32::MAX), 540 * PIXEL);
}

#[test]
fn left_anchor_is_constant_from_zero_to_nine() {
    for score in 0..=9 {
        assert_eq!(ScoresDisplay::create_pos0(score), Point { x: 560 * PIXEL, y: 10 * PIXEL });
    }
}

#[test]
fn left_anchor_shifts_by_one_glyph_from_nine_to_ten() {
    let nine = ScoresDisplay::create_pos0(9);
    let ten = ScoresDisplay::create_pos0(10);
    assert_eq!(nine.x - ten.x, FONT_SIZE);
    assert_eq!(nine.y, ten.y);
    assert_eq!(ten, Point { x: 500 * PIXEL, y: 10 * PIXEL });
    assert_eq!(ScoresDisplay::create_pos0(99).x - ScoresDisplay::create_pos0(100).x, FONT_SIZE);
}

#[test]
fn left_text_always_ends_one_gap_short_of_the_middle() {
    for score in [0, 5, 9, 10, 11, 99, 100, 12_345, i32::MAX] {
        let x = ScoresDisplay::create_pos0(score).x;
        let width = decimal_string(score).len() as i64 * FONT_SIZE;
        assert_eq!(x + width, 640 * PIXEL - TEXT_GAP);
    }
}

#[test]
fn new_display_shows_both_scores() {
    let display = ScoresDisplay::new(&players_with(0, 0));
    assert_eq!(display.text0(), "0");
    assert_eq!(display.text1(), "0");
    assert_eq!(display.pos0(), Point { x: 560 * PIXEL, y: 10 * PIXEL });
    assert_eq!(display.pos1(), Point { x: 660 * PIXEL, y: 10 * PIXEL });
    let display = ScoresDisplay::new(&players_with(12, 3));
    assert_eq!(display.text0(), "12");
    assert_eq!(display.text1(), "3");
    assert_eq!(display.pos0(), Point { x: 500 * PIXEL, y: 10 * PIXEL });
    assert_eq!(display.pos1(), Point { x: 660 * PIXEL, y: 10 * PIXEL });
}

#[test]
fn update_score_follows_the_scores() {
    let mut players = players_with(9, 99);
    let mut display = ScoresDisplay::new(&players);
    assert_eq!(display.text0(), "9");
    assert_eq!(display.text1(), "99");
    assert_eq!(display.pos0().x, 560 * PIXEL);
    players.0.add_point();
    players.1.add_point();
    // not yet brought up to date
    assert_eq!(display.text0(), "9");
    display.update_score(&players);
    assert_eq!(display.text0(), "10");
    assert_eq!(display.text1(), "100");
    assert_eq!(display.pos0(), Point { x: 500 * PIXEL, y: 10 * PIXEL });
    // the right score never moves
    assert_eq!(display.pos1(), Point { x: 660 * PIXEL, y: 10 * PIXEL });
    display.update_score(&players);
    assert_eq!(display.text0(), "10");
    assert_eq!(display.pos0(), Point { x: 500 * PIXEL, y: 10 * PIXEL });
}
