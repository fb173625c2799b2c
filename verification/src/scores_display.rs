//! The two scores as text, and where the text stands.

use vstd::prelude::*;
use vstd::arithmetic::logarithm::{lemma_log0, lemma_log_is_ordered, lemma_log_nonnegative, lemma_log_s, log};
use vstd::string::*;
use crate::court::SCREEN_WIDTH;
use crate::geometry::{Point, Spot};
use crate::player::Player;

verus! {

/// Width of one glyph of the score text: 60 pixels.
pub const FONT_SIZE: i64 = 60_000_000_000;

/// Gap between the middle of the screen and either score: 20 pixels.
pub const TEXT_GAP: i64 = 20_000_000_000;

/// Distance of the score text from the top of the screen: 10 pixels.
pub const TEXT_TOP: i64 = 10_000_000_000;

/// The character of a decimal digit.
pub open spec fn digit(d: int) -> char {
    if d == 0 {
        '0'
    } else if d == 1 {
        '1'
    } else if d == 2 {
        '2'
    } else if d == 3 {
        '3'
    } else if d == 4 {
        '4'
    } else if d == 5 {
        '5'
    } else if d == 6 {
        '6'
    } else if d == 7 {
        '7'
    } else if d == 8 {
        '8'
    } else {
        '9'
    }
}

/// The decimal numeral of `n`, for `n >= 0`: no sign, no leading zero.
pub open spec fn decimal(n: int) -> Seq<char>
    decreases n,
{
    if n < 10 {
        seq![digit(n)]
    } else {
        decimal(n / 10).push(digit(n % 10))
    }
}

/// How far the left score's anchor is shifted to the left: one glyph for
/// each digit of the score beyond the first.
pub open spec fn pos0_offset(score: int) -> int {
    log(10, score) * FONT_SIZE
}

/// The left edge of the left score's text.
pub open spec fn pos0_x(score: int) -> int {
    SCREEN_WIDTH / 2 - TEXT_GAP - FONT_SIZE - pos0_offset(score)
}

/// The score text as the rules see it.
pub struct ScoresView {
    pub pos0: Spot,
    pub pos1: Spot,
    pub text0: Seq<char>,
    pub text1: Seq<char>,
}

impl ScoresView {
    /// The display of the scores `score0` of the left player and `score1` of
    /// the right player. The right text starts at a fixed place; the left
    /// text starts further left the more digits it has.
    pub open spec fn of(score0: int, score1: int) -> ScoresView {
        ScoresView {
            pos0: Spot { x: pos0_x(score0), y: TEXT_TOP as int },
            pos1: Spot { x: SCREEN_WIDTH / 2 + TEXT_GAP, y: TEXT_TOP as int },
            text0: decimal(score0),
            text1: decimal(score1),
        }
    }
}

/// The score of every machine integer has at most ten digits.
pub proof fn lemma_offset_bound(score: int)
    requires
        0 <= score <= i32::MAX,
    ensures
        0 <= log(10, score) <= 9,
        0 <= pos0_offset(score) <= 9 * FONT_SIZE,
{
    lemma_log_nonnegative(10, score);
    lemma_log_is_ordered(10, score, 2_147_483_647);
    lemma_log_s(10, 2_147_483_647);
    lemma_log_s(10, 214_748_364);
    lemma_log_s(10, 21_474_836);
    lemma_log_s(10, 2_147_483);
    lemma_log_s(10, 214_748);
    lemma_log_s(10, 21_474);
    lemma_log_s(10, 2_147);
    lemma_log_s(10, 214);
    lemma_log_s(10, 21);
    lemma_log0(10, 2);
    assert(log(10, score) * FONT_SIZE <= 9 * FONT_SIZE) by (nonlinear_arith)
        requires
            0 <= log(10, score) <= 9,
    ;
    assert(log(10, score) * FONT_SIZE >= 0) by (nonlinear_arith)
        requires
            0 <= log(10, score) <= 9,
    ;
}

/// From zero to nine the left score's anchor is where it is for zero.
pub proof fn lemma_anchor_steady_below_ten(score: int)
    requires
        0 <= score <= 9,
    ensures
        pos0_x(score) == pos0_x(0),
        pos0_x(score) == SCREEN_WIDTH / 2 - TEXT_GAP - FONT_SIZE,
{
    lemma_log0(10, score);
    lemma_log0(10, 0);
}

/// Each further digit shifts the left score's anchor left by exactly one
/// glyph: a score of at least one, with any digit written behind it, starts
/// `FONT_SIZE` further left. So the anchor for ten is one glyph left of the
/// anchor for nine.
pub proof fn lemma_anchor_shifts_per_digit(score: int, d: int)
    requires
        1 <= score,
        0 <= d <= 9,
    ensures
        pos0_x(10 * score + d) == pos0_x(score) - FONT_SIZE,
        pos0_x(10) == pos0_x(9) - FONT_SIZE,
{
    lemma_log_s(10, 10 * score + d);
    assert((10 * score + d) / 10 == score);
    assert((1 + log(10, score)) * FONT_SIZE == FONT_SIZE + log(10, score) * FONT_SIZE)
        by (nonlinear_arith);
    lemma_log_s(10, 10);
    lemma_log0(10, 1);
    lemma_log0(10, 9);
}

/// The numeral of a score has one digit more than its logarithm, so the left
/// text always ends at the same place, one gap short of the middle of the
/// screen.
pub proof fn lemma_left_text_ends_at_gap(score: int)
    requires
        0 <= score,
    ensures
        decimal(score).len() == log(10, score) + 1,
        pos0_x(score) + decimal(score).len() * FONT_SIZE == SCREEN_WIDTH / 2 - TEXT_GAP,
    decreases score,
{
    if score < 10 {
        lemma_log0(10, score);
    } else {
        lemma_left_text_ends_at_gap(score / 10);
        lemma_log_s(10, score);
    }
    assert((log(10, score) + 1) * FONT_SIZE == log(10, score) * FONT_SIZE + FONT_SIZE)
        by (nonlinear_arith);
}

/// The text of one decimal digit.
fn digit_str(d: i32) -> (s: &'static str)
    requires
        0 <= d <= 9,
    ensures
        s@ == seq![digit(d as int)],
{
    proof {
        reveal_strlit("0");
        reveal_strlit("1");
        reveal_strlit("2");
        reveal_strlit("3");
        reveal_strlit("4");
        reveal_strlit("5");
        reveal_strlit("6");
        reveal_strlit("7");
        reveal_strlit("8");
        reveal_strlit("9");
    }
    let s = if d == 0 {
        "0"
    } else if d == 1 {
        "1"
    } else if d == 2 {
        "2"
    } else if d == 3 {
        "3"
    } else if d == 4 {
        "4"
    } else if d == 5 {
        "5"
    } else if d == 6 {
        "6"
    } else if d == 7 {
        "7"
    } else if d == 8 {
        "8"
    } else {
        "9"
    };
    assert(s@ =~= seq![digit(d as int)]);
    s
}

/// The decimal numeral of a score.
pub fn decimal_string(n: i32) -> (s: String)
    requires
        0 <= n,
    ensures
        s@ == decimal(n as int),
    decreases n,
{
    if n < 10 {
        String::from_str(digit_str(n))
    } else {
        let mut s = decimal_string(n / 10);
        s.append(digit_str(n % 10));
        assert(s@ =~= decimal(n as int));
        s
    }
}

/// The two scores as text, with the place of each text. The right text always
/// stands at the same place.
#[derive(Debug)]
pub struct ScoresDisplay {
    pos0: Point,
    pos1: Point,
    text0: String,
    text1: String,
}

impl View for ScoresDisplay {
    type V = ScoresView;

    closed spec fn view(&self) -> ScoresView {
        ScoresView { pos0: self.pos0@, pos1: self.pos1@, text0: self.text0@, text1: self.text1@ }
    }
}

impl ScoresDisplay {
    /// The right score never moves.
    #[verifier::type_invariant]
    spec fn right_anchor_fixed(self) -> bool {
        self.pos1@ == (Spot { x: SCREEN_WIDTH / 2 + TEXT_GAP, y: TEXT_TOP as int })
    }

    /// The display of the two players' scores.
    pub fn new(players: &(Player, Player)) -> (r: ScoresDisplay)
        ensures
            r@ == ScoresView::of(players.0@.score, players.1@.score),
    {
        let score0 = players.0.score();
        let score1 = players.1.score();
        ScoresDisplay {
            pos0: Self::create_pos0(score0),
            pos1: Point { x: SCREEN_WIDTH / 2 + TEXT_GAP, y: TEXT_TOP },
            text0: decimal_string(score0),
            text1: decimal_string(score1),
        }
    }

    /// How far the left score's anchor is shifted to the left.
    pub fn calc_pos0_offset(score: i32) -> (r: i64)
        requires
            0 <= score,
        ensures
            r == pos0_offset(score as int),
    {
        if score == 0 {
            proof {
                lemma_log0(10, 0);
            }
            return 0;
        }
        let mut rest: i32 = score;
        let mut extra: i64 = 0;
        proof {
            lemma_offset_bound(score as int);
        }
        while rest >= 10
            invariant
                0 <= rest <= score,
                0 <= extra,
                log(10, score as int) == extra + log(10, rest as int),
                0 <= log(10, score as int) <= 9,
            decreases rest,
        {
            proof {
                lemma_log_s(10, rest as int);
                lemma_log_nonnegative(10, rest as int / 10);
            }
            rest = rest / 10;
            extra = extra + 1;
        }
        proof {
            lemma_log0(10, rest as int);
        }
        extra * FONT_SIZE
    }

    /// The place of the left score's text.
    pub fn create_pos0(score0: i32) -> (r: Point)
        requires
            0 <= score0,
        ensures
            r@ == (Spot { x: pos0_x(score0 as int), y: TEXT_TOP as int }),
    {
        proof {
            lemma_offset_bound(score0 as int);
        }
        Point {
            x: SCREEN_WIDTH / 2 - TEXT_GAP - FONT_SIZE - Self::calc_pos0_offset(score0),
            y: TEXT_TOP,
        }
    }

    /// Brings the display up to date with the two players' scores.
    pub fn update_score(&mut self, players: &(Player, Player))
        ensures
            final(self)@ == ScoresView::of(players.0@.score, players.1@.score),
    {
        proof {
            use_type_invariant(&*self);
        }
        self.text0 = decimal_string(players.0.score());
        self.text1 = decimal_string(players.1.score());
        self.pos0 = Self::create_pos0(players.0.score());
    }

    /// The place of the left player's score.
    pub fn pos0(&self) -> (r: Point)
        ensures
            r@ == self@.pos0,
    {
        self.pos0
    }

    /// The place of the right player's score.
    pub fn pos1(&self) -> (r: Point)
        ensures
            r@ == self@.pos1,
    {
        self.pos1
    }

    /// The left player's score as text.
    pub fn text0(&self) -> (r: &String)
        ensures
            r@ == self@.text0,
    {
        &self.text0
    }

    /// The right player's score as text.
    pub fn text1(&self) -> (r: &String)
        ensures
            r@ == self@.text1,
    {
        &self.text1
    }
}

} // verus!
