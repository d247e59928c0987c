//! What a frame shows: which pixels of the field are lit, and the line of
//! text above it.

use crate::pong::{
    GameState, BALL_SIZE, PADDLE_HEIGHT, PADDLE_OFFSET, PADDLE_WIDTH, RIGHT_PADDLE_FACE,
    SCREEN_HEIGHT, SCREEN_WIDTH,
};
use vstd::prelude::*;
use vstd::string::*;

verus! {

/// First row of the band that is cleared before the score line is written.
pub const TEXT_BAND_TOP: usize = 5;

/// First row of the field; the text band ends above it.
pub const FIELD_TOP: usize = 30;

/// Column of the line down the middle of the screen.
pub const CENTRE_LINE_X: usize = 320;

/// Length of a dash of the centre line.
pub const DASH_LENGTH: usize = 4;

/// Distance from the start of one dash to the start of the next.
pub const DASH_PERIOD: usize = 8;

/// The pixel `(x, y)` lies in the rectangle with the given top left corner
/// and size.
pub open spec fn in_rect(x: int, y: int, left: int, top: int, width: int, height: int) -> bool {
    left <= x < left + width && top <= y < top + height
}

/// The pixel `(x, y)` lies on a dash of the line down the middle of the
/// screen.
pub open spec fn on_centre_line(x: int, y: int) -> bool {
    x == CENTRE_LINE_X && y % (DASH_PERIOD as int) < DASH_LENGTH
}

/// The pixel `(x, y)` is lit: it lies in the field, and there on the centre
/// line, on a paddle or on the ball. Every other pixel of the field is dark.
pub open spec fn is_lit(state: GameState, x: int, y: int) -> bool {
    &&& 0 <= x < SCREEN_WIDTH
    &&& FIELD_TOP <= y < SCREEN_HEIGHT
    &&& {
        ||| on_centre_line(x, y)
        ||| in_rect(
            x,
            y,
            PADDLE_OFFSET as int,
            state.left_paddle_y as int,
            PADDLE_WIDTH as int,
            PADDLE_HEIGHT as int,
        )
        ||| in_rect(
            x,
            y,
            RIGHT_PADDLE_FACE as int,
            state.right_paddle_y as int,
            PADDLE_WIDTH as int,
            PADDLE_HEIGHT as int,
        )
        ||| in_rect(
            x,
            y,
            state.ball_x as int,
            state.ball_y as int,
            BALL_SIZE as int,
            BALL_SIZE as int,
        )
    }
}

/// The character for one decimal digit.
pub open spec fn digit_char(d: int) -> char {
    if d == 0 {
        '0'
    } else if d == 1 {
        '1'
    } else if d == 2 {
        '2'
    } else if d == 3 {
        '3'
    } else if d == 4 {
        '4'
    } else if d == 5 {
        '5'
    } else if d == 6 {
        '6'
    } else if d == 7 {
        '7'
    } else if d == 8 {
        '8'
    } else {
        '9'
    }
}

/// The decimal digits of `n`, the highest first, without leading zeros.
pub open spec fn decimal_digits(n: nat) -> Seq<char>
    decreases n,
{
    if n < 10 {
        seq![digit_char(n as int)]
    } else {
        decimal_digits(n / 10).push(digit_char((n % 10) as int))
    }
}

/// `n` written in decimal, with a minus sign where it is negative.
pub open spec fn decimal(n: int) -> Seq<char> {
    if n < 0 {
        seq!['-'] + decimal_digits((-n) as nat)
    } else {
        decimal_digits(n as nat)
    }
}

/// The line of text that shows the scores.
pub open spec fn score_line(left: int, right: int) -> Seq<char> {
    "Score: "@ + decimal(left) + " - "@ + decimal(right)
}

/// Tells whether the pixel `(x, y)` of the frame for `state` is lit.
pub fn pixel_lit(state: &GameState, x: usize, y: usize) -> (lit: bool)
    ensures
        lit == is_lit(*state, x as int, y as int),
{
    if x >= SCREEN_WIDTH as usize || y < FIELD_TOP || y >= SCREEN_HEIGHT as usize {
        return false;
    }
    let px: i64 = x as i64;
    let py: i64 = y as i64;
    let centre: bool = x == CENTRE_LINE_X && y % DASH_PERIOD < DASH_LENGTH;
    let left_paddle: bool = PADDLE_OFFSET as i64 <= px && px < (PADDLE_OFFSET + PADDLE_WIDTH) as i64
        && state.left_paddle_y as i64 <= py && py < state.left_paddle_y as i64
        + PADDLE_HEIGHT as i64;
    let right_paddle: bool = RIGHT_PADDLE_FACE as i64 <= px && px < (RIGHT_PADDLE_FACE
        + PADDLE_WIDTH) as i64 && state.right_paddle_y as i64 <= py && py
        < state.right_paddle_y as i64 + PADDLE_HEIGHT as i64;
    let ball: bool = state.ball_x as i64 <= px && px < state.ball_x as i64 + BALL_SIZE as i64
        && state.ball_y as i64 <= py && py < state.ball_y as i64 + BALL_SIZE as i64;
    centre || left_paddle || right_paddle || ball
}

fn digit_str(d: u32) -> (text: &'static str)
    requires
        d < 10,
    ensures
        text@ == seq![digit_char(d as int)],
{
    proof {
        reveal_strlit("0");
        reveal_strlit("1");
        reveal_strlit("2");
        reveal_strlit("3");
        reveal_strlit("4");
        reveal_strlit("5");
        reveal_strlit("6");
        reveal_strlit("7");
        reveal_strlit("8");
        reveal_strlit("9");
    }
    let text = match d {
        0 => "0",
        1 => "1",
        2 => "2",
        3 => "3",
        4 => "4",
        5 => "5",
        6 => "6",
        7 => "7",
        8 => "8",
        _ => "9",
    };
    assert(text@ =~= seq![digit_char(d as int)]);
    text
}

fn append_digits(text: &mut String, n: u32)
    ensures
        final(text)@ == old(text)@ + decimal_digits(n as nat),
    decreases n,
{
    if n >= 10 {
        append_digits(text, n / 10);
    }
    text.append(digit_str(n % 10));
    assert(text@ =~= old(text)@ + decimal_digits(n as nat));
}

fn append_decimal(text: &mut String, n: i32)
    ensures
        final(text)@ == old(text)@ + decimal(n as int),
{
    if n < 0 {
        proof {
            reveal_strlit("-");
        }
        text.append("-");
        let magnitude: u32 = (-(n as i64)) as u32;
        append_digits(text, magnitude);
        assert(text@ =~= old(text)@ + decimal(n as int));
    } else {
        append_digits(text, n as u32);
    }
}

/// Writes the line that shows the scores of `state`.
pub fn score_text(state: &GameState) -> (text: String)
    ensures
        text@ == score_line(state.left_score as int, state.right_score as int),
{
    let mut text = String::from_str("Score: ");
    append_decimal(&mut text, state.left_score);
    text.append(" - ");
    append_decimal(&mut text, state.right_score);
    assert(text@ =~= score_line(state.left_score as int, state.right_score as int));
    text
}

} // verus!
