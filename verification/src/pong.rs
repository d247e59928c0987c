//! The match: the state that the timer and the keyboard share, and the
//! fixed step that moves it forward.
//!
//! Every operation is a function from one state to the next, written once as
//! a `spec` function and once as code that is proved to compute it. The legal
//! states are those for which `GameState::wf` holds; every operation keeps a
//! legal state legal.

use vstd::prelude::*;

verus! {

pub const SCREEN_WIDTH: i32 = 640;

pub const SCREEN_HEIGHT: i32 = 480;

pub const PADDLE_WIDTH: i32 = 10;

pub const PADDLE_HEIGHT: i32 = 60;

pub const BALL_SIZE: i32 = 10;

/// Distance between a paddle's back and the screen edge behind it.
pub const PADDLE_OFFSET: i32 = 20;

/// Distance the left paddle moves in one tick.
pub const PADDLE_SPEED: i32 = 5;

pub const INITIAL_BALL_SPEED_X: i32 = 2;

pub const INITIAL_BALL_SPEED_Y: i32 = 2;

/// Number of ticks after which a key that was pressed counts as released.
pub const KEY_RELEASE_DELAY: i32 = 5;

/// Distance the right paddle moves in one tick.
pub const RIGHT_PADDLE_SPEED: i32 = 3;

/// Largest top coordinate of a paddle.
pub const PADDLE_MAX_Y: i32 = SCREEN_HEIGHT - PADDLE_HEIGHT;

/// A ball whose left edge is here touches the right screen edge.
pub const BALL_MAX_X: i32 = SCREEN_WIDTH - BALL_SIZE;

/// A ball whose top edge is here touches the bottom screen edge.
pub const BALL_MAX_Y: i32 = SCREEN_HEIGHT - BALL_SIZE;

/// The side of the left paddle that faces the field.
pub const LEFT_PADDLE_FACE: i32 = PADDLE_OFFSET + PADDLE_WIDTH;

/// The side of the right paddle that faces the field.
pub const RIGHT_PADDLE_FACE: i32 = SCREEN_WIDTH - PADDLE_OFFSET - PADDLE_WIDTH;

/// The back of the right paddle.
pub const RIGHT_PADDLE_BACK: i32 = SCREEN_WIDTH - PADDLE_OFFSET;

/// No ball in play is faster than this on either axis: a faster ball
/// crosses the whole field in one tick and cannot meet a paddle.
pub const MAX_BALL_SPEED: i32 = SCREEN_WIDTH - PADDLE_OFFSET;

/// Where both paddles stand at the start of a match: halfway down.
pub const PADDLE_START_Y: i32 = 210;

/// Where a new ball appears: halfway across.
pub const BALL_START_X: i32 = 315;

/// Where a new ball appears: halfway down.
pub const BALL_START_Y: i32 = 235;

/// The way the right paddle is heading.
#[derive(Clone, Copy, Debug, PartialEq, Eq, Structural)]
pub enum Direction {
    Up,
    Down,
}

/// What one tick did, for whoever paints the screen.
#[derive(Clone, Copy, Debug, PartialEq, Eq, Structural)]
pub enum TickOutcome {
    /// The match is not active; nothing changed.
    Idle,
    /// The ball left on the left; only the scores need painting.
    RightScored,
    /// The ball left on the right; only the scores need painting.
    LeftScored,
    /// Paddles and ball moved; the whole frame needs painting.
    Advanced,
}

/// The state of a match. Coordinates are those of the top left corner of a
/// paddle or of the ball, in pixels, with `y` growing downwards.
#[derive(Clone, Copy, Debug, PartialEq, Eq, Structural)]
pub struct GameState {
    pub left_paddle_y: i32,
    pub right_paddle_y: i32,
    pub ball_x: i32,
    pub ball_y: i32,
    pub ball_vel_x: i32,
    pub ball_vel_y: i32,
    pub left_score: i32,
    pub right_score: i32,
    pub game_active: bool,
    pub key_w_pressed: bool,
    pub key_s_pressed: bool,
    /// Ticks since the last press of a movement key.
    pub key_release_timer: i32,
    pub right_paddle_direction: Direction,
}

/// A paddle's top coordinate after one move up: five less, but not above the
/// screen.
pub open spec fn paddle_up(y: int) -> int {
    if y > PADDLE_SPEED {
        y - PADDLE_SPEED
    } else {
        0
    }
}

/// A paddle's top coordinate after one move down: five more, but not below
/// the lowest place of a paddle.
pub open spec fn paddle_down(y: int) -> int {
    if y < PADDLE_MAX_Y - PADDLE_SPEED {
        y + PADDLE_SPEED
    } else {
        PADDLE_MAX_Y as int
    }
}

/// The closed intervals `[lo1, hi1]` and `[lo2, hi2]` share a point.
pub open spec fn overlaps(lo1: int, hi1: int, lo2: int, hi2: int) -> bool {
    lo1 <= hi2 && lo2 <= hi1
}

/// A ball at height `y` touches the top or the bottom of the screen.
pub open spec fn hits_wall(y: int) -> bool {
    y <= 0 || y >= BALL_MAX_Y
}

/// A ball at `(x, y)` touches the left paddle standing at `paddle_y`.
pub open spec fn hits_left_paddle(x: int, y: int, paddle_y: int) -> bool {
    &&& overlaps(x, x + BALL_SIZE, PADDLE_OFFSET as int, LEFT_PADDLE_FACE as int)
    &&& overlaps(y, y + BALL_SIZE, paddle_y, paddle_y + PADDLE_HEIGHT)
}

/// A ball at `(x, y)` touches the right paddle standing at `paddle_y`.
pub open spec fn hits_right_paddle(x: int, y: int, paddle_y: int) -> bool {
    &&& overlaps(x, x + BALL_SIZE, RIGHT_PADDLE_FACE as int, RIGHT_PADDLE_BACK as int)
    &&& overlaps(y, y + BALL_SIZE, paddle_y, paddle_y + PADDLE_HEIGHT)
}

/// Horizontal velocity after a paddle turned the ball: the other way, and
/// faster by one.
pub open spec fn bounce(v: int) -> int {
    if -v < 0 {
        -v - 1
    } else {
        -v + 1
    }
}

/// Horizontal velocity of a new ball, given the velocity of the ball that
/// was lost: the starting speed, away from where that ball was heading.
pub open spec fn serve_velocity(v: int) -> int {
    if v < 0 {
        INITIAL_BALL_SPEED_X as int
    } else {
        -INITIAL_BALL_SPEED_X
    }
}

/// A score after one more point. Scores are counters that wrap around.
pub open spec fn next_score(score: i32) -> i32 {
    if score == i32::MAX {
        i32::MIN
    } else {
        (score + 1) as i32
    }
}

/// The ball's top edge is strictly between the walls.
pub open spec fn in_field(y: int) -> bool {
    0 < y < BALL_MAX_Y
}

impl GameState {
    /// The layout from which every match starts: paddles and ball centred,
    /// no points, no key held, the right paddle heading down, the match
    /// active.
    pub open spec fn starting_layout() -> GameState {
        GameState {
            left_paddle_y: PADDLE_START_Y,
            right_paddle_y: PADDLE_START_Y,
            ball_x: BALL_START_X,
            ball_y: BALL_START_Y,
            ball_vel_x: INITIAL_BALL_SPEED_X,
            ball_vel_y: INITIAL_BALL_SPEED_Y,
            left_score: 0,
            right_score: 0,
            game_active: true,
            key_w_pressed: false,
            key_s_pressed: false,
            key_release_timer: 0,
            right_paddle_direction: Direction::Down,
        }
    }

    /// The legal states: both paddles on the screen, the ball between the
    /// goal lines with a bounded velocity, vertically in the field or on its
    /// way back into it, and the release timer below its threshold.
    pub open spec fn wf(self) -> bool {
        &&& 0 <= self.left_paddle_y <= PADDLE_MAX_Y
        &&& 0 <= self.right_paddle_y <= PADDLE_MAX_Y
        &&& 0 < self.ball_x < BALL_MAX_X
        &&& -MAX_BALL_SPEED <= self.ball_vel_x <= MAX_BALL_SPEED
        &&& -MAX_BALL_SPEED <= self.ball_vel_y <= MAX_BALL_SPEED
        &&& in_field(self.ball_y as int) || in_field(self.ball_y + self.ball_vel_y)
        &&& 0 <= self.key_release_timer < KEY_RELEASE_DELAY
    }

    /// The state with the key `w` set to `pressed`. A press restarts the
    /// release timer.
    pub open spec fn with_key_w(self, pressed: bool) -> GameState {
        GameState {
            key_w_pressed: pressed,
            key_release_timer: if pressed {
                0
            } else {
                self.key_release_timer
            },
            ..self
        }
    }

    /// The state with the key `s` set to `pressed`. A press restarts the
    /// release timer.
    pub open spec fn with_key_s(self, pressed: bool) -> GameState {
        GameState {
            key_s_pressed: pressed,
            key_release_timer: if pressed {
                0
            } else {
                self.key_release_timer
            },
            ..self
        }
    }

    /// The state with the match active.
    pub open spec fn started(self) -> GameState {
        GameState { game_active: true, ..self }
    }

    /// The state after one move up of the left paddle, which only moves
    /// while the match is active.
    pub open spec fn left_up(self) -> GameState {
        if self.game_active {
            GameState { left_paddle_y: paddle_up(self.left_paddle_y as int) as i32, ..self }
        } else {
            self
        }
    }

    /// The state after one move down of the left paddle, which only moves
    /// while the match is active.
    pub open spec fn left_down(self) -> GameState {
        if self.game_active {
            GameState { left_paddle_y: paddle_down(self.left_paddle_y as int) as i32, ..self }
        } else {
            self
        }
    }

    /// First part of a tick: the release timer counts one tick, and on
    /// reaching its threshold lets go of both keys and starts again.
    pub open spec fn auto_release(self) -> GameState {
        if self.key_release_timer + 1 >= KEY_RELEASE_DELAY {
            GameState { key_release_timer: 0, key_w_pressed: false, key_s_pressed: false, ..self }
        } else {
            GameState { key_release_timer: (self.key_release_timer + 1) as i32, ..self }
        }
    }

    /// Second part of a tick: the left paddle follows the keys that are
    /// held, up first and then down.
    pub open spec fn left_paddle_step(self) -> GameState {
        let lifted = if self.key_w_pressed {
            self.left_up()
        } else {
            self
        };
        if lifted.key_s_pressed {
            lifted.left_down()
        } else {
            lifted
        }
    }

    /// Third part of a tick: the right paddle moves three pixels the way it
    /// is heading, and turns round in the tick in which it reaches an edge.
    pub open spec fn right_paddle_step(self) -> GameState {
        match self.right_paddle_direction {
            Direction::Down => if self.right_paddle_y < PADDLE_MAX_Y - RIGHT_PADDLE_SPEED {
                GameState {
                    right_paddle_y: (self.right_paddle_y + RIGHT_PADDLE_SPEED) as i32,
                    ..self
                }
            } else {
                GameState {
                    right_paddle_y: PADDLE_MAX_Y,
                    right_paddle_direction: Direction::Up,
                    ..self
                }
            },
            Direction::Up => if self.right_paddle_y > RIGHT_PADDLE_SPEED {
                GameState {
                    right_paddle_y: (self.right_paddle_y - RIGHT_PADDLE_SPEED) as i32,
                    ..self
                }
            } else {
                GameState { right_paddle_y: 0, right_paddle_direction: Direction::Down, ..self }
            },
        }
    }

    /// Height of the ball after one step of flight.
    pub open spec fn flown_y(self) -> int {
        self.ball_y + self.ball_vel_y
    }

    /// Vertical velocity after one step of flight: turned round where the
    /// ball has reached a wall.
    pub open spec fn flown_vel_y(self) -> int {
        if hits_wall(self.flown_y()) {
            -self.ball_vel_y
        } else {
            self.ball_vel_y as int
        }
    }

    /// The ball meets the left paddle in this step of flight.
    pub open spec fn meets_left_paddle(self) -> bool {
        hits_left_paddle(self.ball_x + self.ball_vel_x, self.flown_y(), self.left_paddle_y as int)
    }

    /// Horizontal place and velocity of the ball once the left paddle has
    /// had its turn.
    pub open spec fn past_left_paddle(self) -> (int, int) {
        if self.meets_left_paddle() {
            (LEFT_PADDLE_FACE as int, bounce(self.ball_vel_x as int))
        } else {
            (self.ball_x + self.ball_vel_x, self.ball_vel_x as int)
        }
    }

    /// The ball, as the left paddle left it, meets the right paddle.
    pub open spec fn meets_right_paddle(self) -> bool {
        hits_right_paddle(self.past_left_paddle().0, self.flown_y(), self.right_paddle_y as int)
    }

    /// Horizontal place of the ball after one step of flight and both
    /// paddles: put against the face of a paddle that it met.
    pub open spec fn flown_x(self) -> int {
        if self.meets_right_paddle() {
            RIGHT_PADDLE_FACE - BALL_SIZE
        } else {
            self.past_left_paddle().0
        }
    }

    /// Horizontal velocity of the ball after one step of flight and both
    /// paddles.
    pub open spec fn flown_vel_x(self) -> int {
        if self.meets_right_paddle() {
            bounce(self.past_left_paddle().1)
        } else {
            self.past_left_paddle().1
        }
    }

    /// The state with a new ball in the centre, served away from where the
    /// ball of this state was heading.
    pub open spec fn with_new_ball(self) -> GameState {
        GameState {
            ball_x: BALL_START_X,
            ball_y: BALL_START_Y,
            ball_vel_x: serve_velocity(self.ball_vel_x as int) as i32,
            ball_vel_y: INITIAL_BALL_SPEED_Y,
            ..self
        }
    }

    /// Last part of a tick: the ball flies one step, turns at walls and
    /// paddles, and is replaced by a new one, with a point for the other
    /// side, where it has reached a goal line.
    pub open spec fn ball_step(self) -> GameState {
        if self.flown_x() <= 0 {
            GameState { right_score: next_score(self.right_score), ..self.with_new_ball() }
        } else if self.flown_x() >= BALL_MAX_X {
            GameState { left_score: next_score(self.left_score), ..self.with_new_ball() }
        } else {
            GameState {
                ball_x: self.flown_x() as i32,
                ball_y: self.flown_y() as i32,
                ball_vel_x: self.flown_vel_x() as i32,
                ball_vel_y: self.flown_vel_y() as i32,
                ..self
            }
        }
    }

    /// The state in which the ball takes its step: this state after the
    /// release timer and both paddles have had theirs.
    pub open spec fn before_ball_step(self) -> GameState {
        self.auto_release().left_paddle_step().right_paddle_step()
    }

    /// The state one tick later. An inactive match stands still.
    pub open spec fn tick(self) -> GameState {
        if self.game_active {
            self.before_ball_step().ball_step()
        } else {
            self
        }
    }

    /// What the step of the ball from this state reports.
    pub open spec fn ball_outcome(self) -> TickOutcome {
        if self.flown_x() <= 0 {
            TickOutcome::RightScored
        } else if self.flown_x() >= BALL_MAX_X {
            TickOutcome::LeftScored
        } else {
            TickOutcome::Advanced
        }
    }

    /// What the tick from this state reports.
    pub open spec fn tick_outcome(self) -> TickOutcome {
        if self.game_active {
            self.before_ball_step().ball_outcome()
        } else {
            TickOutcome::Idle
        }
    }

    /// The state `n` ticks later.
    pub open spec fn ticks(self, n: nat) -> GameState
        decreases n,
    {
        if n == 0 {
            self
        } else {
            self.ticks((n - 1) as nat).tick()
        }
    }

    /// The state after `n` moves up of the left paddle.
    pub open spec fn left_up_times(self, n: nat) -> GameState
        decreases n,
    {
        if n == 0 {
            self
        } else {
            self.left_up_times((n - 1) as nat).left_up()
        }
    }

    /// The state after `n` moves down of the left paddle.
    pub open spec fn left_down_times(self, n: nat) -> GameState
        decreases n,
    {
        if n == 0 {
            self
        } else {
            self.left_down_times((n - 1) as nat).left_down()
        }
    }

    /// The state before the first serve: the starting layout, not yet active.
    pub fn new() -> (state: GameState)
        ensures
            state == (GameState { game_active: false, ..GameState::starting_layout() }),
            state.wf(),
    {
        GameState {
            left_paddle_y: PADDLE_START_Y,
            right_paddle_y: PADDLE_START_Y,
            ball_x: BALL_START_X,
            ball_y: BALL_START_Y,
            ball_vel_x: INITIAL_BALL_SPEED_X,
            ball_vel_y: INITIAL_BALL_SPEED_Y,
            left_score: 0,
            right_score: 0,
            game_active: false,
            key_w_pressed: false,
            key_s_pressed: false,
            key_release_timer: 0,
            right_paddle_direction: Direction::Down,
        }
    }

    /// Tells whether the state is legal.
    pub fn is_wf(&self) -> (legal: bool)
        ensures
            legal == self.wf(),
    {
        0 <= self.left_paddle_y && self.left_paddle_y <= PADDLE_MAX_Y && 0 <= self.right_paddle_y
            && self.right_paddle_y <= PADDLE_MAX_Y && 0 < self.ball_x && self.ball_x < BALL_MAX_X
            && -MAX_BALL_SPEED <= self.ball_vel_x && self.ball_vel_x <= MAX_BALL_SPEED
            && -MAX_BALL_SPEED <= self.ball_vel_y && self.ball_vel_y <= MAX_BALL_SPEED && ((0
            < self.ball_y && self.ball_y < BALL_MAX_Y) || (-MAX_BALL_SPEED < self.ball_y
            && self.ball_y < BALL_MAX_Y + MAX_BALL_SPEED && 0 < self.ball_y + self.ball_vel_y
            && self.ball_y + self.ball_vel_y < BALL_MAX_Y)) && 0 <= self.key_release_timer
            && self.key_release_timer < KEY_RELEASE_DELAY
    }
}

/// Puts the match into its starting layout, whatever went before: paddles
/// and ball centred, no points, the match active.
pub fn init_game(state: &mut GameState)
    ensures
        *final(state) == GameState::starting_layout(),
        final(state).left_paddle_y == (SCREEN_HEIGHT - PADDLE_HEIGHT) / 2,
        final(state).right_paddle_y == (SCREEN_HEIGHT - PADDLE_HEIGHT) / 2,
        final(state).ball_x == (SCREEN_WIDTH - BALL_SIZE) / 2,
        final(state).ball_y == (SCREEN_HEIGHT - BALL_SIZE) / 2,
        final(state).left_score == 0 && final(state).right_score == 0,
        final(state).game_active,
        final(state).wf(),
{
    state.left_paddle_y = PADDLE_START_Y;
    state.right_paddle_y = PADDLE_START_Y;
    state.ball_x = BALL_START_X;
    state.ball_y = BALL_START_Y;
    state.ball_vel_x = INITIAL_BALL_SPEED_X;
    state.ball_vel_y = INITIAL_BALL_SPEED_Y;
    state.left_score = 0;
    state.right_score = 0;
    state.game_active = true;
    state.key_w_pressed = false;
    state.key_s_pressed = false;
    state.key_release_timer = 0;
    state.right_paddle_direction = Direction::Down;
}

/// Records that the key for moving up is pressed or released.
pub fn set_key_w(state: &mut GameState, pressed: bool)
    ensures
        *final(state) == old(state).with_key_w(pressed),
        old(state).wf() ==> final(state).wf(),
{
    state.key_w_pressed = pressed;
    if pressed {
        state.key_release_timer = 0;
    }
}

/// Records that the key for moving down is pressed or released.
pub fn set_key_s(state: &mut GameState, pressed: bool)
    ensures
        *final(state) == old(state).with_key_s(pressed),
        old(state).wf() ==> final(state).wf(),
{
    state.key_s_pressed = pressed;
    if pressed {
        state.key_release_timer = 0;
    }
}

/// Makes the match active.
pub fn start_game(state: &mut GameState)
    ensures
        *final(state) == old(state).started(),
        old(state).wf() ==> final(state).wf(),
{
    state.game_active = true;
}

/// Moves the left paddle up by one step, as far as the top of the screen.
pub fn move_left_paddle_up(state: &mut GameState)
    ensures
        *final(state) == old(state).left_up(),
        old(state).wf() ==> final(state).wf(),
{
    if state.game_active {
        let current: i32 = state.left_paddle_y;
        if current > PADDLE_SPEED {
            state.left_paddle_y = current - PADDLE_SPEED;
        } else {
            state.left_paddle_y = 0;
        }
    }
}

/// Moves the left paddle down by one step, as far as the bottom of the
/// screen.
pub fn move_left_paddle_down(state: &mut GameState)
    ensures
        *final(state) == old(state).left_down(),
        old(state).wf() ==> final(state).wf(),
{
    if state.game_active {
        let current: i32 = state.left_paddle_y;
        if current < PADDLE_MAX_Y - PADDLE_SPEED {
            state.left_paddle_y = current + PADDLE_SPEED;
        } else {
            state.left_paddle_y = PADDLE_MAX_Y;
        }
    }
}

/// Adds `delta` to a counter, wrapping round at the ends of its range, and
/// returns what the counter held before.
pub fn fetch_add(counter: &mut i32, delta: i32) -> (previous: i32)
    ensures
        previous == *old(counter),
        *final(counter) == vstd::wrapping::i32_specs::wrapping_add(*old(counter), delta),
{
    let previous: i32 = *counter;
    *counter = previous.wrapping_add(delta);
    previous
}

/// Puts a new ball into the centre, served away from where the last one was
/// heading.
pub fn reset_ball(state: &mut GameState)
    ensures
        *final(state) == old(state).with_new_ball(),
{
    state.ball_x = BALL_START_X;
    state.ball_y = BALL_START_Y;
    state.ball_vel_x = if state.ball_vel_x < 0 {
        INITIAL_BALL_SPEED_X
    } else {
        -INITIAL_BALL_SPEED_X
    };
    state.ball_vel_y = INITIAL_BALL_SPEED_Y;
}

/// Counts one tick on the release timer and, when the timer reaches the
/// delay, lets go of both movement keys and starts the timer again.
pub fn release_stale_keys(state: &mut GameState)
    ensures
        *final(state) == old(state).auto_release(),
{
    let timer: i32 = fetch_add(&mut state.key_release_timer, 1);
    if timer >= KEY_RELEASE_DELAY - 1 {
        state.key_release_timer = 0;
        state.key_w_pressed = false;
        state.key_s_pressed = false;
    }
}

/// Moves the right paddle by one step the way it is heading, and turns it
/// round when the step ends at the top or the bottom of the screen.
pub fn move_right_paddle(state: &mut GameState)
    ensures
        *final(state) == old(state).right_paddle_step(),
{
    let right_paddle_y: i32 = state.right_paddle_y;
    match state.right_paddle_direction {
        Direction::Down => {
            if right_paddle_y < PADDLE_MAX_Y - RIGHT_PADDLE_SPEED {
                state.right_paddle_y = right_paddle_y + RIGHT_PADDLE_SPEED;
            } else {
                state.right_paddle_y = PADDLE_MAX_Y;
                state.right_paddle_direction = Direction::Up;
            }
        },
        Direction::Up => {
            if right_paddle_y > RIGHT_PADDLE_SPEED {
                state.right_paddle_y = right_paddle_y - RIGHT_PADDLE_SPEED;
            } else {
                state.right_paddle_y = 0;
                state.right_paddle_direction = Direction::Down;
            }
        },
    }
}

/// Lets the ball fly one step: it turns at the walls and at a paddle that
/// it meets, and where it has reached a goal line the other side gets a
/// point and a new ball is served.
pub fn move_ball(state: &mut GameState) -> (outcome: TickOutcome)
    requires
        old(state).wf(),
    ensures
        *final(state) == old(state).ball_step(),
        outcome == old(state).ball_outcome(),
        final(state).wf(),
{
    let mut ball_x: i32 = state.ball_x + state.ball_vel_x;
    let ball_y: i32 = state.ball_y + state.ball_vel_y;
    let mut vel_x: i32 = state.ball_vel_x;
    let mut vel_y: i32 = state.ball_vel_y;

    if ball_y <= 0 || ball_y >= BALL_MAX_Y {
        vel_y = -vel_y;
    }
    if ball_x <= LEFT_PADDLE_FACE && ball_x + BALL_SIZE >= PADDLE_OFFSET && ball_y + BALL_SIZE
        >= state.left_paddle_y && ball_y <= state.left_paddle_y + PADDLE_HEIGHT {
        ball_x = LEFT_PADDLE_FACE;
        vel_x = -vel_x;
        if vel_x < 0 {
            vel_x = vel_x - 1;
        } else {
            vel_x = vel_x + 1;
        }
    }
    assert((ball_x as int, vel_x as int) == old(state).past_left_paddle());
    if ball_x <= RIGHT_PADDLE_BACK && ball_x + BALL_SIZE >= RIGHT_PADDLE_FACE && ball_y + BALL_SIZE
        >= state.right_paddle_y && ball_y <= state.right_paddle_y + PADDLE_HEIGHT {
        ball_x = RIGHT_PADDLE_FACE - BALL_SIZE;
        vel_x = -vel_x;
        if vel_x < 0 {
            vel_x = vel_x - 1;
        } else {
            vel_x = vel_x + 1;
        }
    }
    assert(ball_x == old(state).flown_x());
    assert(vel_x == old(state).flown_vel_x());

    if ball_x <= 0 {
        fetch_add(&mut state.right_score, 1);
        reset_ball(state);
        return TickOutcome::RightScored;
    }
    if ball_x >= BALL_MAX_X {
        fetch_add(&mut state.left_score, 1);
        reset_ball(state);
        return TickOutcome::LeftScored;
    }
    state.ball_x = ball_x;
    state.ball_y = ball_y;
    state.ball_vel_x = vel_x;
    state.ball_vel_y = vel_y;
    TickOutcome::Advanced
}

/// Advances the match by one tick and reports what has to be painted. An
/// inactive match stands still. In an active one the release timer counts,
/// the left paddle follows its keys, the right paddle makes its step, and
/// the ball flies.
pub fn update_game(state: &mut GameState) -> (outcome: TickOutcome)
    requires
        old(state).wf(),
    ensures
        *final(state) == old(state).tick(),
        outcome == old(state).tick_outcome(),
        final(state).wf(),
{
    if !state.game_active {
        return TickOutcome::Idle;
    }
    release_stale_keys(state);
    if state.key_w_pressed {
        move_left_paddle_up(state);
    }
    if state.key_s_pressed {
        move_left_paddle_down(state);
    }
    assert(*state == old(state).auto_release().left_paddle_step());
    move_right_paddle(state);
    proof {
        lemma_paddles_keep_wf(*old(state));
    }
    move_ball(state)
}

/// The timer and the paddles keep a legal state legal, and leave the ball
/// and the activity of the match alone.
pub proof fn lemma_paddles_keep_wf(state: GameState)
    requires
        state.wf(),
        state.game_active,
    ensures
        state.before_ball_step().wf(),
        state.before_ball_step().game_active,
        state.before_ball_step().ball_x == state.ball_x,
        state.before_ball_step().ball_y == state.ball_y,
        state.before_ball_step().ball_vel_x == state.ball_vel_x,
        state.before_ball_step().ball_vel_y == state.ball_vel_y,
{
}

/// A step of the ball keeps a legal state legal: a ball that a paddle
/// turned is no faster than the field is wide, and a ball that a wall
/// turned is on its way back into the field.
pub proof fn lemma_ball_step_wf(state: GameState)
    requires
        state.wf(),
    ensures
        state.ball_step().wf(),
        state.ball_step().game_active == state.game_active,
{
}

/// A tick keeps a legal state legal.
pub proof fn lemma_tick_wf(state: GameState)
    requires
        state.wf(),
    ensures
        state.tick().wf(),
        state.tick().game_active == state.game_active,
{
    if state.game_active {
        lemma_paddles_keep_wf(state);
        lemma_ball_step_wf(state.before_ball_step());
    }
}

/// Any number of ticks keeps a legal state legal: the paddles never leave
/// the screen, and a match that is active stays active.
pub proof fn lemma_ticks_wf(state: GameState, n: nat)
    requires
        state.wf(),
    ensures
        state.ticks(n).wf(),
        0 <= state.ticks(n).left_paddle_y <= SCREEN_HEIGHT - PADDLE_HEIGHT,
        0 <= state.ticks(n).right_paddle_y <= SCREEN_HEIGHT - PADDLE_HEIGHT,
        state.ticks(n).game_active == state.game_active,
    decreases n,
{
    if n > 0 {
        lemma_ticks_wf(state, (n - 1) as nat);
        lemma_tick_wf(state.ticks((n - 1) as nat));
    }
}

/// However often the left paddle is moved up, it does not rise above the top
/// of the screen, and from the top it does not move at all.
pub proof fn lemma_sustained_move_up(state: GameState, n: nat)
    requires
        0 <= state.left_paddle_y,
    ensures
        0 <= state.left_up_times(n).left_paddle_y <= state.left_paddle_y,
        state.left_paddle_y == 0 ==> state.left_up_times(n).left_paddle_y == 0,
    decreases n,
{
    if n > 0 {
        lemma_sustained_move_up(state, (n - 1) as nat);
    }
}

/// However often the left paddle is moved down, it does not sink below its
/// lowest place, and from there it does not move at all.
pub proof fn lemma_sustained_move_down(state: GameState, n: nat)
    requires
        state.left_paddle_y <= SCREEN_HEIGHT - PADDLE_HEIGHT,
    ensures
        state.left_paddle_y <= state.left_down_times(n).left_paddle_y <= SCREEN_HEIGHT
            - PADDLE_HEIGHT,
        state.left_paddle_y == SCREEN_HEIGHT - PADDLE_HEIGHT ==> state.left_down_times(
            n,
        ).left_paddle_y == SCREEN_HEIGHT - PADDLE_HEIGHT,
    decreases n,
{
    if n > 0 {
        lemma_sustained_move_down(state, (n - 1) as nat);
    }
}

/// While the match is active, a tick that does not lift the keys leaves
/// them as they were and counts on; the tick on which the timer reaches the
/// delay lifts both.
pub proof fn lemma_tick_keys(state: GameState)
    requires
        state.wf(),
        state.game_active,
    ensures
        state.key_release_timer + 1 < KEY_RELEASE_DELAY ==> {
            &&& state.tick().key_release_timer == state.key_release_timer + 1
            &&& state.tick().key_w_pressed == state.key_w_pressed
            &&& state.tick().key_s_pressed == state.key_s_pressed
        },
        state.key_release_timer + 1 >= KEY_RELEASE_DELAY ==> {
            &&& state.tick().key_release_timer == 0
            &&& !state.tick().key_w_pressed
            &&& !state.tick().key_s_pressed
        },
{
}

/// A key that was pressed and is not pressed again stays down for the next
/// `KEY_RELEASE_DELAY - 1` ticks of an active match and is up after the
/// tick that follows them.
pub proof fn lemma_auto_release(state: GameState, n: nat)
    requires
        state.wf(),
        state.game_active,
        state.key_release_timer == 0,
        n <= KEY_RELEASE_DELAY,
    ensures
        n < KEY_RELEASE_DELAY ==> {
            &&& state.ticks(n).key_release_timer == n
            &&& state.ticks(n).key_w_pressed == state.key_w_pressed
            &&& state.ticks(n).key_s_pressed == state.key_s_pressed
        },
        n == KEY_RELEASE_DELAY ==> {
            &&& state.ticks(n).key_release_timer == 0
            &&& !state.ticks(n).key_w_pressed
            &&& !state.ticks(n).key_s_pressed
        },
    decreases n,
{
    if n > 0 {
        let before = (n - 1) as nat;
        lemma_auto_release(state, before);
        lemma_ticks_wf(state, before);
        lemma_tick_keys(state.ticks(before));
    }
}

} // verus!
