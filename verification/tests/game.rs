use pong_kernel::pong::{
    fetch_add, init_game, move_ball, move_left_paddle_down, move_left_paddle_up,
    move_right_paddle, release_stale_keys, reset_ball, set_key_s, set_key_w, start_game,
    update_game, Direction, GameState, TickOutcome, BALL_SIZE, KEY_RELEASE_DELAY, PADDLE_HEIGHT,
    SCREEN_HEIGHT, SCREEN_WIDTH,
};

fn fresh() -> GameState {
    let mut state = GameState::new();
    init_game(&mut state);
    state
}

fn with_ball(x: i32, y: i32, vel_x: i32, vel_y: i32) -> GameState {
    let mut state = fresh();
    state.ball_x = x;
    state.ball_y = y;
    state.ball_vel_x = vel_x;
    state.ball_vel_y = vel_y;
    state
}

#[test]
fn new_match_is_idle_in_the_starting_layout() {
    let state = GameState::new();
    assert!(!state.game_active);
    let mut active = state;
    active.game_active = true;
    assert_eq!(active, fresh());
    assert!(state.is_wf());
}

#[test]
fn reset_centres_everything() {
    let mut state = GameState {
        left_paddle_y: 3,
        right_paddle_y: 400,
        ball_x: 17,
        ball_y: 460,
        ball_vel_x: -40,
        ball_vel_y: -2,
        left_score: 12,
        right_score: 7,
        game_active: false,
        key_w_pressed: true,
        key_s_pressed: true,
        key_release_timer: 4,
        right_paddle_direction: Direction::Up,
    };
    init_game(&mut state);
    assert_eq!(state.left_paddle_y, (SCREEN_HEIGHT - PADDLE_HEIGHT) / 2);
    assert_eq!(state.right_paddle_y, (SCREEN_HEIGHT - PADDLE_HEIGHT) / 2);
    assert_eq!(state.ball_x, (SCREEN_WIDTH - BALL_SIZE) / 2);
    assert_eq!(state.ball_y, (SCREEN_HEIGHT - BALL_SIZE) / 2);
    assert_eq!((state.left_score, state.right_score), (0, 0));
    assert!(state.game_active);
    assert_eq!(
        state,
        GameState {
            left_paddle_y: 210,
            right_paddle_y: 210,
            ball_x: 315,
            ball_y: 235,
            ball_vel_x: 2,
            ball_vel_y: 2,
            left_score: 0,
            right_score: 0,
            game_active: true,
            key_w_pressed: false,
            key_s_pressed: false,
            key_release_timer: 0,
            right_paddle_direction: Direction::Down,
        }
    );
}

#[test]
fn reset_from_an_illegal_state_is_legal() {
    let mut state = fresh();
    state.ball_x = -5000;
    state.key_release_timer = 99;
    assert!(!state.is_wf());
    init_game(&mut state);
    assert!(state.is_wf());
}

#[test]
fn set_key_w_stores_the_flag() {
    let mut state = fresh();
    state.key_release_timer = 3;
    set_key_w(&mut state, true);
    assert!(state.key_w_pressed);
    assert_eq!(state.key_release_timer, 0);
    state.key_release_timer = 2;
    set_key_w(&mut state, false);
    assert!(!state.key_w_pressed);
    assert_eq!(state.key_release_timer, 2);
}

#[test]
fn set_key_s_stores_the_flag() {
    let mut state = fresh();
    state.key_release_timer = 4;
    set_key_s(&mut state, true);
    assert!(state.key_s_pressed);
    assert!(!state.key_w_pressed);
    assert_eq!(state.key_release_timer, 0);
    state.key_release_timer = 1;
    set_key_s(&mut state, false);
    assert!(!state.key_s_pressed);
    assert_eq!(state.key_release_timer, 1);
}

#[test]
fn start_game_only_sets_the_flag() {
    let mut state = GameState::new();
    state.left_score = 4;
    state.ball_x = 99;
    start_game(&mut state);
    let mut expected = GameState::new();
    expected.left_score = 4;
    expected.ball_x = 99;
    expected.game_active = true;
    assert_eq!(state, expected);
}

#[test]
fn paddle_moves_up_by_five() {
    let mut state = fresh();
    move_left_paddle_up(&mut state);
    assert_eq!(state.left_paddle_y, 205);
    state.left_paddle_y = 6;
    move_left_paddle_up(&mut state);
    assert_eq!(state.left_paddle_y, 1);
    move_left_paddle_up(&mut state);
    assert_eq!(state.left_paddle_y, 0);
    state.left_paddle_y = 5;
    move_left_paddle_up(&mut state);
    assert_eq!(state.left_paddle_y, 0);
}

#[test]
fn paddle_moves_down_by_five() {
    let mut state = fresh();
    move_left_paddle_down(&mut state);
    assert_eq!(state.left_paddle_y, 215);
    state.left_paddle_y = 414;
    move_left_paddle_down(&mut state);
    assert_eq!(state.left_paddle_y, 419);
    move_left_paddle_down(&mut state);
    assert_eq!(state.left_paddle_y, 420);
    state.left_paddle_y = 415;
    move_left_paddle_down(&mut state);
    assert_eq!(state.left_paddle_y, 420);
}

#[test]
fn sustained_move_up_stays_at_the_top() {
    let mut state = fresh();
    state.left_paddle_y = 0;
    for _ in 0..100 {
        move_left_paddle_up(&mut state);
        assert_eq!(state.left_paddle_y, 0);
    }
    let mut state = fresh();
    for _ in 0..100 {
        set_key_w(&mut state, true);
        update_game(&mut state);
        assert!(state.left_paddle_y >= 0);
    }
    assert_eq!(state.left_paddle_y, 0);
}

#[test]
fn sustained_move_down_stays_at_the_bottom() {
    let mut state = fresh();
    state.left_paddle_y = SCREEN_HEIGHT - PADDLE_HEIGHT;
    for _ in 0..100 {
        move_left_paddle_down(&mut state);
        assert_eq!(state.left_paddle_y, SCREEN_HEIGHT - PADDLE_HEIGHT);
    }
    let mut state = fresh();
    for _ in 0..100 {
        set_key_s(&mut state, true);
        update_game(&mut state);
        assert!(state.left_paddle_y <= SCREEN_HEIGHT - PADDLE_HEIGHT);
    }
    assert_eq!(state.left_paddle_y, 420);
}

#[test]
fn paddle_of_an_idle_match_does_not_move() {
    let mut state = GameState::new();
    move_left_paddle_up(&mut state);
    assert_eq!(state, GameState::new());
    move_left_paddle_down(&mut state);
    assert_eq!(state, GameState::new());
}

#[test]
fn tick_of_an_idle_match_does_nothing() {
    let mut state = GameState::new();
    state.key_w_pressed = true;
    let before = state;
    assert_eq!(update_game(&mut state), TickOutcome::Idle);
    assert_eq!(state, before);
}

#[test]
fn first_tick_from_the_starting_layout() {
    let mut state = fresh();
    assert_eq!(update_game(&mut state), TickOutcome::Advanced);
    assert_eq!(
        state,
        GameState {
            left_paddle_y: 210,
            right_paddle_y: 213,
            ball_x: 317,
            ball_y: 237,
            ball_vel_x: 2,
            ball_vel_y: 2,
            left_score: 0,
            right_score: 0,
            game_active: true,
            key_w_pressed: false,
            key_s_pressed: false,
            key_release_timer: 1,
            right_paddle_direction: Direction::Down,
        }
    );
}

#[test]
fn left_paddle_turns_the_ball() {
    let mut state = with_ball(15, 240, -2, 0);
    state.left_paddle_y = 210;
    assert_eq!(update_game(&mut state), TickOutcome::Advanced);
    assert_eq!(state.ball_x, 30);
    assert_eq!(state.ball_vel_x, 3);
    assert_eq!(state.ball_y, 240);
    assert_eq!(state.ball_vel_y, 0);
    assert_eq!((state.left_score, state.right_score), (0, 0));
}

#[test]
fn ball_past_the_left_edge_scores_for_the_right() {
    let mut state = with_ball(2, 240, -3, 0);
    assert_eq!(update_game(&mut state), TickOutcome::RightScored);
    assert_eq!((state.left_score, state.right_score), (0, 1));
    assert_eq!((state.ball_x, state.ball_y), (315, 235));
    assert_eq!(state.ball_vel_x, 2);
    assert_eq!(state.ball_vel_y, 2);
    assert!(state.game_active);
    assert_eq!(state.right_paddle_y, 213);
    assert_eq!(state.key_release_timer, 1);
}

#[test]
fn ball_past_the_right_edge_scores_for_the_left() {
    let mut state = with_ball(627, 100, 5, -2);
    state.right_paddle_y = 300;
    assert_eq!(update_game(&mut state), TickOutcome::LeftScored);
    assert_eq!((state.left_score, state.right_score), (1, 0));
    assert_eq!((state.ball_x, state.ball_y), (315, 235));
    assert_eq!((state.ball_vel_x, state.ball_vel_y), (-2, 2));
}

#[test]
fn ball_on_the_goal_line_scores() {
    let mut state = with_ball(3, 400, -3, 0);
    assert_eq!(update_game(&mut state), TickOutcome::RightScored);
    let mut state = with_ball(625, 400, 5, 0);
    assert_eq!(update_game(&mut state), TickOutcome::LeftScored);
    let mut state = with_ball(4, 400, -3, 0);
    assert_eq!(update_game(&mut state), TickOutcome::Advanced);
    assert_eq!(state.ball_x, 1);
}

#[test]
fn ball_that_stood_still_is_served_to_the_left() {
    let mut state = with_ball(100, 100, 0, 0);
    reset_ball(&mut state);
    assert_eq!((state.ball_x, state.ball_y), (315, 235));
    assert_eq!((state.ball_vel_x, state.ball_vel_y), (-2, 2));
}

#[test]
fn right_paddle_turns_the_ball() {
    let mut state = with_ball(597, 200, 4, 2);
    state.right_paddle_y = 180;
    assert_eq!(update_game(&mut state), TickOutcome::Advanced);
    assert_eq!(state.ball_x, 600);
    assert_eq!(state.ball_vel_x, -5);
    assert_eq!(state.ball_y, 202);
    assert_eq!(state.ball_vel_y, 2);
}

#[test]
fn paddle_is_met_where_the_extents_touch() {
    // The ball's right edge reaches the back of the left paddle.
    let mut state = with_ball(12, 240, -2, 0);
    update_game(&mut state);
    assert_eq!((state.ball_x, state.ball_vel_x), (30, 3));
    // One pixel further left it has passed.
    let mut state = with_ball(11, 240, -2, 0);
    update_game(&mut state);
    assert_eq!((state.ball_x, state.ball_vel_x), (9, -2));
    // The ball's bottom edge reaches the top of the paddle.
    let mut state = with_ball(33, 198, -3, 2);
    update_game(&mut state);
    assert_eq!((state.ball_x, state.ball_vel_x), (30, 4));
    // One pixel higher it flies over the paddle.
    let mut state = with_ball(33, 197, -3, 2);
    update_game(&mut state);
    assert_eq!((state.ball_x, state.ball_vel_x), (30, -3));
}

#[test]
fn right_paddle_is_met_where_it_stands_after_its_move() {
    // The paddle moves from 210 to 213; a ball whose bottom edge is at 212
    // passes above it.
    let mut state = with_ball(600, 200, 5, 2);
    state.right_paddle_y = 210;
    state.right_paddle_direction = Direction::Down;
    update_game(&mut state);
    assert_eq!(state.right_paddle_y, 213);
    assert_eq!((state.ball_x, state.ball_y), (605, 202));
    assert_eq!(state.ball_vel_x, 5);
}

#[test]
fn left_paddle_is_met_where_it_stands_after_its_move() {
    let mut state = with_ball(33, 140, -3, 0);
    state.left_paddle_y = 155;
    set_key_w(&mut state, true);
    update_game(&mut state);
    assert_eq!(state.left_paddle_y, 150);
    assert_eq!((state.ball_x, state.ball_vel_x), (30, 4));
}

#[test]
fn walls_turn_the_ball_without_moving_it() {
    let mut state = with_ball(300, 1, 0, -2);
    update_game(&mut state);
    assert_eq!((state.ball_y, state.ball_vel_y), (-1, 2));
    update_game(&mut state);
    assert_eq!((state.ball_y, state.ball_vel_y), (1, 2));
    let mut state = with_ball(300, 469, 0, 2);
    update_game(&mut state);
    assert_eq!((state.ball_y, state.ball_vel_y), (471, -2));
    update_game(&mut state);
    assert_eq!((state.ball_y, state.ball_vel_y), (469, -2));
    let mut state = with_ball(300, 2, 0, -2);
    update_game(&mut state);
    assert_eq!((state.ball_y, state.ball_vel_y), (0, 2));
    let mut state = with_ball(300, 468, 0, 2);
    update_game(&mut state);
    assert_eq!((state.ball_y, state.ball_vel_y), (470, -2));
}

#[test]
fn right_paddle_oscillates() {
    let mut state = with_ball(300, 100, 0, 0);
    state.right_paddle_y = 414;
    update_game(&mut state);
    assert_eq!((state.right_paddle_y, state.right_paddle_direction), (417, Direction::Down));
    update_game(&mut state);
    assert_eq!((state.right_paddle_y, state.right_paddle_direction), (420, Direction::Up));
    update_game(&mut state);
    assert_eq!((state.right_paddle_y, state.right_paddle_direction), (417, Direction::Up));
    state.right_paddle_y = 5;
    update_game(&mut state);
    assert_eq!((state.right_paddle_y, state.right_paddle_direction), (2, Direction::Up));
    update_game(&mut state);
    assert_eq!((state.right_paddle_y, state.right_paddle_direction), (0, Direction::Down));
    update_game(&mut state);
    assert_eq!((state.right_paddle_y, state.right_paddle_direction), (3, Direction::Down));
}

#[test]
fn right_paddle_turns_on_the_tick_that_reaches_the_edge() {
    let mut state = with_ball(300, 100, 0, 0);
    state.right_paddle_y = 416;
    update_game(&mut state);
    assert_eq!((state.right_paddle_y, state.right_paddle_direction), (419, Direction::Down));
    update_game(&mut state);
    assert_eq!((state.right_paddle_y, state.right_paddle_direction), (420, Direction::Up));
    state.right_paddle_y = 3;
    update_game(&mut state);
    assert_eq!((state.right_paddle_y, state.right_paddle_direction), (0, Direction::Down));
}

#[test]
fn with_both_keys_down_the_paddle_goes_up_and_then_down() {
    let mut state = with_ball(300, 100, 0, 0);
    set_key_w(&mut state, true);
    set_key_s(&mut state, true);
    update_game(&mut state);
    assert_eq!(state.left_paddle_y, 210);
    state.left_paddle_y = 2;
    update_game(&mut state);
    assert_eq!(state.left_paddle_y, 5);
    state.left_paddle_y = 418;
    update_game(&mut state);
    assert_eq!(state.left_paddle_y, 418);
    state.left_paddle_y = 419;
    update_game(&mut state);
    assert_eq!(state.left_paddle_y, 419);
}

#[test]
fn key_is_released_by_exactly_the_fifth_tick() {
    let mut state = with_ball(300, 100, 0, 0);
    set_key_w(&mut state, true);
    for tick in 1..KEY_RELEASE_DELAY {
        update_game(&mut state);
        assert!(state.key_w_pressed);
        assert_eq!(state.key_release_timer, tick);
        assert_eq!(state.left_paddle_y, 210 - 5 * tick);
    }
    update_game(&mut state);
    assert!(!state.key_w_pressed);
    assert_eq!(state.key_release_timer, 0);
    assert_eq!(state.left_paddle_y, 190);
}

#[test]
fn release_timer_lifts_both_keys() {
    let mut state = with_ball(300, 100, 0, 0);
    set_key_s(&mut state, true);
    update_game(&mut state);
    update_game(&mut state);
    state.key_w_pressed = true;
    update_game(&mut state);
    update_game(&mut state);
    assert!(state.key_w_pressed && state.key_s_pressed);
    update_game(&mut state);
    assert!(!state.key_w_pressed && !state.key_s_pressed);
}

#[test]
fn release_timer_runs_without_keys() {
    let mut state = with_ball(300, 100, 0, 0);
    let mut seen = Vec::new();
    for _ in 0..11 {
        update_game(&mut state);
        seen.push(state.key_release_timer);
    }
    assert_eq!(seen, vec![1, 2, 3, 4, 0, 1, 2, 3, 4, 0, 1]);
}

#[test]
fn fetch_add_returns_the_old_value() {
    let mut counter = 41;
    assert_eq!(fetch_add(&mut counter, 1), 41);
    assert_eq!(counter, 42);
    assert_eq!(fetch_add(&mut counter, -50), 42);
    assert_eq!(counter, -8);
}

#[test]
fn fetch_add_wraps_around() {
    let mut counter = i32::MAX;
    assert_eq!(fetch_add(&mut counter, 1), i32::MAX);
    assert_eq!(counter, i32::MIN);
    assert_eq!(fetch_add(&mut counter, -1), i32::MIN);
    assert_eq!(counter, i32::MAX);
}

#[test]
fn score_wraps_around() {
    let mut state = with_ball(2, 240, -3, 0);
    state.right_score = i32::MAX;
    assert_eq!(update_game(&mut state), TickOutcome::RightScored);
    assert_eq!(state.right_score, i32::MIN);
}

#[test]
fn legal_states_are_recognised() {
    assert!(fresh().is_wf());
    assert!(with_ball(15, 240, -2, 0).is_wf());
    assert!(with_ball(2, 240, -3, 0).is_wf());
    assert!(with_ball(1, 1, -620, 620).is_wf());
    assert!(with_ball(629, -1, 3, 2).is_wf());
    assert!(with_ball(629, 471, 3, -2).is_wf());
    assert!(!with_ball(0, 240, -3, 0).is_wf());
    assert!(!with_ball(630, 240, -3, 0).is_wf());
    assert!(!with_ball(100, 240, 621, 0).is_wf());
    assert!(!with_ball(100, 240, 0, -621).is_wf());
    assert!(!with_ball(100, -1, 3, -2).is_wf());
    assert!(!with_ball(100, 470, 3, 0).is_wf());
    assert!(!with_ball(100, i32::MAX, 3, 2).is_wf());
    assert!(!with_ball(100, i32::MIN, 3, -2).is_wf());
    let mut state = fresh();
    state.left_paddle_y = -1;
    assert!(!state.is_wf());
    state.left_paddle_y = 421;
    assert!(!state.is_wf());
    state.left_paddle_y = 420;
    state.right_paddle_y = 421;
    assert!(!state.is_wf());
    state.right_paddle_y = 0;
    assert!(state.is_wf());
    state.key_release_timer = 5;
    assert!(!state.is_wf());
    state.key_release_timer = -1;
    assert!(!state.is_wf());
}

#[test]
fn long_match_stays_legal() {
    let mut state = fresh();
    let mut points = 0;
    for tick in 0..20_000 {
        if tick % 7 == 0 {
            set_key_w(&mut state, true);
        }
        if tick % 11 == 0 {
            set_key_s(&mut state, true);
        }
        let before = (state.left_score, state.right_score);
        match update_game(&mut state) {
            TickOutcome::Idle => panic!("an active match ticked as idle"),
            TickOutcome::LeftScored => {
                points += 1;
                assert_eq!((state.left_score, state.right_score), (before.0 + 1, before.1));
            }
            TickOutcome::RightScored => {
                points += 1;
                assert_eq!((state.left_score, state.right_score), (before.0, before.1 + 1));
            }
            TickOutcome::Advanced => {
                assert_eq!((state.left_score, state.right_score), before);
            }
        }
        assert!(state.is_wf());
    }
    assert_eq!(state.left_score + state.right_score, points);
    assert!(points > 0);
}

#[test]
fn stale_keys_are_released_alone() {
    let mut state = fresh();
    state.key_w_pressed = true;
    state.key_s_pressed = true;
    state.key_release_timer = 3;
    release_stale_keys(&mut state);
    let mut expected = fresh();
    expected.key_w_pressed = true;
    expected.key_s_pressed = true;
    expected.key_release_timer = 4;
    assert_eq!(state, expected);
    release_stale_keys(&mut state);
    assert_eq!(state, fresh());
}

#[test]
fn release_timer_past_its_delay_starts_again() {
    let mut state = fresh();
    state.key_w_pressed = true;
    state.key_release_timer = i32::MAX;
    release_stale_keys(&mut state);
    assert_eq!(state, fresh());
    state.key_s_pressed = true;
    state.key_release_timer = -10;
    release_stale_keys(&mut state);
    assert!(state.key_s_pressed);
    assert_eq!(state.key_release_timer, -9);
}

#[test]
fn right_paddle_moves_alone() {
    let mut state = fresh();
    move_right_paddle(&mut state);
    let mut expected = fresh();
    expected.right_paddle_y = 213;
    assert_eq!(state, expected);
    state.right_paddle_y = 417;
    move_right_paddle(&mut state);
    assert_eq!((state.right_paddle_y, state.right_paddle_direction), (420, Direction::Up));
    state.right_paddle_y = 4;
    move_right_paddle(&mut state);
    assert_eq!((state.right_paddle_y, state.right_paddle_direction), (1, Direction::Up));
    move_right_paddle(&mut state);
    assert_eq!((state.right_paddle_y, state.right_paddle_direction), (0, Direction::Down));
}

#[test]
fn ball_moves_alone() {
    let mut state = fresh();
    assert_eq!(move_ball(&mut state), TickOutcome::Advanced);
    let mut expected = fresh();
    expected.ball_x = 317;
    expected.ball_y = 237;
    assert_eq!(state, expected);
    let mut state = with_ball(628, 300, 5, 2);
    assert_eq!(move_ball(&mut state), TickOutcome::LeftScored);
    let mut expected = fresh();
    expected.left_score = 1;
    expected.ball_vel_x = -2;
    assert_eq!(state, expected);
}

#[test]
fn fastest_ball_that_a_paddle_can_turn() {
    let mut state = with_ball(629, 240, -619, 0);
    assert_eq!(update_game(&mut state), TickOutcome::Advanced);
    assert_eq!((state.ball_x, state.ball_vel_x), (30, 620));
    assert!(state.is_wf());
    assert_eq!(update_game(&mut state), TickOutcome::LeftScored);
    assert_eq!((state.ball_x, state.ball_vel_x), (315, -2));
    let mut state = with_ball(1, 240, 619, 0);
    state.right_paddle_y = 200;
    assert_eq!(update_game(&mut state), TickOutcome::Advanced);
    assert_eq!((state.ball_x, state.ball_vel_x), (600, -620));
    assert!(state.is_wf());
}
