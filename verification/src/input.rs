//! The keyboard router: from a decoded key to what the player means by it,
//! and from there to the match.

use crate::pong::{init_game, set_key_s, set_key_w, start_game, GameState, KEY_RELEASE_DELAY};
use vstd::prelude::*;

verus! {

/// A key that arrived as a key code, without a character.
#[derive(Clone, Copy, Debug, PartialEq, Eq, Structural)]
pub enum RawKey {
    W,
    S,
    /// Any key but those two.
    Other,
}

/// One decoded keyboard event: a character, or a key that has none.
#[derive(Clone, Copy, Debug, PartialEq, Eq, Structural)]
pub enum KeyEvent {
    Unicode(char),
    RawKey(RawKey),
}

/// What the player means by a key.
#[derive(Clone, Copy, Debug, PartialEq, Eq, Structural)]
pub enum Intent {
    MoveUp,
    MoveDown,
    /// Start a match from the starting layout.
    Serve,
    /// Let go of both movement keys.
    Release,
    /// The key means nothing to the match and is left to the text echo.
    PassThrough,
}

/// The intent behind an event: `w` moves up and `s` moves down, as a
/// character or as a key code; a space serves; `q` releases; every other
/// event passes through.
pub open spec fn intent_of(event: KeyEvent) -> Intent {
    match event {
        KeyEvent::Unicode(character) => if character == 'w' {
            Intent::MoveUp
        } else if character == 's' {
            Intent::MoveDown
        } else if character == ' ' {
            Intent::Serve
        } else if character == 'q' {
            Intent::Release
        } else {
            Intent::PassThrough
        },
        KeyEvent::RawKey(RawKey::W) => Intent::MoveUp,
        KeyEvent::RawKey(RawKey::S) => Intent::MoveDown,
        KeyEvent::RawKey(RawKey::Other) => Intent::PassThrough,
    }
}

/// The match after an intent: a movement presses its key, which restarts the
/// release timer; a serve puts the match into its starting layout, active and
/// with no key held; a release lifts both keys; everything else changes
/// nothing.
pub open spec fn after_intent(state: GameState, intent: Intent) -> GameState {
    match intent {
        Intent::MoveUp => state.with_key_w(true),
        Intent::MoveDown => state.with_key_s(true),
        Intent::Serve => GameState::starting_layout(),
        Intent::Release => state.with_key_w(false).with_key_s(false),
        Intent::PassThrough => state,
    }
}

/// Tells what the player means by `event`.
pub fn classify(event: KeyEvent) -> (intent: Intent)
    ensures
        intent == intent_of(event),
{
    match event {
        KeyEvent::Unicode(character) => match character {
            'w' => Intent::MoveUp,
            's' => Intent::MoveDown,
            ' ' => Intent::Serve,
            'q' => Intent::Release,
            _ => Intent::PassThrough,
        },
        KeyEvent::RawKey(key) => match key {
            RawKey::W => Intent::MoveUp,
            RawKey::S => Intent::MoveDown,
            RawKey::Other => Intent::PassThrough,
        },
    }
}

/// Carries out an intent on the match.
pub fn apply_intent(state: &mut GameState, intent: Intent)
    ensures
        *final(state) == after_intent(*old(state), intent),
        old(state).wf() ==> final(state).wf(),
{
    match intent {
        Intent::MoveUp => {
            set_key_w(state, true);
        },
        Intent::MoveDown => {
            set_key_s(state, true);
        },
        Intent::Serve => {
            init_game(state);
            start_game(state);
            set_key_w(state, false);
            set_key_s(state, false);
        },
        Intent::Release => {
            set_key_w(state, false);
            set_key_s(state, false);
        },
        Intent::PassThrough => {},
    }
}

/// Routes one keyboard event: carries out what it means on the match and
/// returns that meaning. An event that returns `Intent::PassThrough` has
/// left the match untouched and belongs to the text echo.
pub fn handle_key(state: &mut GameState, event: KeyEvent) -> (intent: Intent)
    ensures
        intent == intent_of(event),
        *final(state) == after_intent(*old(state), intent),
        old(state).wf() ==> final(state).wf(),
{
    let intent = classify(event);
    apply_intent(state, intent);
    intent
}

/// A movement key that is pressed once in an active match holds for the
/// `KEY_RELEASE_DELAY - 1` ticks that follow and is let go by the tick after
/// them, together with the other movement key.
pub proof fn lemma_press_is_released(state: GameState, event: KeyEvent, n: nat)
    requires
        state.wf(),
        state.game_active,
        intent_of(event) is MoveUp || intent_of(event) is MoveDown,
        n <= KEY_RELEASE_DELAY,
    ensures
        n < KEY_RELEASE_DELAY && intent_of(event) is MoveUp ==> after_intent(
            state,
            intent_of(event),
        ).ticks(n).key_w_pressed,
        n < KEY_RELEASE_DELAY && intent_of(event) is MoveDown ==> after_intent(
            state,
            intent_of(event),
        ).ticks(n).key_s_pressed,
        n == KEY_RELEASE_DELAY ==> {
            &&& !after_intent(state, intent_of(event)).ticks(n).key_w_pressed
            &&& !after_intent(state, intent_of(event)).ticks(n).key_s_pressed
        },
{
    crate::pong::lemma_auto_release(after_intent(state, intent_of(event)), n);
}

} // verus!
