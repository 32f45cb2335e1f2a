use vstd::prelude::*;
use crate::level::Level;

verus! {

/// The screens of the game.
#[derive(Clone, Copy, Debug, PartialEq, Eq, Hash, Structural)]
pub enum GameState {
    Menu,
    GameLoading,
    Game,
    GameOver,
}

/// What can move the game from one screen to another.
#[derive(Clone, Copy, Debug, PartialEq, Eq, Structural)]
pub enum StateEvent {
    StartPressed,
    LoadingDone,
    PlayerDied,
    RestartPressed,
}

/// The screen after an event: start leaves the menu for loading, loading
/// leads into the game, death ends it, and restart loads a fresh game.
pub open spec fn next_state_spec(state: GameState, event: StateEvent) -> GameState {
    match (state, event) {
        (GameState::Menu, StateEvent::StartPressed) => GameState::GameLoading,
        (GameState::GameLoading, StateEvent::LoadingDone) => GameState::Game,
        (GameState::Game, StateEvent::PlayerDied) => GameState::GameOver,
        (GameState::GameOver, StateEvent::RestartPressed) => GameState::GameLoading,
        _ => state,
    }
}

/// Moves to the screen that the event leads to; other events leave the
/// screen as it is.
pub fn next_state(state: GameState, event: StateEvent) -> (r: GameState)
    ensures
        r == next_state_spec(state, event),
{
    match (state, event) {
        (GameState::Menu, StateEvent::StartPressed) => GameState::GameLoading,
        (GameState::GameLoading, StateEvent::LoadingDone) => GameState::Game,
        (GameState::Game, StateEvent::PlayerDied) => GameState::GameOver,
        (GameState::GameOver, StateEvent::RestartPressed) => GameState::GameLoading,
        _ => state,
    }
}

/// The epitaph for a run that ended at `level`.
pub open spec fn legacy_message_spec(level: u64) -> Seq<char> {
    if level < 4 {
        "You will be forgotten."@
    } else if level < 10 {
        "Your efforts were not in vain, but you will be forgotten."@
    } else if level < 15 {
        "You will be remembered."@
    } else {
        "Your heroic feats will be remembered for all time."@
    }
}

/// What the game over screen shows.
#[derive(Clone, Debug)]
pub struct GameOverScreen {
    pub level: u64,
    pub xp: u64,
    pub legacy_message: String,
}

/// Builds the game over screen for the run that just ended.
pub fn game_over_setup(level: &Level) -> (s: GameOverScreen)
    ensures
        s.level == level.current_level,
        s.xp == level.current_xp,
        s.legacy_message@ == legacy_message_spec(level.current_level),
{
    let message = if level.current_level < 4 {
        "You will be forgotten."
    } else if level.current_level < 10 {
        "Your efforts were not in vain, but you will be forgotten."
    } else if level.current_level < 15 {
        "You will be remembered."
    } else {
        "Your heroic feats will be remembered for all time."
    };
    GameOverScreen { level: level.current_level, xp: level.current_xp, legacy_message: message.to_owned() }
}

} // verus!
