use vstd::prelude::*;

verus! {

/// The screen the game is on.
#[derive(Clone, Copy, PartialEq, Eq, Structural, Debug, Hash)]
pub enum GameState {
    Controls,
    Story,
    Playing,
    Paused,
    GameOver,
    WinStory,
    Win,
    Score,
}

impl Default for GameState {
    /// The game opens on the controls screen.
    fn default() -> (s: Self)
        ensures
            s == GameState::Controls,
    {
        GameState::Controls
    }
}

/// Whether the current run is the endless mode that follows a win.
#[derive(Clone, Copy, PartialEq, Eq, Structural, Debug)]
pub struct GameModeSettings {
    pub is_endless: bool,
}

impl GameModeSettings {
    /// A run starts outside endless mode.
    pub fn new() -> (m: Self)
        ensures
            !m.is_endless,
    {
        GameModeSettings { is_endless: false }
    }
}

} // verus!
