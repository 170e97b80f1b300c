use vstd::prelude::*;
use crate::state::{GameModeSettings, GameState};
use crate::waves::WaveManager;

verus! {

/// What an end screen (game over or score) asks for on a frame.
#[derive(Clone, Copy, PartialEq, Eq, Structural, Debug)]
pub enum EndScreenAction {
    /// Nothing was pressed that the screen reacts to.
    Stay,
    /// Quit the application.
    Exit,
    /// Start a new run.
    Restart,
}

/// Where a depleted ship sends the player: the score screen in endless
/// mode, the game-over screen otherwise.
pub open spec fn game_over_target(is_endless: bool) -> GameState {
    if is_endless { GameState::Score } else { GameState::GameOver }
}

/// The request of the game-over rule.
pub open spec fn game_over_next(stability_depleted: bool, is_endless: bool) -> Option<GameState> {
    if stability_depleted { Some(game_over_target(is_endless)) } else { None }
}

/// The request of the controls screen.
pub open spec fn controls_next(space_pressed: bool) -> Option<GameState> {
    if space_pressed { Some(GameState::Story) } else { None }
}

/// What an end screen does with the keys of a frame.
pub open spec fn end_screen_action(space_pressed: bool, r_pressed: bool) -> EndScreenAction {
    if space_pressed {
        EndScreenAction::Exit
    } else if r_pressed {
        EndScreenAction::Restart
    } else {
        EndScreenAction::Stay
    }
}

/// The state an end-screen action asks for.
pub open spec fn end_action_next(action: EndScreenAction) -> Option<GameState> {
    if action == EndScreenAction::Restart { Some(GameState::Playing) } else { None }
}

/// The request of the win screen.
pub open spec fn win_screen_next(e_pressed: bool, c_pressed: bool) -> Option<GameState> {
    if e_pressed {
        Some(GameState::Playing)
    } else if c_pressed {
        Some(GameState::Score)
    } else {
        None
    }
}

/// The request of the pause rule, which runs on every screen.
pub open spec fn pause_next(escape_pressed: bool, s: GameState) -> Option<GameState> {
    if escape_pressed { pause_toggled(s) } else { None }
}

/// The state a story screen leads to when it ends or is skipped: the
/// prologue to the game, the homecoming to the win screen.
pub open spec fn story_target(screen: GameState) -> Option<GameState> {
    match screen {
        GameState::Story => Some(GameState::Playing),
        GameState::WinStory => Some(GameState::Win),
        _ => None,
    }
}

/// The story target of a screen, for setting up its story.
pub fn story_next_state(screen: GameState) -> (next: Option<GameState>)
    ensures
        next == story_target(screen),
{
    match screen {
        GameState::Story => Some(GameState::Playing),
        GameState::WinStory => Some(GameState::Win),
        _ => None,
    }
}

/// While playing: once stability has run out, leave the run.
pub fn check_game_over(stability_depleted: bool, mode: &GameModeSettings) -> (next: Option<GameState>)
    ensures
        next == game_over_next(stability_depleted, mode.is_endless),
{
    if stability_depleted {
        if mode.is_endless {
            Some(GameState::Score)
        } else {
            Some(GameState::GameOver)
        }
    } else {
        None
    }
}

/// On the controls screen, space moves on to the story.
pub fn advance_from_controls(space_pressed: bool) -> (next: Option<GameState>)
    ensures
        next == controls_next(space_pressed),
{
    if space_pressed {
        Some(GameState::Story)
    } else {
        None
    }
}

/// On the game-over and score screens: space quits, otherwise R starts a new run.
pub fn handle_end_screen_inputs(space_pressed: bool, r_pressed: bool) -> (action: EndScreenAction)
    ensures
        action == end_screen_action(space_pressed, r_pressed),
{
    if space_pressed {
        EndScreenAction::Exit
    } else if r_pressed {
        EndScreenAction::Restart
    } else {
        EndScreenAction::Stay
    }
}

/// The state an end-screen action leads to, if any.
pub fn end_screen_next_state(action: EndScreenAction) -> (next: Option<GameState>)
    ensures
        next == end_action_next(action),
{
    match action {
        EndScreenAction::Restart => Some(GameState::Playing),
        _ => None,
    }
}

/// On the win screen: E continues in endless mode, otherwise C ends the
/// run and shows the score.
pub fn handle_win_inputs(e_pressed: bool, c_pressed: bool, mode: &mut GameModeSettings) -> (next: Option<GameState>)
    ensures
        next == win_screen_next(e_pressed, c_pressed),
        e_pressed ==> next == Some(GameState::Playing) && final(mode).is_endless,
        !e_pressed && c_pressed ==> next == Some(GameState::Score) && !final(mode).is_endless,
        !e_pressed && !c_pressed ==> next.is_none() && *final(mode) == *old(mode),
{
    if e_pressed {
        mode.is_endless = true;
        Some(GameState::Playing)
    } else if c_pressed {
        mode.is_endless = false;
        Some(GameState::Score)
    } else {
        None
    }
}

/// The state escape switches to: playing and paused swap, nothing else reacts.
pub open spec fn pause_toggled(s: GameState) -> Option<GameState> {
    match s {
        GameState::Playing => Some(GameState::Paused),
        GameState::Paused => Some(GameState::Playing),
        _ => None,
    }
}

/// Escape pauses a running game and resumes a paused one.
pub fn toggle_pause(escape_pressed: bool, current: GameState) -> (next: Option<GameState>)
    ensures
        next == pause_next(escape_pressed, current),
{
    if escape_pressed {
        match current {
            GameState::Playing => Some(GameState::Paused),
            GameState::Paused => Some(GameState::Playing),
            _ => None,
        }
    } else {
        None
    }
}

/// Pausing and resuming are inverse: toggling twice from playing or paused
/// comes back to where it started.
pub proof fn lemma_toggle_pause_round_trip(s: GameState)
    requires
        s == GameState::Playing || s == GameState::Paused,
    ensures
        pause_toggled(s) is Some,
        pause_toggled(pause_toggled(s).unwrap()) == Some(s),
{
}

/// The pause rule acts only on Escape: without it nothing is requested on
/// any screen; with it the game pauses from play, resumes from the pause
/// menu, and nothing happens elsewhere.
pub proof fn lemma_pause_needs_escape(s: GameState)
    ensures
        pause_next(false, s).is_none(),
        s == GameState::Playing ==> pause_next(true, s) == Some(GameState::Paused),
        s == GameState::Paused ==> pause_next(true, s) == Some(GameState::Playing),
        s != GameState::Playing && s != GameState::Paused ==> pause_next(true, s).is_none(),
{
}

/// Escape never leaves a screen other than the game or the pause menu.
pub proof fn lemma_toggle_pause_only_in_game(s: GameState)
    requires
        s != GameState::Playing,
        s != GameState::Paused,
    ensures
        pause_toggled(s).is_none(),
{
}

/// The events of a frame that the screen rules read.
pub struct ScreenInput {
    pub space: bool,
    pub escape: bool,
    pub r: bool,
    pub e: bool,
    pub c: bool,
    pub stability_depleted: bool,
    /// The story screen's sequence ended or was skipped this frame.
    pub story_ended: bool,
    pub is_endless: bool,
    pub wave: WaveManager,
}

pub open spec fn opt_set(o: Option<GameState>) -> Set<GameState> {
    match o {
        Some(t) => set![t],
        None => Set::empty(),
    }
}

/// The states requested on a frame by the rules that run on screen `from`:
/// the pause rule everywhere; the controls rule on the controls screen;
/// the story rule on the two story screens; the game-over and win rules
/// while playing; the end-screen rule on the game-over and score screens;
/// the win-screen rule on the win screen.
pub open spec fn screen_requests(from: GameState, i: ScreenInput) -> Set<GameState> {
    opt_set(pause_next(i.escape, from)) + match from {
        GameState::Controls => opt_set(controls_next(i.space)),
        GameState::Story | GameState::WinStory => if i.story_ended {
            opt_set(story_target(from))
        } else {
            Set::empty()
        },
        GameState::Playing => opt_set(game_over_next(i.stability_depleted, i.is_endless)) + opt_set(
            crate::waves::win_check_next(i.wave, GameModeSettings { is_endless: i.is_endless }),
        ),
        GameState::GameOver | GameState::Score => opt_set(end_action_next(end_screen_action(i.space, i.r))),
        GameState::Win => opt_set(win_screen_next(i.e, i.c)),
        GameState::Paused => Set::empty(),
    }
}

/// The screen flow: controls to story to playing; pause and resume; a run
/// ends in game over, on the score screen (endless) or, once won, in the
/// homecoming story and the win screen; the win screen leads to endless
/// play or the score; the end screens restart a run.
pub open spec fn screen_edge(from: GameState, to: GameState) -> bool {
    match (from, to) {
        (GameState::Controls, GameState::Story) => true,
        (GameState::Story, GameState::Playing) => true,
        (GameState::Playing, GameState::Paused) => true,
        (GameState::Paused, GameState::Playing) => true,
        (GameState::Playing, GameState::GameOver) => true,
        (GameState::Playing, GameState::Score) => true,
        (GameState::Playing, GameState::WinStory) => true,
        (GameState::WinStory, GameState::Win) => true,
        (GameState::Win, GameState::Playing) => true,
        (GameState::Win, GameState::Score) => true,
        (GameState::GameOver, GameState::Playing) => true,
        (GameState::Score, GameState::Playing) => true,
        _ => false,
    }
}

/// The screen rules request only the transitions of the screen flow.
pub proof fn lemma_screen_requests_follow_flow(from: GameState, i: ScreenInput, to: GameState)
    requires
        screen_requests(from, i).contains(to),
    ensures
        screen_edge(from, to),
{
}

/// Every transition of the screen flow is requested on some frame.
pub proof fn lemma_screen_flow_reachable(from: GameState, to: GameState)
    requires
        screen_edge(from, to),
    ensures
        exists|i: ScreenInput| #[trigger] screen_requests(from, i).contains(to),
{
    let none = ScreenInput {
        space: false,
        escape: false,
        r: false,
        e: false,
        c: false,
        stability_depleted: false,
        story_ended: false,
        is_endless: false,
        wave: WaveManager { current_wave: 1, max_waves: 3, is_active: false },
    };
    let i = match (from, to) {
        (GameState::Controls, _) => ScreenInput { space: true, ..none },
        (GameState::Story, _) | (GameState::WinStory, _) => ScreenInput { story_ended: true, ..none },
        (GameState::Playing, GameState::Paused) | (GameState::Paused, _) => ScreenInput { escape: true, ..none },
        (GameState::Playing, GameState::GameOver) => ScreenInput { stability_depleted: true, ..none },
        (GameState::Playing, GameState::Score) => ScreenInput { stability_depleted: true, is_endless: true, ..none },
        (GameState::Playing, _) => ScreenInput {
            wave: WaveManager { current_wave: 4, max_waves: 3, is_active: false },
            ..none
        },
        (GameState::Win, GameState::Playing) => ScreenInput { e: true, ..none },
        (GameState::Win, _) => ScreenInput { c: true, ..none },
        (_, _) => ScreenInput { r: true, ..none },
    };
    assert(screen_requests(from, i).contains(to));
}

} // verus!
