use pookie_homecoming::screens::story_next_state;
use pookie_homecoming::screens::{
    advance_from_controls, check_game_over, end_screen_next_state, handle_end_screen_inputs,
    handle_win_inputs, toggle_pause, EndScreenAction,
};
use pookie_homecoming::state::{GameModeSettings, GameState};
use pookie_homecoming::waves::{check_win, WaveManager};

#[test]
fn game_starts_on_controls_screen() {
    assert_eq!(GameState::default(), GameState::Controls);
    assert!(!GameModeSettings::new().is_endless);
}

#[test]
fn depleted_stability_ends_regular_run_in_game_over() {
    let mode = GameModeSettings { is_endless: false };
    assert_eq!(check_game_over(true, &mode), Some(GameState::GameOver));
    assert_eq!(check_game_over(false, &mode), None);
}

#[test]
fn depleted_stability_ends_endless_run_on_score_screen() {
    let mode = GameModeSettings { is_endless: true };
    assert_eq!(check_game_over(true, &mode), Some(GameState::Score));
    assert_eq!(check_game_over(false, &mode), None);
}

#[test]
fn space_leaves_controls_for_story() {
    assert_eq!(advance_from_controls(true), Some(GameState::Story));
    assert_eq!(advance_from_controls(false), None);
}

#[test]
fn end_screen_space_exits_before_restart() {
    assert_eq!(handle_end_screen_inputs(true, true), EndScreenAction::Exit);
    assert_eq!(handle_end_screen_inputs(true, false), EndScreenAction::Exit);
    assert_eq!(handle_end_screen_inputs(false, true), EndScreenAction::Restart);
    assert_eq!(handle_end_screen_inputs(false, false), EndScreenAction::Stay);
    assert_eq!(end_screen_next_state(EndScreenAction::Restart), Some(GameState::Playing));
    assert_eq!(end_screen_next_state(EndScreenAction::Exit), None);
    assert_eq!(end_screen_next_state(EndScreenAction::Stay), None);
}

#[test]
fn win_screen_e_goes_endless() {
    let mut mode = GameModeSettings { is_endless: false };
    assert_eq!(handle_win_inputs(true, true, &mut mode), Some(GameState::Playing));
    assert!(mode.is_endless);
}

#[test]
fn win_screen_c_shows_score() {
    let mut mode = GameModeSettings { is_endless: true };
    assert_eq!(handle_win_inputs(false, true, &mut mode), Some(GameState::Score));
    assert!(!mode.is_endless);
    let mut idle = GameModeSettings { is_endless: true };
    assert_eq!(handle_win_inputs(false, false, &mut idle), None);
    assert!(idle.is_endless);
}

#[test]
fn escape_toggles_pause_and_back() {
    let paused = toggle_pause(true, GameState::Playing).unwrap();
    assert_eq!(paused, GameState::Paused);
    assert_eq!(toggle_pause(true, paused), Some(GameState::Playing));
    assert_eq!(toggle_pause(false, GameState::Playing), None);
}

#[test]
fn escape_ignored_outside_game() {
    for s in [
        GameState::Controls,
        GameState::Story,
        GameState::GameOver,
        GameState::WinStory,
        GameState::Win,
        GameState::Score,
    ] {
        assert_eq!(toggle_pause(true, s), None);
    }
}

#[test]
fn win_after_last_wave_of_regular_run() {
    let regular = GameModeSettings { is_endless: false };
    let endless = GameModeSettings { is_endless: true };
    let done = WaveManager { current_wave: 4, max_waves: 3, is_active: false };
    assert_eq!(check_win(&done, &regular), Some(GameState::WinStory));
    assert_eq!(check_win(&done, &endless), None);
    let fighting = WaveManager { current_wave: 4, max_waves: 3, is_active: true };
    assert_eq!(check_win(&fighting, &regular), None);
    let last = WaveManager { current_wave: 3, max_waves: 3, is_active: false };
    assert_eq!(check_win(&last, &regular), None);
}

#[test]
fn story_screens_lead_to_game_and_win_screen() {
    assert_eq!(story_next_state(GameState::Story), Some(GameState::Playing));
    assert_eq!(story_next_state(GameState::WinStory), Some(GameState::Win));
    assert_eq!(story_next_state(GameState::Playing), None);
}
