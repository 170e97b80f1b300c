use pookie_homecoming::state::GameModeSettings;
use pookie_homecoming::waves::{CheckpointStep, WaveManager, WaveNodeStatus};

#[test]
fn new_run_starts_at_first_of_three_waves() {
    let w = WaveManager::new();
    assert_eq!((w.current_wave, w.max_waves, w.is_active), (1, 3, false));
}

#[test]
fn wave_nodes_by_progress() {
    let w = WaveManager { current_wave: 2, max_waves: 3, is_active: false };
    assert_eq!(w.wave_node_status(1), WaveNodeStatus::Cleared);
    assert_eq!(w.wave_node_status(2), WaveNodeStatus::Navigating);
    assert_eq!(w.wave_node_status(3), WaveNodeStatus::Upcoming);
    let fighting = WaveManager { is_active: true, ..w };
    assert_eq!(fighting.wave_node_status(2), WaveNodeStatus::Active);
    assert_eq!(fighting.wave_node_status(1), WaveNodeStatus::Cleared);
}

#[test]
fn hud_nodes_past_the_last_show_as_last() {
    let w = WaveManager { current_wave: 3, max_waves: 3, is_active: true };
    assert_eq!(w.hud_node_status(5), WaveNodeStatus::Active);
    assert_eq!(w.wave_node_status(5), WaveNodeStatus::Upcoming);
    let done = WaveManager { current_wave: 4, max_waves: 3, is_active: false };
    assert_eq!(done.hud_node_status(3), WaveNodeStatus::Cleared);
}

#[test]
fn compass_follows_current_wave() {
    let w = WaveManager { current_wave: 3, max_waves: 3, is_active: false };
    assert_eq!(w.compass_target_index(), 2);
    assert!(!w.compass_marker_hidden());
    let zero = WaveManager { current_wave: 0, max_waves: 3, is_active: true };
    assert_eq!(zero.compass_target_index(), 0);
    assert!(zero.compass_marker_hidden());
}

#[test]
fn checkpoint_plan() {
    let w = WaveManager { current_wave: 2, max_waves: 3, is_active: false };
    assert_eq!(w.plan_checkpoint(3), CheckpointStep::Seek { index: 1, extend: false });
    let beyond = WaveManager { current_wave: 5, max_waves: 3, is_active: false };
    assert_eq!(beyond.plan_checkpoint(3), CheckpointStep::Seek { index: 4, extend: true });
    let fighting = WaveManager { current_wave: 2, max_waves: 3, is_active: true };
    assert_eq!(fighting.plan_checkpoint(3), CheckpointStep::Idle);
}

#[test]
fn reaching_checkpoint_starts_wave() {
    let regular = GameModeSettings { is_endless: false };
    let mut w = WaveManager { current_wave: 3, max_waves: 3, is_active: false };
    assert!(w.trigger_wave(&regular));
    assert!(w.is_active);
    assert_eq!(w.current_wave, 3);
}

#[test]
fn no_wave_after_regular_run_is_won() {
    let regular = GameModeSettings { is_endless: false };
    let endless = GameModeSettings { is_endless: true };
    let mut w = WaveManager { current_wave: 4, max_waves: 3, is_active: false };
    assert!(!w.trigger_wave(&regular));
    assert!(!w.is_active);
    assert!(w.trigger_wave(&endless));
    assert!(w.is_active);
}
