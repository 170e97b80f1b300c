use vstd::prelude::*;
use crate::state::{GameModeSettings, GameState};

verus! {

/// The number of waves on the progress line of the HUD.
pub const WAVE_NODE_COUNT: u32 = 3;

/// Progress through the waves of a run.
#[derive(Clone, Copy, PartialEq, Eq, Structural, Debug)]
pub struct WaveManager {
    /// The wave being fought or travelled to, counted from 1.
    pub current_wave: u32,
    /// The last wave of a regular run.
    pub max_waves: u32,
    /// Whether the current wave's fight is under way.
    pub is_active: bool,
}

/// How a wave node on the progress line is drawn.
#[derive(Clone, Copy, PartialEq, Eq, Structural, Debug)]
pub enum WaveNodeStatus {
    /// The wave has been beaten (green).
    Cleared,
    /// The wave is being fought (red).
    Active,
    /// The player is travelling to this wave's checkpoint (yellow).
    Navigating,
    /// A later wave (gray).
    Upcoming,
}

/// What the checkpoint logic does on a frame.
#[derive(Clone, Copy, PartialEq, Eq, Structural, Debug)]
pub enum CheckpointStep {
    /// A wave is being fought: checkpoints are not looked at.
    Idle,
    /// Head for checkpoint `index`; when `extend` holds the list has no such
    /// checkpoint yet and a new one must be placed first.
    Seek { index: usize, extend: bool },
}

pub open spec fn node_status(current_wave: u32, is_active: bool, node: u32) -> WaveNodeStatus {
    if current_wave > node {
        WaveNodeStatus::Cleared
    } else if current_wave == node && is_active {
        WaveNodeStatus::Active
    } else if current_wave == node {
        WaveNodeStatus::Navigating
    } else {
        WaveNodeStatus::Upcoming
    }
}

impl WaveManager {
    /// A regular run: the first of three waves, not yet triggered.
    pub fn new() -> (w: Self)
        ensures
            w.current_wave == 1,
            w.max_waves == WAVE_NODE_COUNT,
            !w.is_active,
    {
        WaveManager { current_wave: 1, max_waves: WAVE_NODE_COUNT, is_active: false }
    }

    /// Every wave of a regular run has been beaten.
    pub open spec fn past_final_wave(&self) -> bool {
        self.current_wave > self.max_waves
    }

    /// Reaching a checkpoint starts a wave: always in endless mode, and in a
    /// regular run only up to its last wave.
    pub open spec fn wave_may_start(&self, mode: GameModeSettings) -> bool {
        mode.is_endless || !self.past_final_wave()
    }

    /// A regular run is won: every wave is beaten and no fight is under way.
    pub open spec fn win_reached(&self, mode: GameModeSettings) -> bool {
        !mode.is_endless && self.past_final_wave() && !self.is_active
    }

    /// The status of wave node `node` (numbered from 1).
    pub fn wave_node_status(&self, node: u32) -> (s: WaveNodeStatus)
        ensures
            s == node_status(self.current_wave, self.is_active, node),
    {
        if self.current_wave > node {
            WaveNodeStatus::Cleared
        } else if self.current_wave == node && self.is_active {
            WaveNodeStatus::Active
        } else if self.current_wave == node {
            WaveNodeStatus::Navigating
        } else {
            WaveNodeStatus::Upcoming
        }
    }

    /// The status of a node of the HUD's progress line, where nodes beyond
    /// the last one shown are drawn as the last one.
    pub fn hud_node_status(&self, node: u32) -> (s: WaveNodeStatus)
        ensures
            s == node_status(
                self.current_wave,
                self.is_active,
                if node > WAVE_NODE_COUNT { WAVE_NODE_COUNT } else { node },
            ),
    {
        let target: u32 = if node > WAVE_NODE_COUNT { WAVE_NODE_COUNT } else { node };
        self.wave_node_status(target)
    }

    /// The compass hides its target marker while a wave is being fought.
    pub fn compass_marker_hidden(&self) -> (hidden: bool)
        ensures
            hidden == self.is_active,
    {
        self.is_active
    }

    /// The checkpoint the compass points at: the current wave's, counted from 0.
    pub fn compass_target_index(&self) -> (index: usize)
        ensures
            index == (if self.current_wave == 0 { 0 } else { self.current_wave - 1 }),
    {
        let i: u32 = self.current_wave.saturating_sub(1);
        i as usize
    }

    /// Which checkpoint to head for, given how many are known.
    pub fn plan_checkpoint(&self, known: usize) -> (step: CheckpointStep)
        requires
            !self.is_active ==> self.current_wave >= 1,
        ensures
            self.is_active ==> step == CheckpointStep::Idle,
            !self.is_active ==> step == (CheckpointStep::Seek {
                index: (self.current_wave - 1) as usize,
                extend: self.current_wave - 1 >= known,
            }),
    {
        if self.is_active {
            return CheckpointStep::Idle;
        }
        let index: usize = (self.current_wave - 1) as usize;
        CheckpointStep::Seek { index, extend: index >= known }
    }

    /// The ship has reached the current checkpoint: start the wave, unless a
    /// regular run is already past its last wave. Returns whether it started.
    pub fn trigger_wave(&mut self, mode: &GameModeSettings) -> (started: bool)
        ensures
            started == old(self).wave_may_start(*mode),
            started ==> *final(self) == (WaveManager { is_active: true, ..*old(self) }),
            !started ==> *final(self) == *old(self),
    {
        if !mode.is_endless && self.current_wave > self.max_waves {
            return false;
        }
        self.is_active = true;
        true
    }
}

/// The request of the win rule.
pub open spec fn win_check_next(wave: WaveManager, mode: GameModeSettings) -> Option<GameState> {
    if wave.win_reached(mode) { Some(GameState::WinStory) } else { None }
}

/// While playing a regular run: once every wave is beaten and no fight is
/// under way, the homecoming story begins.
pub fn check_win(wave: &WaveManager, mode: &GameModeSettings) -> (next: Option<GameState>)
    ensures
        next == win_check_next(*wave, *mode),
{
    if !mode.is_endless && wave.current_wave > wave.max_waves && !wave.is_active {
        Some(GameState::WinStory)
    } else {
        None
    }
}

/// A node is cleared exactly when the run has moved past its wave, and
/// every node after the current wave is still upcoming.
pub proof fn lemma_node_status_order(w: WaveManager, node: u32)
    ensures
        (node_status(w.current_wave, w.is_active, node) == WaveNodeStatus::Cleared) <==> node < w.current_wave,
        node > w.current_wave ==> node_status(w.current_wave, w.is_active, node) == WaveNodeStatus::Upcoming,
        node_status(w.current_wave, w.is_active, node) == WaveNodeStatus::Active ==> w.is_active,
{
}

/// How each node is drawn, by its place relative to the current wave:
/// earlier waves are cleared, later ones upcoming, and the current wave's
/// node is red during its fight and yellow while flying to its checkpoint.
pub proof fn lemma_node_status_by_place(w: WaveManager, node: u32)
    ensures
        node < w.current_wave ==> node_status(w.current_wave, w.is_active, node) == WaveNodeStatus::Cleared,
        node > w.current_wave ==> node_status(w.current_wave, w.is_active, node) == WaveNodeStatus::Upcoming,
        node == w.current_wave && w.is_active ==> node_status(w.current_wave, w.is_active, node)
            == WaveNodeStatus::Active,
        node == w.current_wave && !w.is_active ==> node_status(w.current_wave, w.is_active, node)
            == WaveNodeStatus::Navigating,
        node <= WAVE_NODE_COUNT ==> node_status(w.current_wave, w.is_active, if node > WAVE_NODE_COUNT {
            WAVE_NODE_COUNT
        } else {
            node
        }) == node_status(w.current_wave, w.is_active, node),
{
}

/// A won run starts no further wave: when the win condition holds,
/// reaching a checkpoint does not trigger a fight.
pub proof fn lemma_win_excludes_new_wave(w: WaveManager, mode: GameModeSettings)
    requires
        w.win_reached(mode),
    ensures
        !w.wave_may_start(mode),
{
}

/// Endless mode never ends in a win, and every checkpoint reached in it
/// starts a wave.
pub proof fn lemma_endless_never_wins(w: WaveManager, mode: GameModeSettings)
    requires
        mode.is_endless,
    ensures
        !w.win_reached(mode),
        w.wave_may_start(mode),
{
}

} // verus!
