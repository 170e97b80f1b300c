use vstd::prelude::*;
use crate::state::GameModeSettings;

verus! {

/// Shot counts of the current run.
#[derive(Clone, Copy, PartialEq, Eq, Structural, Debug)]
pub struct PlayerStats {
    pub lasers_fired: u32,
    pub lasers_hit: u32,
}

impl PlayerStats {
    /// No shots yet.
    pub fn new() -> (s: Self)
        ensures
            s.lasers_fired == 0,
            s.lasers_hit == 0,
    {
        PlayerStats { lasers_fired: 0, lasers_hit: 0 }
    }
}

impl Default for PlayerStats {
    fn default() -> (s: Self)
        ensures
            s.lasers_fired == 0,
            s.lasers_hit == 0,
    {
        PlayerStats::new()
    }
}

/// How long the gun waits before it can fire again.
#[derive(Clone, Copy, PartialEq, Eq, Structural, Debug)]
pub enum Cooldown {
    /// The regular fifth of a second.
    Regular,
    /// A random wait: the damaged gun misfires.
    Erratic,
}

/// What a shot looks like, given the ship's condition.
#[derive(Clone, Copy, PartialEq, Eq, Structural, Debug)]
pub struct ShotPlan {
    pub cooldown: Cooldown,
    /// The laser leaves at a random angle off the aim.
    pub scattered: bool,
}

/// The colour band of the stability bar.
#[derive(Clone, Copy, PartialEq, Eq, Structural, Debug)]
pub enum StabilityTier {
    Stable,
    Yellow,
    Orange,
    Red,
}

pub open spec fn axis_value(negative: bool, positive: bool) -> int {
    (if positive { 1int } else { 0int }) - (if negative { 1int } else { 0int })
}

/// The movement direction from the WASD keys, one step per axis: A and D
/// move left and right, W and S up and down, opposite keys cancel. With
/// `inverted` (critical stability) both axes are reversed.
pub fn movement_input(left: bool, right: bool, up: bool, down: bool, inverted: bool) -> (dir: (i8, i8))
    ensures
        dir.0 == (if inverted { -axis_value(left, right) } else { axis_value(left, right) }),
        dir.1 == (if inverted { -axis_value(down, up) } else { axis_value(down, up) }),
{
    let mut x: i8 = 0;
    let mut y: i8 = 0;
    if left {
        x = x - 1;
    }
    if right {
        x = x + 1;
    }
    if up {
        y = y + 1;
    }
    if down {
        y = y - 1;
    }
    if inverted {
        x = -x;
        y = -y;
    }
    (x, y)
}

/// The gun fires while the trigger is held once the cooldown has run out.
/// A shot is counted; below the yellow mark its cooldown turns erratic, and
/// below the orange mark the laser scatters.
pub fn try_shoot(
    trigger_held: bool,
    cooldown_finished: bool,
    stats: &mut PlayerStats,
    is_yellow: bool,
    is_orange: bool,
) -> (shot: Option<ShotPlan>)
    requires
        trigger_held && cooldown_finished ==> old(stats).lasers_fired < u32::MAX,
    ensures
        shot is Some <==> trigger_held && cooldown_finished,
        shot is Some ==> final(stats).lasers_fired == old(stats).lasers_fired + 1,
        shot is None ==> final(stats).lasers_fired == old(stats).lasers_fired,
        final(stats).lasers_hit == old(stats).lasers_hit,
        shot matches Some(p) ==> p == (ShotPlan {
            cooldown: if is_yellow { Cooldown::Erratic } else { Cooldown::Regular },
            scattered: is_orange,
        }),
{
    if !(trigger_held && cooldown_finished) {
        return None;
    }
    stats.lasers_fired = stats.lasers_fired + 1;
    let cooldown = if is_yellow { Cooldown::Erratic } else { Cooldown::Regular };
    Some(ShotPlan { cooldown, scattered: is_orange })
}

/// The stability bar's colour: the most severe band the ship is in.
pub fn stability_tier(is_yellow: bool, is_orange: bool, is_red: bool) -> (t: StabilityTier)
    ensures
        t == (if is_red {
            StabilityTier::Red
        } else if is_orange {
            StabilityTier::Orange
        } else if is_yellow {
            StabilityTier::Yellow
        } else {
            StabilityTier::Stable
        }),
{
    if is_red {
        StabilityTier::Red
    } else if is_orange {
        StabilityTier::Orange
    } else if is_yellow {
        StabilityTier::Yellow
    } else {
        StabilityTier::Stable
    }
}

/// Leaving an end screen starts a fresh run: shot counts are cleared and
/// endless mode is switched off.
pub fn reset_run(stats: &mut PlayerStats, mode: &mut GameModeSettings)
    ensures
        final(stats).lasers_fired == 0,
        final(stats).lasers_hit == 0,
        !final(mode).is_endless,
{
    *stats = PlayerStats::new();
    mode.is_endless = false;
}

/// Inverted controls reverse the direction exactly, and pressing both keys
/// of an axis leaves it still.
pub proof fn lemma_inversion_reverses(left: bool, right: bool, up: bool, down: bool)
    ensures
        axis_value(left, right) == -axis_value(right, left),
        axis_value(true, true) == 0,
        -1 <= axis_value(left, right) <= 1,
        -1 <= axis_value(down, up) <= 1,
{
}

} // verus!
