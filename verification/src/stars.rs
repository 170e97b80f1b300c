use vstd::prelude::*;
use vstd::arithmetic::div_mod::lemma_add_mod_noop_right;

verus! {

/// The start state of the star field's pseudo-random generator.
pub const STAR_SEED: u32 = 12345;
/// Multiplier and increment of the linear congruential generator.
pub const LCG_MULTIPLIER: u32 = 1664525;
pub const LCG_INCREMENT: u32 = 1013904223;
/// Star positions are drawn in steps of one part in this many of the field.
pub const SEED_RESOLUTION: u32 = 10000;

/// One step of the generator, modulo 2^32.
pub open spec fn lcg_next(state: u32) -> u32 {
    ((state * LCG_MULTIPLIER + LCG_INCREMENT) % 0x1_0000_0000int) as u32
}

/// The generator's state after `n` steps.
pub open spec fn lcg_state(n: nat) -> u32
    decreases n,
{
    if n == 0 {
        STAR_SEED
    } else {
        lcg_next(lcg_state((n - 1) as nat))
    }
}

/// The grid position of star `k`: two consecutive draws, each reduced to
/// `0 .. SEED_RESOLUTION`.
pub open spec fn star_seed(k: nat) -> (u32, u32) {
    (
        (lcg_state(2 * k + 1) % SEED_RESOLUTION) as u32,
        (lcg_state(2 * k + 2) % SEED_RESOLUTION) as u32,
    )
}

/// One generator step.
pub fn lcg_step(state: u32) -> (next: u32)
    ensures
        next == lcg_next(state),
{
    let next: u32 = state.wrapping_mul(LCG_MULTIPLIER).wrapping_add(LCG_INCREMENT);
    proof {
        let p: int = state * LCG_MULTIPLIER;
        let m: int = 0x1_0000_0000;
        lemma_add_mod_noop_right(LCG_INCREMENT as int, p, m);
    }
    next
}

/// The grid positions of the first `count` stars, in spawn order. The field
/// is the same every run.
pub fn star_seeds(count: u32) -> (seeds: Vec<(u32, u32)>)
    ensures
        seeds@.len() == count,
        forall|k: int| 0 <= k < count ==> #[trigger] seeds@[k] == star_seed(k as nat),
{
    let mut seeds: Vec<(u32, u32)> = Vec::new();
    let mut state: u32 = STAR_SEED;
    let mut k: u32 = 0;
    while k < count
        invariant
            k <= count,
            seeds@.len() == k,
            state == lcg_state(2 * k as nat),
            forall|i: int| 0 <= i < k ==> #[trigger] seeds@[i] == star_seed(i as nat),
        decreases count - k,
    {
        state = lcg_step(state);
        let x: u32 = state % SEED_RESOLUTION;
        state = lcg_step(state);
        let y: u32 = state % SEED_RESOLUTION;
        proof {
            assert(lcg_state((2 * k + 1) as nat) == lcg_next(lcg_state(2 * k as nat)));
            assert(lcg_state((2 * k + 2) as nat) == lcg_next(lcg_state((2 * k + 1) as nat)));
        }
        seeds.push((x, y));
        k = k + 1;
    }
    seeds
}

/// The field is one continuous run of the generator from `STAR_SEED`: the
/// first star takes its first two draws, and each star takes the two draws
/// that follow the previous star's second draw.
pub proof fn lemma_stars_continue_one_run(k: nat)
    ensures
        star_seed(0) == (
            (lcg_next(STAR_SEED) % SEED_RESOLUTION) as u32,
            (lcg_next(lcg_next(STAR_SEED)) % SEED_RESOLUTION) as u32,
        ),
        lcg_state(0) == STAR_SEED,
        lcg_state(k + 1) == lcg_next(lcg_state(k)),
        lcg_next(lcg_state(k)) == (lcg_state(k) * 1664525 + 1013904223) % 0x1_0000_0000int,
        star_seed(k).0 == (lcg_state(2 * k + 1) % SEED_RESOLUTION) as u32,
        star_seed(k).1 == (lcg_state(2 * k + 2) % SEED_RESOLUTION) as u32,
        star_seed(k + 1) == (
            (lcg_next(lcg_state(2 * k + 2)) % SEED_RESOLUTION) as u32,
            (lcg_next(lcg_next(lcg_state(2 * k + 2))) % SEED_RESOLUTION) as u32,
        ),
{
    assert(lcg_state(1) == lcg_next(lcg_state(0)));
    assert(lcg_state(2) == lcg_next(lcg_state(1)));
    assert(lcg_state(2 * (k + 1) + 1) == lcg_next(lcg_state(2 * k + 2)));
    assert(lcg_state(2 * (k + 1) + 2) == lcg_next(lcg_state(2 * (k + 1) + 1)));
}

/// Every star lies inside the field: both grid coordinates are below
/// `SEED_RESOLUTION`.
pub proof fn lemma_star_seed_in_field(k: nat)
    ensures
        star_seed(k).0 < SEED_RESOLUTION,
        star_seed(k).1 < SEED_RESOLUTION,
{
}

} // verus!
