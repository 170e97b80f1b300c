use vstd::prelude::*;

verus! {

/// Health of a freshly spawned enemy.
pub const ENEMY_MAX_HP: i32 = 100;
/// Damage of an ordinary laser hit.
pub const LASER_BASE_DAMAGE: i32 = 20;
/// Damage of a critical laser hit.
pub const LASER_CRIT_DAMAGE: i32 = 25;
/// A laser hit is critical with probability
/// `CRIT_CHANCE_NUMERATOR / CRIT_CHANCE_DENOMINATOR`: ten percent as a
/// single-precision number, 13421773 / 2^27.
pub const CRIT_CHANCE_NUMERATOR: u32 = 13421773;
pub const CRIT_CHANCE_DENOMINATOR: u32 = 134217728;

/// `rand::random_ratio(n, d)` returns `true` with probability `n / d`,
/// drawn from the thread-local generator. Its documentation promises
/// `false` when `n == 0` and `true` when `n == d`, and a panic when
/// `d == 0` or `n > d`. Which value comes back otherwise is left to chance
/// and is not stated.
pub assume_specification[rand::random_ratio](numerator: u32, denominator: u32) -> (r: bool)
    requires
        denominator > 0,
        numerator <= denominator,
    ensures
        numerator == 0 ==> !r,
        numerator == denominator ==> r,
;

/// An enemy ship's health. Health is counted in whole points: every
/// value it takes (full health minus hits of 20 or 25) is an integer.
#[derive(Clone, Copy, PartialEq, Eq, Structural, Debug)]
pub struct Enemy {
    pub hp: i32,
}

/// One laser striking one enemy during a frame.
#[derive(Clone, Copy, PartialEq, Eq, Structural, Debug)]
pub struct LaserHit {
    /// Index of the laser, which is used up by the hit.
    pub laser: usize,
    /// Index of the enemy it struck.
    pub enemy: usize,
    /// The damage dealt.
    pub damage: i32,
    /// Whether the enemy's health reached zero or below with this hit.
    pub destroyed: bool,
}

pub open spec fn laser_damage(crit: bool) -> i32 {
    if crit { LASER_CRIT_DAMAGE } else { LASER_BASE_DAMAGE }
}

/// Health after a hit; health bottoms out at the smallest `i32`.
pub open spec fn hp_after_hit(hp: i32, crit: bool) -> i32 {
    if hp - laser_damage(crit) < i32::MIN { i32::MIN } else { (hp - laser_damage(crit)) as i32 }
}

/// `j` is the first enemy in range of a laser.
pub open spec fn is_first_in_range(row: Seq<bool>, j: int) -> bool {
    &&& 0 <= j < row.len()
    &&& row[j]
    &&& forall|k: int| 0 <= k < j ==> !row[k]
}

pub open spec fn any_in_range(row: Seq<bool>) -> bool {
    exists|j: int| 0 <= j < row.len() && row[j]
}

/// The first enemy in range of a laser, if any.
pub open spec fn first_in_range(row: Seq<bool>) -> int {
    choose|j: int| is_first_in_range(row, j)
}

/// The effect of laser `i` on the hits so far and the enemies' health.
pub open spec fn laser_step(
    i: int,
    row: Seq<bool>,
    crit: bool,
    state: (Seq<LaserHit>, Seq<i32>),
) -> (Seq<LaserHit>, Seq<i32>) {
    if any_in_range(row) {
        let j: int = first_in_range(row);
        let hp: i32 = hp_after_hit(state.1[j], crit);
        (
            state.0.push(LaserHit { laser: i as usize, enemy: j as usize, damage: laser_damage(crit), destroyed: hp <= 0 }),
            state.1.update(j, hp),
        )
    } else {
        state
    }
}

/// The hits and the health left after the first `n` lasers: each laser
/// strikes the first enemy within reach, if any, and is used up.
/// `crits[i]` says whether laser `i`'s hit is critical.
pub open spec fn resolve_hits(in_range: Seq<Seq<bool>>, crits: Seq<bool>, hp: Seq<i32>, n: nat) -> (
    Seq<LaserHit>,
    Seq<i32>,
)
    decreases n,
{
    if n == 0 {
        (Seq::empty(), hp)
    } else {
        laser_step(
            n - 1,
            in_range[n - 1],
            crits[n - 1],
            resolve_hits(in_range, crits, hp, (n - 1) as nat),
        )
    }
}

/// The in-range table as plain sequences.
pub open spec fn rows_of(in_range: Seq<Vec<bool>>) -> Seq<Seq<bool>> {
    in_range.map_values(|r: Vec<bool>| r@)
}

pub open spec fn healths(enemies: Seq<Enemy>) -> Seq<i32> {
    enemies.map_values(|e: Enemy| e.hp)
}

impl Enemy {
    /// A new enemy at full health.
    pub fn new() -> (e: Self)
        ensures
            e.hp == ENEMY_MAX_HP,
    {
        Enemy { hp: ENEMY_MAX_HP }
    }

    /// A laser hits this enemy. Returns the damage and whether the enemy is
    /// destroyed (health at zero or below).
    pub fn take_hit(&mut self, crit: bool) -> (out: (i32, bool))
        ensures
            out.0 == laser_damage(crit),
            final(self).hp == hp_after_hit(old(self).hp, crit),
            out.1 == (final(self).hp <= 0),
    {
        let damage: i32 = if crit { LASER_CRIT_DAMAGE } else { LASER_BASE_DAMAGE };
        if self.hp < i32::MIN + damage {
            self.hp = i32::MIN;
        } else {
            self.hp = self.hp - damage;
        }
        (damage, self.hp <= 0)
    }
}

/// The first enemy within reach of a laser.
fn first_enemy_in_range(row: &Vec<bool>) -> (r: Option<usize>)
    ensures
        r is Some <==> any_in_range(row@),
        r matches Some(j) ==> is_first_in_range(row@, j as int),
{
    let mut j: usize = 0;
    while j < row.len()
        invariant
            j <= row@.len(),
            forall|k: int| 0 <= k < j ==> !row@[k],
        decreases row.len() - j,
    {
        if row[j] {
            return Some(j);
        }
        j = j + 1;
    }
    None
}

proof fn lemma_first_unique(row: Seq<bool>, j: int)
    requires
        is_first_in_range(row, j),
    ensures
        first_in_range(row) == j,
        any_in_range(row),
{
    let c: int = first_in_range(row);
    assert(is_first_in_range(row, c));
    if c < j {
        assert(!row[c]);
    } else if c > j {
        assert(!row[j]);
    }
}

/// Resolves the lasers of a frame against the enemies, in order: each laser
/// strikes the first enemy within reach (`in_range[i][j]`: laser `i` is
/// within hit distance of enemy `j`), deals critical damage when
/// `crits[i]` holds, and is used up. An enemy at zero health or below stays
/// a target until the frame ends.
pub fn resolve_laser_hits_with(in_range: &Vec<Vec<bool>>, crits: &Vec<bool>, enemies: &mut Vec<Enemy>) -> (hits: Vec<LaserHit>)
    requires
        crits@.len() == in_range@.len(),
        forall|i: int| 0 <= i < in_range@.len() ==> (#[trigger] in_range@[i])@.len() == old(enemies)@.len(),
    ensures
        final(enemies)@.len() == old(enemies)@.len(),
        (hits@, healths(final(enemies)@)) == resolve_hits(
            rows_of(in_range@),
            crits@,
            healths(old(enemies)@),
            in_range@.len() as nat,
        ),
{
    let ghost rows = rows_of(in_range@);
    let ghost hp0 = healths(enemies@);
    let mut hits: Vec<LaserHit> = Vec::new();
    let mut i: usize = 0;
    while i < in_range.len()
        invariant
            rows == rows_of(in_range@),
            hp0 == healths(old(enemies)@),
            crits@.len() == in_range@.len(),
            forall|k: int| 0 <= k < in_range@.len() ==> (#[trigger] in_range@[k])@.len() == old(enemies)@.len(),
            i <= in_range@.len(),
            enemies@.len() == old(enemies)@.len(),
            (hits@, healths(enemies@)) == resolve_hits(rows, crits@, hp0, i as nat),
        decreases in_range.len() - i,
    {
        let ghost before = (hits@, healths(enemies@));
        let row = &in_range[i];
        assert(rows[i as int] == row@);
        match first_enemy_in_range(row) {
            Some(j) => {
                proof {
                    lemma_first_unique(row@, j as int);
                }
                let crit = crits[i];
                let mut e = enemies[j];
                let (damage, destroyed): (i32, bool) = e.take_hit(crit);
                enemies.set(j, e);
                hits.push(LaserHit { laser: i, enemy: j, damage, destroyed });
                proof {
                    assert(healths(enemies@) =~= before.1.update(j as int, e.hp));
                }
            },
            None => {},
        }
        i = i + 1;
    }
    hits
}

/// Rolls whether a laser hit is critical.
fn roll_crit() -> bool {
    rand::random_ratio(CRIT_CHANCE_NUMERATOR, CRIT_CHANCE_DENOMINATOR)
}

/// Resolves the lasers of a frame as `resolve_laser_hits_with` does,
/// rolling a critical hit with a ten percent chance for each laser that
/// strikes an enemy. Whatever the rolls, the outcome is the resolution for
/// some choice of critical hits.
pub fn resolve_laser_hits(in_range: &Vec<Vec<bool>>, enemies: &mut Vec<Enemy>) -> (hits: Vec<LaserHit>)
    requires
        forall|i: int| 0 <= i < in_range@.len() ==> (#[trigger] in_range@[i])@.len() == old(enemies)@.len(),
    ensures
        final(enemies)@.len() == old(enemies)@.len(),
        exists|crits: Seq<bool>|
            crits.len() == in_range@.len() && (hits@, healths(final(enemies)@)) == #[trigger] resolve_hits(
                rows_of(in_range@),
                crits,
                healths(old(enemies)@),
                in_range@.len() as nat,
            ),
{
    let mut crits: Vec<bool> = Vec::new();
    let mut i: usize = 0;
    while i < in_range.len()
        invariant
            i <= in_range@.len(),
            crits@.len() == i,
        decreases in_range.len() - i,
    {
        let strikes = first_enemy_in_range(&in_range[i]).is_some();
        let crit = if strikes { roll_crit() } else { false };
        crits.push(crit);
        i = i + 1;
    }
    let hits = resolve_laser_hits_with(in_range, &crits, enemies);
    assert(crits@.len() == in_range@.len());
    hits
}

/// Every hit deals ordinary or critical damage, and lasers strike in
/// order, each at most once.
pub proof fn lemma_hits_well_formed(in_range: Seq<Seq<bool>>, crits: Seq<bool>, hp: Seq<i32>, n: nat)
    requires
        n <= in_range.len(),
        n <= crits.len(),
        n <= usize::MAX,
        hp.len() <= usize::MAX,
        forall|i: int| 0 <= i < n ==> (#[trigger] in_range[i]).len() == hp.len(),
    ensures
        resolve_hits(in_range, crits, hp, n).1.len() == hp.len(),
        resolve_hits(in_range, crits, hp, n).0.len() <= n,
        forall|k: int| 0 <= k < resolve_hits(in_range, crits, hp, n).0.len() ==> {
            let h = #[trigger] resolve_hits(in_range, crits, hp, n).0[k];
            &&& (h.damage == LASER_BASE_DAMAGE || h.damage == LASER_CRIT_DAMAGE)
            &&& h.laser < n
            &&& h.enemy < hp.len()
            &&& is_first_in_range(in_range[h.laser as int], h.enemy as int)
        },
        forall|k1: int, k2: int|
            0 <= k1 < k2 < resolve_hits(in_range, crits, hp, n).0.len() ==>
                (#[trigger] resolve_hits(in_range, crits, hp, n).0[k1]).laser
                    < (#[trigger] resolve_hits(in_range, crits, hp, n).0[k2]).laser,
    decreases n,
{
    if n > 0 {
        lemma_hits_well_formed(in_range, crits, hp, (n - 1) as nat);
        let prev = resolve_hits(in_range, crits, hp, (n - 1) as nat);
        let row = in_range[n - 1];
        let cur = resolve_hits(in_range, crits, hp, n);
        assert(cur == laser_step(n - 1, row, crits[n - 1], prev));
        if any_in_range(row) {
            let w: int = choose|j: int| 0 <= j < row.len() && row[j];
            lemma_first_exists(row, w);
            let j: int = first_in_range(row);
            assert(cur.0 == prev.0.push(LaserHit {
                laser: (n - 1) as usize,
                enemy: j as usize,
                damage: laser_damage(crits[n - 1]),
                destroyed: hp_after_hit(prev.1[j], crits[n - 1]) <= 0,
            }));
            assert forall|k: int| 0 <= k < cur.0.len() implies {
                let h = #[trigger] cur.0[k];
                &&& (h.damage == LASER_BASE_DAMAGE || h.damage == LASER_CRIT_DAMAGE)
                &&& h.laser < n
                &&& h.enemy < hp.len()
                &&& is_first_in_range(in_range[h.laser as int], h.enemy as int)
            } by {
                if k < prev.0.len() {
                    assert(cur.0[k] == prev.0[k]);
                }
            }
            assert forall|k1: int, k2: int| 0 <= k1 < k2 < cur.0.len() implies
                (#[trigger] cur.0[k1]).laser < (#[trigger] cur.0[k2]).laser by {
                assert(cur.0[k1] == prev.0[k1]);
                if k2 < prev.0.len() {
                    assert(cur.0[k2] == prev.0[k2]);
                }
            }
        }
    }
}

/// Each hit reports the enemy destroyed exactly when that enemy's health,
/// right after the hit, is zero or below; and that health is the health
/// before the hit less the damage dealt (bottoming out at the smallest `i32`).
pub proof fn lemma_hit_destroys_at_zero(in_range: Seq<Seq<bool>>, crits: Seq<bool>, hp: Seq<i32>, n: nat, k: int)
    requires
        n <= in_range.len(),
        n <= crits.len(),
        n <= usize::MAX,
        hp.len() <= usize::MAX,
        forall|i: int| 0 <= i < n ==> (#[trigger] in_range[i]).len() == hp.len(),
        0 <= k < resolve_hits(in_range, crits, hp, n).0.len(),
    ensures
        ({
            let h = resolve_hits(in_range, crits, hp, n).0[k];
            let before = resolve_hits(in_range, crits, hp, h.laser as nat).1[h.enemy as int];
            let after = resolve_hits(in_range, crits, hp, (h.laser + 1) as nat).1[h.enemy as int];
            &&& h.destroyed == (after <= 0)
            &&& (before - h.damage >= i32::MIN ==> after == before - h.damage)
            &&& (before - h.damage < i32::MIN ==> after == i32::MIN)
        }),
    decreases n,
{
    lemma_hits_well_formed(in_range, crits, hp, n);
    if n > 0 {
        let prev = resolve_hits(in_range, crits, hp, (n - 1) as nat);
        let row = in_range[n - 1];
        let cur = resolve_hits(in_range, crits, hp, n);
        assert(cur == laser_step(n - 1, row, crits[n - 1], prev));
        if any_in_range(row) {
            let w: int = choose|j: int| 0 <= j < row.len() && row[j];
            lemma_first_exists(row, w);
            if k < prev.0.len() {
                assert(cur.0[k] == prev.0[k]);
                lemma_hit_destroys_at_zero(in_range, crits, hp, (n - 1) as nat, k);
            } else {
                let j: int = first_in_range(row);
                lemma_hits_well_formed(in_range, crits, hp, (n - 1) as nat);
                assert(prev.1.len() == hp.len());
                assert(k == prev.0.len());
                assert(cur.0[k].laser == n - 1);
                assert(cur.0[k].enemy == j);
                assert((cur.0[k].laser + 1) as nat == n);
                assert(cur.0[k].laser as nat == (n - 1) as nat);
                assert(cur.1[j] == hp_after_hit(prev.1[j], crits[n - 1]));
            }
        } else {
            lemma_hit_destroys_at_zero(in_range, crits, hp, (n - 1) as nat, k);
        }
    }
}

proof fn lemma_first_exists(row: Seq<bool>, w: int)
    requires
        0 <= w < row.len(),
        row[w],
    ensures
        is_first_in_range(row, first_in_range(row)),
    decreases w,
{
    if exists|k: int| 0 <= k < w && row[k] {
        let k: int = choose|k: int| 0 <= k < w && row[k];
        lemma_first_exists(row, k);
    } else {
        assert(is_first_in_range(row, w));
    }
}

} // verus!
