use pookie_homecoming::enemy::{CRIT_CHANCE_DENOMINATOR, CRIT_CHANCE_NUMERATOR};
use pookie_homecoming::enemy::{
    resolve_laser_hits, resolve_laser_hits_with, Enemy, LaserHit, ENEMY_MAX_HP, LASER_BASE_DAMAGE,
    LASER_CRIT_DAMAGE,
};

#[test]
fn fresh_enemy_has_full_health() {
    assert_eq!(Enemy::new().hp, ENEMY_MAX_HP);
}

#[test]
fn five_regular_hits_destroy_an_enemy() {
    let mut e = Enemy::new();
    for _ in 0..4 {
        assert_eq!(e.take_hit(false), (LASER_BASE_DAMAGE, false));
    }
    assert_eq!(e.take_hit(false), (20, true));
    assert_eq!(e.hp, 0);
}

#[test]
fn four_critical_hits_destroy_an_enemy() {
    let mut e = Enemy::new();
    for _ in 0..3 {
        assert_eq!(e.take_hit(true), (LASER_CRIT_DAMAGE, false));
    }
    assert_eq!(e.take_hit(true), (25, true));
}

#[test]
fn health_bottoms_out() {
    let mut e = Enemy { hp: i32::MIN + 3 };
    assert_eq!(e.take_hit(false), (20, true));
    assert_eq!(e.hp, i32::MIN);
}

#[test]
fn each_laser_hits_first_enemy_in_range_once() {
    let in_range = vec![vec![false, true, true], vec![false, false, false], vec![true, false, true]];
    let crits = vec![true, true, false];
    let mut enemies = vec![Enemy::new(), Enemy::new(), Enemy { hp: 10 }];
    let hits = resolve_laser_hits_with(&in_range, &crits, &mut enemies);
    assert_eq!(
        hits,
        vec![
            LaserHit { laser: 0, enemy: 1, damage: 25, destroyed: false },
            LaserHit { laser: 2, enemy: 0, damage: 20, destroyed: false },
        ]
    );
    assert_eq!(enemies.iter().map(|e| e.hp).collect::<Vec<_>>(), vec![80, 75, 10]);
}

#[test]
fn dying_enemy_stays_a_target_within_the_frame() {
    let in_range = vec![vec![true], vec![true]];
    let crits = vec![false, false];
    let mut enemies = vec![Enemy { hp: 15 }];
    let hits = resolve_laser_hits_with(&in_range, &crits, &mut enemies);
    assert_eq!(hits.len(), 2);
    assert!(hits[0].destroyed && hits[1].destroyed);
    assert_eq!(enemies[0].hp, -25);
}

#[test]
fn random_rolls_deal_regular_or_critical_damage() {
    let in_range = vec![vec![true, false]; 50];
    let mut enemies = vec![Enemy { hp: 100_000 }, Enemy::new()];
    let hits = resolve_laser_hits(&in_range, &mut enemies);
    assert_eq!(hits.len(), 50);
    let total: i32 = hits.iter().map(|h| h.damage).sum();
    assert!(hits.iter().all(|h| h.enemy == 0 && (h.damage == 20 || h.damage == 25)));
    assert_eq!(enemies[0].hp, 100_000 - total);
    assert_eq!(enemies[1].hp, ENEMY_MAX_HP);
}

#[test]
fn lasers_out_of_range_do_nothing() {
    let in_range = vec![vec![false, false]];
    let mut enemies = vec![Enemy::new(), Enemy::new()];
    assert!(resolve_laser_hits(&in_range, &mut enemies).is_empty());
    assert_eq!(enemies, vec![Enemy::new(), Enemy::new()]);
}

#[test]
fn critical_chance_is_ten_percent_in_single_precision() {
    assert_eq!(
        CRIT_CHANCE_NUMERATOR as f64 / CRIT_CHANCE_DENOMINATOR as f64,
        0.10f32 as f64
    );
}
