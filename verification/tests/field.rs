use pookie_homecoming::stars::{lcg_step, star_seeds, SEED_RESOLUTION, STAR_SEED};

#[test]
fn first_stars_of_the_field() {
    assert_eq!(star_seeds(3), vec![(8868, 2467), (6374, 2157), (7000, 9191)]);
}

#[test]
fn generator_wraps_modulo_two_to_the_32() {
    let s: u32 = lcg_step(STAR_SEED);
    assert_eq!(s as u64, (12345u64 * 1664525 + 1013904223) % (1u64 << 32));
    assert_eq!(lcg_step(u32::MAX), 1013904223u32.wrapping_sub(1664525));
}

#[test]
fn field_is_the_same_every_time_and_inside_the_grid() {
    let a = star_seeds(500);
    let b = star_seeds(500);
    assert_eq!(a, b);
    assert_eq!(a.len(), 500);
    assert!(a.iter().all(|&(x, y)| x < SEED_RESOLUTION && y < SEED_RESOLUTION));
    assert_eq!(&star_seeds(3)[..], &a[..3]);
}

#[test]
fn no_stars_for_zero_count() {
    assert!(star_seeds(0).is_empty());
}
