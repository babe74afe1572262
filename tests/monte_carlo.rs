use rand::rngs::StdRng;
use rand::{Rng, SeedableRng};
use speedtest::monte_carlo::{count_inside, is_inside, PointSource, TRIALS};

#[test]
fn points_on_and_off_the_disc() {
    assert!(is_inside(0, 0));
    assert!(is_inside(u32::MAX, 0));
    assert!(is_inside(0, u32::MAX));
    assert!(!is_inside(u32::MAX, u32::MAX));
    // 2^28 * (3, 4) lies on the circle of radius 5 * 2^28, inside the unit one
    assert!(is_inside(3 << 28, 4 << 28));
    assert!(!is_inside(0xC000_0000, 0xC000_0000));
    // the diagonal crosses the circle between these two neighbours
    assert!(is_inside(0xB504_F333, 0xB504_F333));
    assert!(!is_inside(0xB504_F334, 0xB504_F334));
}

#[test]
fn zero_trials() {
    let mut src = PointSource::new(StdRng::seed_from_u64(7));
    assert_eq!(count_inside(&mut src, 0), 0);
}

#[test]
fn count_matches_the_same_draws() {
    let mut src = PointSource::new(StdRng::seed_from_u64(42));
    let r = count_inside(&mut src, 1000);
    let mut replay = StdRng::seed_from_u64(42);
    let mut expected: u64 = 0;
    for _ in 0..1000 {
        let x: u32 = replay.random::<u32>();
        let y: u32 = replay.random::<u32>();
        let xx = (x as u128) * (x as u128);
        let yy = (y as u128) * (y as u128);
        if xx + yy <= 1u128 << 64 {
            expected += 1;
        }
    }
    assert_eq!(r, expected);
    assert!(r > 0 && r < 1000);
}

#[test]
fn estimate_is_close_to_pi() {
    let mut src = PointSource::new(StdRng::seed_from_u64(2024));
    let inside = count_inside(&mut src, TRIALS);
    let pi = 4.0 * (inside as f64) / (TRIALS as f64);
    assert!((pi - 3.14159).abs() <= 0.01, "estimate {}", pi);
}

#[test]
fn draw_hands_out_the_generator_values_in_order() {
    let mut src = PointSource::new(StdRng::seed_from_u64(9));
    let mut replay = StdRng::seed_from_u64(9);
    for _ in 0..5 {
        assert_eq!(src.draw(), replay.random::<u32>());
    }
}

#[test]
fn consecutive_counts_use_fresh_draws() {
    let mut src = PointSource::new(StdRng::seed_from_u64(5));
    let first = count_inside(&mut src, 500);
    let second = count_inside(&mut src, 500);
    let mut whole = PointSource::new(StdRng::seed_from_u64(5));
    assert_eq!(first + second, count_inside(&mut whole, 1000));
}
