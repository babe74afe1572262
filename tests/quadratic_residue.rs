use std::collections::HashSet;
use speedtest::quadratic_residue::{count_quadratic_residues, quad_res, MAX_MODULUS, QR_MODULUS};

fn distinct_squares(m: i64) -> i64 {
    let mut seen = HashSet::new();
    for i in 0..m {
        seen.insert(i * i % m);
    }
    seen.len() as i64
}

#[test]
fn count_matches_distinct_squares_for_standard_modulus() {
    assert_eq!(QR_MODULUS, 5000);
    let r = count_quadratic_residues(QR_MODULUS);
    assert_eq!(r, distinct_squares(QR_MODULUS));
    assert_eq!(r, 783);
}

#[test]
fn count_for_modulus_five() {
    assert_eq!(count_quadratic_residues(5), 3);
}

#[test]
fn count_small_moduli() {
    assert_eq!(count_quadratic_residues(0), 0);
    assert_eq!(count_quadratic_residues(1), 1);
    assert_eq!(count_quadratic_residues(2), 2);
    assert_eq!(count_quadratic_residues(8), 3);
    assert_eq!(count_quadratic_residues(12), 4);
    for m in 1..60 {
        assert_eq!(count_quadratic_residues(m), distinct_squares(m));
    }
}

#[test]
fn count_is_deterministic() {
    let a = count_quadratic_residues(QR_MODULUS);
    let b = count_quadratic_residues(QR_MODULUS);
    assert_eq!(a, b);
}

#[test]
fn quad_res_modulus_five() {
    assert_eq!(quad_res(0, 5), 1);
    assert_eq!(quad_res(1, 5), 1);
    assert_eq!(quad_res(2, 5), 0);
    assert_eq!(quad_res(3, 5), 0);
    assert_eq!(quad_res(4, 5), 1);
}

#[test]
fn quad_res_out_of_range() {
    assert_eq!(quad_res(5, 5), 0);
    assert_eq!(quad_res(-1, 5), 0);
}

#[test]
fn quad_res_largest_modulus() {
    assert_eq!(quad_res(0, MAX_MODULUS), 1);
    assert_eq!(quad_res(1, MAX_MODULUS), 1);
}

#[test]
fn nonpositive_modulus_has_no_residues() {
    assert_eq!(quad_res(0, 0), 0);
    assert_eq!(quad_res(0, -5), 0);
    assert_eq!(quad_res(1, i64::MIN), 0);
    assert_eq!(count_quadratic_residues(0), 0);
    assert_eq!(count_quadratic_residues(-3), 0);
}

#[test]
fn largest_modulus_is_admitted() {
    assert_eq!(MAX_MODULUS, 3_037_000_500);
    assert_eq!(quad_res(4, MAX_MODULUS), 1);
    assert_eq!(quad_res(9, MAX_MODULUS), 1);
}

#[test]
fn quad_res_splits_over_coprime_factors() {
    for (m1, m2) in [(3i64, 5i64), (4, 9), (7, 8)] {
        let m = m1 * m2;
        for n in 0..m {
            assert_eq!(quad_res(n, m), quad_res(n % m1, m1) * quad_res(n % m2, m2));
        }
    }
}
