//! Counting quadratic residues modulo `m` by exhaustive search.
use vstd::prelude::*;
use vstd::set_lib::{lemma_int_range, lemma_len_subset, set_int_range};

verus! {

/// The modulus of the standard workload.
pub const QR_MODULUS: i64 = 5000;

/// Largest modulus for which `i * i` with `0 <= i < m` fits in an `i64`.
pub const MAX_MODULUS: i64 = 3_037_000_500;

/// The square of `i` reduced modulo `m`.
pub open spec fn sq_mod(i: int, m: int) -> int {
    (i * i) % m
}

/// `n` is a quadratic residue modulo `m`: some `i` in `[0, m)` has `i * i mod m == n`.
pub open spec fn is_qr(n: int, m: int) -> bool {
    exists|i: int| 0 <= i < m && #[trigger] sq_mod(i, m) == n
}

/// The quadratic residues modulo `m` that are below `k`.
pub open spec fn residues_below(m: int, k: int) -> Set<int> {
    Set::new(|n: int| 0 <= n < k && is_qr(n, m))
}

/// The number of distinct quadratic residues modulo `m`.
pub open spec fn qr_count(m: int) -> int {
    residues_below(m, m).len() as int
}

/// The set of values `i * i mod m` over `i` in `[0, m)`.
pub open spec fn square_image(m: int) -> Set<int> {
    set_int_range(0, m).map(|i: int| sq_mod(i, m))
}

proof fn lemma_residues_below_len(m: int, k: int)
    requires
        0 <= k,
    ensures
        residues_below(m, k).finite(),
        residues_below(m, k).len() <= k,
{
    lemma_int_range(0, k);
    lemma_len_subset(residues_below(m, k), set_int_range(0, k));
}

proof fn lemma_residues_below_step(m: int, k: int)
    requires
        0 <= k,
    ensures
        is_qr(k, m) ==> residues_below(m, k + 1) == residues_below(m, k).insert(k),
        !is_qr(k, m) ==> residues_below(m, k + 1) == residues_below(m, k),
{
    assert(is_qr(k, m) ==> residues_below(m, k + 1) =~= residues_below(m, k).insert(k));
    assert(!is_qr(k, m) ==> residues_below(m, k + 1) =~= residues_below(m, k));
}

/// Returns 1 when `n` is a quadratic residue modulo `m`, else 0. For `m <= 0`
/// there is nothing to search and the result is 0.
pub fn quad_res(n: i64, m: i64) -> (r: i64)
    requires
        m <= MAX_MODULUS,
    ensures
        r == (if is_qr(n as int, m as int) { 1int } else { 0int }),
{
    let mut i: i64 = 0;
    while i < m
        invariant
            0 <= i,
            0 < m ==> i <= m,
            m <= MAX_MODULUS,
            forall|k: int| 0 <= k < i ==> #[trigger] sq_mod(k, m as int) != n,
        decreases m - i,
    {
        assert(i * i <= 9_223_372_030_926_249_001) by (nonlinear_arith)
            requires
                0 <= i <= 3_037_000_499,
        ;
        if i * i % m == n {
            assert(sq_mod(i as int, m as int) == n);
            return 1;
        }
        i = i + 1;
    }
    0
}

/// The number of distinct quadratic residues modulo `m`, found by testing
/// each `n` in `[0, m)` with [`quad_res`].
/// For `m <= 0` there is nothing to test and the result is 0.
pub fn count_quadratic_residues(m: i64) -> (r: i64)
    requires
        m <= MAX_MODULUS,
    ensures
        r == qr_count(m as int),
{
    let mut count: i64 = 0;
    let mut n: i64 = 0;
    proof {
        assert(residues_below(m as int, 0) =~= Set::empty());
        assert(residues_below(m as int, 0).len() == 0);
        if m <= 0 {
            assert(residues_below(m as int, m as int) =~= Set::empty());
        }
    }
    while n < m
        invariant
            0 <= n,
            0 < m ==> n <= m,
            m <= 0 ==> residues_below(m as int, m as int).len() == 0 && count == 0,
            m <= MAX_MODULUS,
            count == residues_below(m as int, n as int).len(),
        decreases m - n,
    {
        proof {
            lemma_residues_below_len(m as int, n as int);
            lemma_residues_below_step(m as int, n as int);
        }
        count = count + quad_res(n, m);
        n = n + 1;
    }
    count
}

/// The count of quadratic residues modulo `m` found by testing each `n` below
/// `m` equals the number of distinct values `i * i mod m` for `i` in `[0, m)`.
pub proof fn lemma_qr_count_is_square_image_size(m: int)
    requires
        0 < m,
    ensures
        qr_count(m) == square_image(m).len(),
        square_image(m).finite(),
{
    assert forall|n: int| #[trigger] square_image(m).contains(n) implies residues_below(m, m).contains(n) by {
        let i = choose|i: int| set_int_range(0, m).contains(i) && sq_mod(i, m) == n;
        assert(0 <= n < m);
    }
    assert forall|n: int| #[trigger] residues_below(m, m).contains(n) implies square_image(m).contains(n) by {
        let i = choose|i: int| 0 <= i < m && #[trigger] sq_mod(i, m) == n;
        assert(set_int_range(0, m).contains(i));
    }
    assert(square_image(m) =~= residues_below(m, m));
    lemma_residues_below_len(m, m);
}

/// The count is a function of the modulus alone: two results that
/// [`count_quadratic_residues`] returns for the same modulus are equal.
pub proof fn lemma_count_deterministic(m: int, r1: int, r2: int)
    requires
        r1 == qr_count(m),
        r2 == qr_count(m),
    ensures
        r1 == r2,
{
}

} // verus!
