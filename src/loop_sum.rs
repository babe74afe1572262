//! A nested-loop accumulator reduced modulo [`SUM_MODULUS`] after every step.
use vstd::prelude::*;
use vstd::arithmetic::div_mod::lemma_add_mod_noop_right;

verus! {

/// The first value of both loop counters in the standard workload.
pub const LOOP_START: i64 = 1;

/// The bound, exclusive, of both loop counters in the standard workload.
pub const LOOP_END: i64 = 1000;

/// The modulus applied to the accumulator after every addition.
pub const SUM_MODULUS: i64 = 100000;

/// A bound on the loop counters under which `sum + i + j` stays within an
/// `i64`.
pub const MAX_BOUND: i64 = 4_000_000_000_000_000_000;

/// One step of the accumulator.
pub open spec fn step(sum: int, i: int, j: int) -> int {
    (sum + i + j) % (SUM_MODULUS as int)
}

/// The accumulator after running the inner loop from `j` up to `end` on row `i`.
pub open spec fn inner_from(sum: int, i: int, j: int, end: int) -> int
    decreases end - j,
{
    if j >= end {
        sum
    } else {
        inner_from(step(sum, i, j), i, j + 1, end)
    }
}

/// The accumulator after running the rows from `i` up to `end`, each with an
/// inner loop over `[start, end)`.
pub open spec fn outer_from(sum: int, i: int, start: int, end: int) -> int
    decreases end - i,
{
    if i >= end {
        sum
    } else {
        outer_from(inner_from(sum, i, start, end), i + 1, start, end)
    }
}

/// The final accumulator of the double loop over `i, j` in `[start, end)`,
/// starting from 0.
pub open spec fn loop_sum(start: int, end: int) -> int {
    outer_from(0, start, start, end)
}

/// The sum of the integers in `[lo, hi)`.
pub open spec fn range_sum(lo: int, hi: int) -> int
    decreases hi - lo,
{
    if lo >= hi {
        0
    } else {
        lo + range_sum(lo + 1, hi)
    }
}

proof fn lemma_range_sum_closed_form(lo: int, hi: int)
    requires
        lo <= hi,
    ensures
        2 * range_sum(lo, hi) == (hi - lo) * (lo + hi - 1),
    decreases hi - lo,
{
    if lo < hi {
        lemma_range_sum_closed_form(lo + 1, hi);
        assert(2 * lo + (hi - lo - 1) * (lo + hi) == (hi - lo) * (lo + hi - 1)) by (nonlinear_arith);
    } else {
        assert((hi - lo) * (lo + hi - 1) == 0) by (nonlinear_arith)
            requires
                hi == lo,
        ;
    }
}

proof fn lemma_inner_from_total(sum: int, i: int, j: int, end: int)
    requires
        0 <= sum < SUM_MODULUS,
        j <= end,
    ensures
        inner_from(sum, i, j, end) == (sum + (end - j) * i + range_sum(j, end)) % (
        SUM_MODULUS as int),
    decreases end - j,
{
    let m = SUM_MODULUS as int;
    if j < end {
        let next = (sum + i + j) % m;
        lemma_inner_from_total(next, i, j + 1, end);
        let rest = (end - j - 1) * i + range_sum(j + 1, end);
        lemma_add_mod_noop_right(rest, sum + i + j, m);
        assert(rest + (sum + i + j) == sum + (end - j) * i + range_sum(j, end)) by (nonlinear_arith)
            requires
                rest == (end - j - 1) * i + range_sum(j + 1, end),
                range_sum(j, end) == j + range_sum(j + 1, end),
        ;
    } else {
        assert(sum % m == sum);
    }
}

proof fn lemma_outer_from_total(sum: int, i: int, start: int, end: int)
    requires
        0 <= sum < SUM_MODULUS,
        i <= end,
        start <= end,
    ensures
        outer_from(sum, i, start, end) == (sum + (end - start) * range_sum(i, end) + (end - i)
            * range_sum(start, end)) % (SUM_MODULUS as int),
    decreases end - i,
{
    let m = SUM_MODULUS as int;
    let n = end - start;
    let row = range_sum(start, end);
    if i < end {
        lemma_inner_from_total(sum, i, start, end);
        let next = inner_from(sum, i, start, end);
        lemma_outer_from_total(next, i + 1, start, end);
        let rest = n * range_sum(i + 1, end) + (end - i - 1) * row;
        lemma_add_mod_noop_right(rest, sum + n * i + row, m);
        assert(rest + (sum + n * i + row) == sum + n * range_sum(i, end) + (end - i) * row)
            by (nonlinear_arith)
            requires
                rest == n * range_sum(i + 1, end) + (end - i - 1) * row,
                range_sum(i, end) == i + range_sum(i + 1, end),
        ;
    } else {
        assert(n * range_sum(i, end) + (end - i) * row == 0) by (nonlinear_arith)
            requires
                i == end,
                range_sum(i, end) == 0,
        ;
        assert(sum % m == sum);
    }
}

/// Reducing after every step ends where a single reduction of the whole total
/// would: over `i, j` in `[start, end)` the terms `i + j` add up to
/// `(end - start)^2 * (start + end - 1)`, and the final accumulator is that
/// total modulo 100000.
pub proof fn lemma_loop_sum_closed_form(start: int, end: int)
    requires
        start <= end,
    ensures
        loop_sum(start, end) == ((end - start) * (end - start) * (start + end - 1)) % (
        SUM_MODULUS as int),
{
    let n = end - start;
    lemma_outer_from_total(0, start, start, end);
    lemma_range_sum_closed_form(start, end);
    assert(n * range_sum(start, end) + n * range_sum(start, end) == n * n * (start + end - 1))
        by (nonlinear_arith)
        requires
            2 * range_sum(start, end) == n * (start + end - 1),
    ;
}

/// Runs `sum = (sum + i + j) % 100000` for every `i` and then every `j` in
/// `[start, end)`, starting from `sum = 0`, and returns the final `sum`.
pub fn nested_loop_sum(start: i64, end: i64) -> (r: i64)
    requires
        0 <= start,
        end <= MAX_BOUND,
    ensures
        r == loop_sum(start as int, end as int),
        0 <= r < SUM_MODULUS,
{
    let mut sum: i64 = 0;
    let mut i: i64 = start;
    while i < end
        invariant
            start <= i,
            0 <= start,
            end <= MAX_BOUND,
            0 <= sum < SUM_MODULUS,
            outer_from(sum as int, i as int, start as int, end as int) == loop_sum(
                start as int,
                end as int,
            ),
        decreases end - i,
    {
        let ghost row_start = sum as int;
        let mut j: i64 = start;
        while j < end
            invariant
                start <= j,
                start <= i < end,
                0 <= start,
                end <= MAX_BOUND,
                0 <= sum < SUM_MODULUS,
                inner_from(sum as int, i as int, j as int, end as int) == inner_from(
                    row_start,
                    i as int,
                    start as int,
                    end as int,
                ),
            decreases end - j,
        {
            sum = (sum + i + j) % SUM_MODULUS;
            j = j + 1;
        }
        i = i + 1;
    }
    sum
}

} // verus!
