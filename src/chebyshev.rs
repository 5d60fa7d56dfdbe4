//! Truncation orders of Chebyshev series.
//!
//! A series of `n` coefficients is summed from its highest used index down to
//! index 0, so the order used must stay below `n`. A caller that bounds the
//! work gives a maximum order, which is clamped to what the table holds.
use vstd::prelude::*;

verus! {

/// The smaller of two unsigned integers.
pub fn min(a: usize, b: usize) -> (r: usize)
    ensures
        r == if a <= b { a } else { b },
{
    if a.checked_sub(b).is_some() {
        b
    } else {
        a
    }
}

/// The order used under a caller's bound: the bound, or the table's last
/// index where the bound lies past it.
pub open spec fn order_used(max_order: int, n_coefficients: int) -> int {
    if max_order < n_coefficients {
        max_order
    } else {
        n_coefficients - 1
    }
}

/// The order at which a series of `n_coefficients` terms is summed when the
/// caller allows at most `max_order`: the smaller of the two, and never past
/// the table's last index.
pub fn order(max_order: usize, n_coefficients: usize) -> (r: usize)
    requires
        n_coefficients > 0,
    ensures
        r == order_used(max_order as int, n_coefficients as int),
        r < n_coefficients,
{
    min(max_order, n_coefficients - 1)
}

/// The order a series is summed at with no bound given: its last index.
pub fn full_order(n_coefficients: usize) -> (r: usize)
    requires
        n_coefficients > 0,
    ensures
        r == n_coefficients - 1,
{
    n_coefficients - 1
}

/// A bound at or past the table's last index sums the whole table, as the
/// evaluation without a bound does; a bound below it sums fewer terms.
pub proof fn lemma_bound_past_table_is_full(max_order: int, n_coefficients: int)
    requires
        n_coefficients > 0,
    ensures
        order_used(max_order as int, n_coefficients as int) == n_coefficients - 1
            <==> max_order >= n_coefficients - 1,
{
}

} // verus!
