//! Exact rational structure of the associated-Legendre recursions.
//!
//! The Gauss-normalized recursion
//! `P(n,m) = cos(t)*P(n-1,m) - K(n,m)*P(n-2,m)` uses the coefficient
//! `K(n,m) = ((n-1)^2 - m^2) / ((2n-1)(2n-3))`, a ratio of integers.
//! The Schmidt semi-normalization factors `S(n,m)` are likewise built by
//! multiplying the previous entry with a ratio of integers (for the
//! sectoral columns, the ratio of the squares).  This module computes
//! those integer pairs exactly; the floating-point layer only divides
//! them out.

use vstd::prelude::*;

verus! {

/// Numerator of the recursion coefficient `K(n,m)`.
pub open spec fn k_num(n: int, m: int) -> int {
    (n - 1) * (n - 1) - m * m
}

/// Denominator of the recursion coefficient `K(n,m)`.
pub open spec fn k_den(n: int) -> int {
    (2 * n - 1) * (2 * n - 3)
}

/// Largest degree the exact coefficient computations accept; keeps every
/// intermediate product comfortably inside `u64`.
pub const MAX_DEGREE: usize = 65535;

/// The exact recursion coefficient `K(n,m)` as the fraction
/// `r.0 / r.1 = ((n-1)^2 - m^2) / ((2n-1)(2n-3))`.
pub fn recursion_coefficient(n: usize, m: usize) -> (r: (u64, u64))
    requires
        2 <= n <= MAX_DEGREE,
        m < n,
    ensures
        r.0 == k_num(n as int, m as int),
        r.1 == k_den(n as int),
        r.1 > 0,
{
    let nm1: u64 = (n - 1) as u64;
    let mm: u64 = m as u64;
    assert(mm * mm <= nm1 * nm1) by (nonlinear_arith)
        requires mm <= nm1
    ;
    assert(nm1 * nm1 <= 0xffff * 0xffff) by (nonlinear_arith)
        requires nm1 <= 0xffff
    ;
    let num: u64 = nm1 * nm1 - mm * mm;
    let tn1: u64 = 2 * (n as u64) - 1;
    let tn3: u64 = 2 * (n as u64) - 3;
    assert(tn1 * tn3 <= 0x20000 * 0x20000) by (nonlinear_arith)
        requires tn1 <= 0x20000, tn3 <= 0x20000
    ;
    let den: u64 = tn1 * tn3;
    assert(den > 0) by (nonlinear_arith)
        requires tn1 >= 1, tn3 >= 1, den == tn1 * tn3
    ;
    (num, den)
}

/// Numerator of the multiplier that advances the Schmidt factors:
/// `S(n,0) = S(n-1,0) * (2n-1)/n`, while for `m >= 1` the *square* of the
/// factor advances, `S(n,1)^2 = S(n,0)^2 * 2n/(n+1)` and
/// `S(n,m)^2 = S(n,m-1)^2 * (n-m+1)/(n+m)`.
pub open spec fn schmidt_step_num(n: int, m: int) -> int {
    if m == 0 {
        2 * n - 1
    } else if m == 1 {
        2 * n
    } else {
        n - m + 1
    }
}

/// Denominator of the Schmidt advancement multiplier; see [`schmidt_step_num`].
pub open spec fn schmidt_step_den(n: int, m: int) -> int {
    if m == 0 {
        n
    } else if m == 1 {
        n + 1
    } else {
        n + m
    }
}

/// The exact integer pair whose ratio (for `m == 0`) or whose ratio's
/// square root (for `m >= 1`) advances the Schmidt semi-normalization
/// table from its predecessor entry.
pub fn schmidt_step(n: usize, m: usize) -> (r: (u64, u64))
    requires
        1 <= n <= MAX_DEGREE,
        m <= n,
    ensures
        r.0 == schmidt_step_num(n as int, m as int),
        r.1 == schmidt_step_den(n as int, m as int),
        r.0 > 0,
        r.1 > 0,
{
    if m == 0 {
        (2 * (n as u64) - 1, n as u64)
    } else if m == 1 {
        (2 * (n as u64), (n as u64) + 1)
    } else {
        ((n as u64) - (m as u64) + 1, (n as u64) + (m as u64))
    }
}

/// At degree one the Schmidt steps are unit ratios, so semi-normalization
/// leaves the base-case polynomials `P(1,0) = cos(t)` and `P(1,1) = sin(t)`
/// unchanged: `S(1,0) = 1` and `S(1,1) = 1`.
pub proof fn lemma_schmidt_unit_at_degree_one()
    ensures
        schmidt_step_num(1, 0) == schmidt_step_den(1, 0),
        schmidt_step_num(1, 1) == schmidt_step_den(1, 1),
{
}

/// The full table of recursion coefficients for degrees up to `n_degree`,
/// shaped `(n_degree+1) x (n_degree+1)`: entry `[n][m]` holds the exact
/// fraction `K(n,m)` for `2 <= n`, `m < n`, and the neutral fraction `0/1`
/// everywhere the recursion never reads.
pub fn recursion_coefficients(n_degree: usize) -> (r: Vec<Vec<(u64, u64)>>)
    requires
        n_degree <= MAX_DEGREE,
    ensures
        r@.len() == n_degree + 1,
        forall|i: int| 0 <= i <= n_degree ==> (#[trigger] r@[i])@.len() == n_degree + 1,
        forall|i: int, j: int|
            2 <= i <= n_degree && 0 <= j < i ==> (#[trigger] r@[i]@[j]).0 == k_num(i, j)
                && r@[i]@[j].1 == k_den(i),
        forall|i: int, j: int|
            0 <= i <= n_degree && 0 <= j <= n_degree && !(2 <= i && j < i) ==> (
            #[trigger] r@[i]@[j]) == (0u64, 1u64),
{
    let n_size: usize = n_degree + 1;
    let mut table: Vec<Vec<(u64, u64)>> = Vec::new();
    let mut i: usize = 0;
    while i < n_size
        invariant
            i <= n_size,
            n_size == n_degree + 1,
            n_degree <= MAX_DEGREE,
            table@.len() == i,
            forall|a: int| 0 <= a < i ==> (#[trigger] table@[a])@.len() == n_size,
            forall|a: int, b: int|
                2 <= a < i && 0 <= b < a ==> (#[trigger] table@[a]@[b]).0 == k_num(a, b)
                    && table@[a]@[b].1 == k_den(a),
            forall|a: int, b: int|
                0 <= a < i && 0 <= b < n_size && !(2 <= a && b < a) ==> (
                #[trigger] table@[a]@[b]) == (0u64, 1u64),
        decreases n_size - i,
    {
        let mut row: Vec<(u64, u64)> = Vec::new();
        let mut j: usize = 0;
        while j < n_size
            invariant
                j <= n_size,
                i < n_size,
                n_size == n_degree + 1,
                n_degree <= MAX_DEGREE,
                row@.len() == j,
                forall|b: int|
                    0 <= b < j && 2 <= i && b < i ==> (#[trigger] row@[b]).0 == k_num(i as int, b)
                        && row@[b].1 == k_den(i as int),
                forall|b: int|
                    0 <= b < j && !(2 <= i && b < i) ==> (#[trigger] row@[b]) == (0u64, 1u64),
            decreases n_size - j,
        {
            if 2 <= i && j < i {
                row.push(recursion_coefficient(i, j));
            } else {
                row.push((0u64, 1u64));
            }
            j = j + 1;
        }
        table.push(row);
        i = i + 1;
    }
    table
}

} // verus!
