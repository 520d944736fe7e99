use vstd::prelude::*;

verus! {

/// Percent of the lower bound that the summary reports.
pub const LOWER_PERCENT: usize = 5;

/// Percent of the upper bound that the summary reports.
pub const UPPER_PERCENT: usize = 95;

/// The 0-based index, in a sorted chain of `n` values, of its empirical
/// `percent` quantile: the floor of `n * percent / 100`.
pub open spec fn order_index(n: nat, percent: nat) -> nat {
    (n * percent) / 100
}

/// The index of the empirical `percent` quantile in a sorted chain of `n`
/// values; none for an empty chain.
pub fn quantile_index(n: usize, percent: usize) -> (r: Option<usize>)
    requires
        percent < 100,
    ensures
        r is Some <==> n > 0,
        r matches Some(i) ==> i == order_index(n as nat, percent as nat) && i < n,
{
    if n == 0 {
        return None;
    }
    let q: usize = n / 100;
    let rem: usize = n % 100;
    proof {
        assert(n == 100 * q + rem);
        assert(q * percent <= q * 100) by (nonlinear_arith)
            requires
                percent < 100,
        ;
        assert(rem * percent < 10000) by (nonlinear_arith)
            requires
                rem < 100,
                percent < 100,
        ;
        assert(n * percent == 100 * (q * percent) + rem * percent) by (nonlinear_arith)
            requires
                n == 100 * q + rem,
        ;
        assert((n * percent) / 100 == q * percent + (rem * percent) / 100) by (nonlinear_arith)
            requires
                n * percent == 100 * (q * percent) + rem * percent,
                rem * percent >= 0,
                q * percent >= 0,
        ;
        assert((n * percent) / 100 < n) by (nonlinear_arith)
            requires
                percent < 100,
                n > 0,
        ;
    }
    let i: usize = q * percent + rem * percent / 100;
    Some(i)
}

/// The indices of the lower and the upper bound of the summary's interval
/// in a sorted chain of `n` values; none for an empty chain.
pub fn interval_indices(n: usize) -> (r: Option<(usize, usize)>)
    ensures
        r is Some <==> n > 0,
        r matches Some((lo, hi)) ==> lo == order_index(n as nat, LOWER_PERCENT as nat)
            && hi == order_index(n as nat, UPPER_PERCENT as nat) && lo <= hi && hi < n,
{
    match (quantile_index(n, LOWER_PERCENT), quantile_index(n, UPPER_PERCENT)) {
        (Some(lo), Some(hi)) => {
            proof {
                lemma_order_index_monotone(n as nat, LOWER_PERCENT as nat, UPPER_PERCENT as nat);
            }
            Some((lo, hi))
        },
        _ => None,
    }
}

/// A higher percent never selects an earlier order statistic.
pub proof fn lemma_order_index_monotone(n: nat, p: nat, q: nat)
    requires
        p <= q,
    ensures
        order_index(n, p) <= order_index(n, q),
{
    assert(n * p <= n * q) by (nonlinear_arith)
        requires
            p <= q,
    ;
    assert((n * p) / 100 <= (n * q) / 100) by (nonlinear_arith)
        requires
            n * p <= n * q,
    ;
}

} // verus!
