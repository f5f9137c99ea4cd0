use vstd::prelude::*;
use crate::error::EscrowError;

verus! {

/// Basis-point denominator.
pub const BPS_DENOMINATOR: i128 = 10_000;

/// Coupon on the closed principal: `total_principal * yield_bps / 10_000`,
/// rounded down.
pub open spec fn coupon(total_principal: int, yield_bps: int) -> int {
    (total_principal * yield_bps) / 10_000
}

/// Amount owed to all investors together at settlement: principal plus coupon.
pub open spec fn settle_pool(total_principal: int, yield_bps: int) -> int {
    total_principal + coupon(total_principal, yield_bps)
}

/// An investor's pro-rata share of the settle pool, rounded down:
/// `contribution * settle_pool / total_principal`.
pub open spec fn investor_payout(contribution: int, total_principal: int, yield_bps: int) -> int {
    (contribution * settle_pool(total_principal, yield_bps)) / total_principal
}

/// Whether every intermediate product of the payout formula fits in `i128`.
pub open spec fn payout_fits(contribution: int, total_principal: int, yield_bps: int) -> bool {
    &&& total_principal * yield_bps <= i128::MAX
    &&& settle_pool(total_principal, yield_bps) <= i128::MAX
    &&& contribution * settle_pool(total_principal, yield_bps) <= i128::MAX
}

proof fn lemma_products_nonneg(c: int, t: int, y: int)
    requires
        c >= 0,
        t > 0,
        y >= 0,
    ensures
        t * y >= 0,
        coupon(t, y) >= 0,
        settle_pool(t, y) >= t,
        c * settle_pool(t, y) >= 0,
{
    assert(t * y >= 0) by (nonlinear_arith)
        requires
            t > 0,
            y >= 0,
    ;
    assert(c * settle_pool(t, y) >= 0) by (nonlinear_arith)
        requires
            c >= 0,
            settle_pool(t, y) >= t,
            t > 0,
    ;
}

/// Computes an investor's payout with checked arithmetic; fails with
/// `ComputePayoutArithmeticOverflow` exactly when an intermediate product
/// does not fit in `i128`.
pub fn compute_payout(contribution: i128, total_principal: i128, yield_bps: i64) -> (r: Result<
    i128,
    EscrowError,
>)
    requires
        contribution >= 0,
        total_principal > 0,
        yield_bps >= 0,
    ensures
        match r {
            Ok(p) => payout_fits(contribution as int, total_principal as int, yield_bps as int)
                && p == investor_payout(contribution as int, total_principal as int, yield_bps as int),
            Err(e) => e == EscrowError::ComputePayoutArithmeticOverflow && !payout_fits(
                contribution as int,
                total_principal as int,
                yield_bps as int,
            ),
        },
{
    proof {
        lemma_products_nonneg(contribution as int, total_principal as int, yield_bps as int);
    }
    let scaled = match total_principal.checked_mul(yield_bps as i128) {
        Some(v) => v,
        None => return Err(EscrowError::ComputePayoutArithmeticOverflow),
    };
    let coupon_amt = scaled / BPS_DENOMINATOR;
    let pool = match total_principal.checked_add(coupon_amt) {
        Some(v) => v,
        None => return Err(EscrowError::ComputePayoutArithmeticOverflow),
    };
    let numerator = match contribution.checked_mul(pool) {
        Some(v) => v,
        None => return Err(EscrowError::ComputePayoutArithmeticOverflow),
    };
    Ok(numerator / total_principal)
}

/// Sum of a sequence of amounts.
pub open spec fn sum(s: Seq<int>) -> int
    decreases s.len(),
{
    if s.len() == 0 {
        0
    } else {
        sum(s.drop_last()) + s.last()
    }
}

/// Sum of the payouts owed to each contribution of `s`.
pub open spec fn sum_payouts(s: Seq<int>, total_principal: int, yield_bps: int) -> int
    decreases s.len(),
{
    if s.len() == 0 {
        0
    } else {
        sum_payouts(s.drop_last(), total_principal, yield_bps) + investor_payout(
            s.last(),
            total_principal,
            yield_bps,
        )
    }
}

spec fn sum_remainders(s: Seq<int>, t: int, pool: int) -> int
    decreases s.len(),
{
    if s.len() == 0 {
        0
    } else {
        sum_remainders(s.drop_last(), t, pool) + (s.last() * pool) % t
    }
}

proof fn lemma_division_split(c: int, pool: int, t: int)
    requires
        t > 0,
    ensures
        c * pool == t * ((c * pool) / t) + (c * pool) % t,
        0 <= (c * pool) % t < t,
{
    assert(c * pool == t * ((c * pool) / t) + (c * pool) % t) by (nonlinear_arith)
        requires
            t > 0,
    ;
    assert(0 <= (c * pool) % t < t) by (nonlinear_arith)
        requires
            t > 0,
    ;
}

proof fn lemma_sum_decomposition(s: Seq<int>, t: int, y: int)
    requires
        t > 0,
    ensures
        sum(s) * settle_pool(t, y) == t * sum_payouts(s, t, y) + sum_remainders(
            s,
            t,
            settle_pool(t, y),
        ),
        0 <= sum_remainders(s, t, settle_pool(t, y)) <= s.len() * (t - 1),
    decreases s.len(),
{
    let pool = settle_pool(t, y);
    if s.len() > 0 {
        let init = s.drop_last();
        let c = s.last();
        lemma_sum_decomposition(init, t, y);
        lemma_division_split(c, pool, t);
        let a = sum(init);
        let b = sum_payouts(init, t, y);
        let q = (c * pool) / t;
        assert((a + c) * pool == a * pool + c * pool) by (nonlinear_arith);
        assert(t * (b + q) == t * b + t * q) by (nonlinear_arith);
        assert(s.len() * (t - 1) == init.len() * (t - 1) + (t - 1)) by (nonlinear_arith)
            requires
                s.len() == init.len() + 1,
        ;
    }
}

/// Conservation of the settle pool: when the contributions add up to the
/// closed principal, the rounded-down payouts never add up to more than the
/// settle pool, and the residue left (the dust) is smaller than the number of
/// investors.
pub proof fn lemma_payouts_conserve_pool(contributions: Seq<int>, total_principal: int, yield_bps: int)
    requires
        total_principal > 0,
        sum(contributions) == total_principal,
    ensures
        sum_payouts(contributions, total_principal, yield_bps) <= settle_pool(
            total_principal,
            yield_bps,
        ),
        settle_pool(total_principal, yield_bps) - sum_payouts(
            contributions,
            total_principal,
            yield_bps,
        ) < contributions.len(),
{
    let t = total_principal;
    let pool = settle_pool(t, yield_bps);
    lemma_sum_decomposition(contributions, t, yield_bps);
    let s = sum_payouts(contributions, t, yield_bps);
    let r = sum_remainders(contributions, t, pool);
    let n = contributions.len() as int;
    assert(t * (pool - s) == r) by (nonlinear_arith)
        requires
            t * pool == t * s + r,
    ;
    assert(pool - s >= 0) by (nonlinear_arith)
        requires
            t * (pool - s) == r,
            r >= 0,
            t > 0,
    ;
    if n == 0 {
        assert(contributions =~= Seq::<int>::empty());
        assert(false);
    }
    let d = pool - s;
    assert(n * (t - 1) < n * t) by (nonlinear_arith)
        requires
            n >= 1,
            t > 0,
    ;
    if d >= n {
        assert(t * d >= t * n) by (nonlinear_arith)
            requires
                d >= n,
                t > 0,
        ;
        assert(false);
    }
}

/// An investor holding all of the closed principal is owed the whole pool.
pub proof fn law_sole_investor_takes_pool(total_principal: int, yield_bps: int)
    requires
        total_principal > 0,
    ensures
        investor_payout(total_principal, total_principal, yield_bps) == settle_pool(
            total_principal,
            yield_bps,
        ),
{
    let t = total_principal;
    let pool = settle_pool(t, yield_bps);
    assert((t * pool) / t == pool) by (nonlinear_arith)
        requires
            t > 0,
    ;
}

/// With zero yield every investor gets back exactly the principal contributed.
pub proof fn law_zero_yield_returns_principal(contribution: int, total_principal: int)
    requires
        total_principal > 0,
    ensures
        investor_payout(contribution, total_principal, 0) == contribution,
{
    let t = total_principal;
    assert(coupon(t, 0) == 0) by (nonlinear_arith);
    assert((contribution * t) / t == contribution) by (nonlinear_arith)
        requires
            t > 0,
    ;
}

/// An address that contributed nothing is owed nothing.
pub proof fn law_no_contribution_no_payout(total_principal: int, yield_bps: int)
    requires
        total_principal > 0,
    ensures
        investor_payout(0, total_principal, yield_bps) == 0,
{
}

/// A larger contribution is never owed less (payouts are monotone in the
/// contribution).
pub proof fn law_payout_monotone(c1: int, c2: int, total_principal: int, yield_bps: int)
    requires
        total_principal > 0,
        yield_bps >= 0,
        0 <= c1 <= c2,
    ensures
        investor_payout(c1, total_principal, yield_bps) <= investor_payout(
            c2,
            total_principal,
            yield_bps,
        ),
{
    let t = total_principal;
    lemma_products_nonneg(c1, t, yield_bps);
    let pool = settle_pool(t, yield_bps);
    assert(c1 * pool <= c2 * pool) by (nonlinear_arith)
        requires
            c1 <= c2,
            pool >= 0,
    ;
    assert((c1 * pool) / t <= (c2 * pool) / t) by (nonlinear_arith)
        requires
            c1 * pool <= c2 * pool,
            t > 0,
    ;
}

} // verus!
