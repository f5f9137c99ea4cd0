use vstd::prelude::*;
use crate::error::EscrowError;
use crate::types::{Symbol, YieldTier, MAX_SYMBOL_LEN};

verus! {

broadcast use vstd::array::group_array_axioms;

/// Largest base or tier yield, in basis points (100%).
pub const MAX_YIELD_BPS: i64 = 10_000;

/// `[A-Za-z0-9_]`
pub open spec fn is_symbol_char(c: u8) -> bool {
    (48 <= c <= 57) || (65 <= c <= 90) || (97 <= c <= 122) || c == 95
}

/// The error that validating a raw invoice id yields, if any.
pub open spec fn invoice_id_error(raw: Seq<u8>) -> Option<EscrowError> {
    if raw.len() == 0 || raw.len() > MAX_SYMBOL_LEN {
        Some(EscrowError::InvoiceIdInvalidLength)
    } else if exists|i: int| 0 <= i < raw.len() && !is_symbol_char(#[trigger] raw[i]) {
        Some(EscrowError::InvoiceIdInvalidCharset)
    } else {
        None
    }
}

fn is_symbol_byte(c: u8) -> (r: bool)
    ensures
        r == is_symbol_char(c),
{
    (48 <= c && c <= 57) || (65 <= c && c <= 90) || (97 <= c && c <= 122) || c == 95
}

/// Validates an invoice id (`1..=32` bytes of `[A-Za-z0-9_]`) and turns it
/// into a ledger symbol.
pub fn validate_invoice_id(raw: &[u8]) -> (r: Result<Symbol, EscrowError>)
    ensures
        match r {
            Ok(sym) => invoice_id_error(raw@) is None && sym.len == raw@.len() && sym.chars()
                == raw@ && forall|i: int| raw@.len() <= i < 32 ==> sym.bytes@[i] == 0u8,
            Err(e) => invoice_id_error(raw@) == Some(e),
        },
{
    let n = raw.len();
    if n == 0 || n > MAX_SYMBOL_LEN {
        return Err(EscrowError::InvoiceIdInvalidLength);
    }
    let mut bytes = [0u8; 32];
    let mut i: usize = 0;
    while i < n
        invariant
            n == raw@.len(),
            1 <= n <= 32,
            i <= n,
            forall|j: int| 0 <= j < i ==> is_symbol_char(#[trigger] raw@[j]),
            forall|j: int| 0 <= j < i ==> bytes@[j] == raw@[j],
            forall|j: int| i <= j < 32 ==> bytes@[j] == 0u8,
        decreases n - i,
    {
        let c = raw[i];
        if !is_symbol_byte(c) {
            assert(!is_symbol_char(raw@[i as int]));
            return Err(EscrowError::InvoiceIdInvalidCharset);
        }
        bytes[i] = c;
        i = i + 1;
    }
    let sym = Symbol { len: n as u8, bytes };
    assert(sym.chars() =~= raw@);
    Ok(sym)
}

/// The validation failure of tier `i` of a table, looking only at the tier
/// itself and its predecessor.
pub open spec fn tier_error_at(tiers: Seq<YieldTier>, base_yield_bps: i64, i: int) -> Option<
    EscrowError,
> {
    let t = tiers[i];
    if t.yield_bps < 0 || t.yield_bps > MAX_YIELD_BPS {
        Some(EscrowError::TierYieldOutOfRange)
    } else if t.yield_bps < base_yield_bps {
        Some(EscrowError::TierYieldBelowBase)
    } else if i > 0 && t.min_lock_secs <= tiers[i - 1].min_lock_secs {
        Some(EscrowError::TierLockNotIncreasing)
    } else if i > 0 && t.yield_bps < tiers[i - 1].yield_bps {
        Some(EscrowError::TierYieldNotNonDecreasing)
    } else {
        None
    }
}

/// A valid tier table: yields in range and at least the base yield,
/// `min_lock_secs` strictly increasing, yields non-decreasing.
pub open spec fn valid_tier_table(tiers: Seq<YieldTier>, base_yield_bps: i64) -> bool {
    forall|i: int| 0 <= i < tiers.len() ==> #[trigger] tier_error_at(tiers, base_yield_bps, i) is None
}

/// Error of the first offending tier at or after index `i`.
pub open spec fn first_tier_error_from(tiers: Seq<YieldTier>, base_yield_bps: i64, i: int) -> Option<
    EscrowError,
>
    decreases tiers.len() - i,
{
    if i < 0 || i >= tiers.len() {
        None
    } else if tier_error_at(tiers, base_yield_bps, i) is Some {
        tier_error_at(tiers, base_yield_bps, i)
    } else {
        first_tier_error_from(tiers, base_yield_bps, i + 1)
    }
}

/// Error of the first offending tier of the table, if any.
pub open spec fn tier_table_error(tiers: Seq<YieldTier>, base_yield_bps: i64) -> Option<EscrowError> {
    first_tier_error_from(tiers, base_yield_bps, 0)
}

proof fn lemma_first_tier_error_from(tiers: Seq<YieldTier>, base_yield_bps: i64, i: int)
    requires
        0 <= i <= tiers.len(),
    ensures
        first_tier_error_from(tiers, base_yield_bps, i) is None <==> forall|j: int|
            i <= j < tiers.len() ==> #[trigger] tier_error_at(tiers, base_yield_bps, j) is None,
    decreases tiers.len() - i,
{
    if i < tiers.len() {
        lemma_first_tier_error_from(tiers, base_yield_bps, i + 1);
    }
}

/// A table is valid exactly when validation reports no tier error.
pub proof fn lemma_tier_table_error_iff_invalid(tiers: Seq<YieldTier>, base_yield_bps: i64)
    ensures
        tier_table_error(tiers, base_yield_bps) is None <==> valid_tier_table(tiers, base_yield_bps),
{
    lemma_first_tier_error_from(tiers, base_yield_bps, 0);
}

/// Validates a yield-tier table against the base yield; the error reported is
/// that of the first offending tier.
pub fn validate_yield_tiers(tiers: &Vec<YieldTier>, base_yield_bps: i64) -> (r: Result<
    (),
    EscrowError,
>)
    ensures
        match r {
            Ok(()) => tier_table_error(tiers@, base_yield_bps) is None && valid_tier_table(
                tiers@,
                base_yield_bps,
            ),
            Err(e) => tier_table_error(tiers@, base_yield_bps) == Some(e),
        },
{
    proof {
        lemma_tier_table_error_iff_invalid(tiers@, base_yield_bps);
    }
    let mut i: usize = 0;
    while i < tiers.len()
        invariant
            i <= tiers@.len(),
            first_tier_error_from(tiers@, base_yield_bps, i as int) == tier_table_error(
                tiers@,
                base_yield_bps,
            ),
        decreases tiers@.len() - i,
    {
        let t = tiers[i];
        let err = if t.yield_bps < 0 || t.yield_bps > MAX_YIELD_BPS {
            Some(EscrowError::TierYieldOutOfRange)
        } else if t.yield_bps < base_yield_bps {
            Some(EscrowError::TierYieldBelowBase)
        } else if i > 0 && t.min_lock_secs <= tiers[i - 1].min_lock_secs {
            Some(EscrowError::TierLockNotIncreasing)
        } else if i > 0 && t.yield_bps < tiers[i - 1].yield_bps {
            Some(EscrowError::TierYieldNotNonDecreasing)
        } else {
            None
        };
        assert(err == tier_error_at(tiers@, base_yield_bps, i as int));
        if let Some(e) = err {
            return Err(e);
        }
        i = i + 1;
    }
    Ok(())
}

/// Index of the last tier among the first `n` whose `min_lock_secs` is at most
/// `lock_secs`, or -1 when there is none.
pub open spec fn last_eligible_tier(tiers: Seq<YieldTier>, lock_secs: u64, n: int) -> int
    decreases n,
{
    if n <= 0 {
        -1
    } else if tiers[n - 1].min_lock_secs <= lock_secs {
        n - 1
    } else {
        last_eligible_tier(tiers, lock_secs, n - 1)
    }
}

/// The (yield, tier lock) a first deposit committing `lock_secs` receives:
/// the highest tier whose `min_lock_secs` the commitment reaches, else the
/// base yield with tier lock 0. A zero commitment always gets the base yield.
pub open spec fn tier_for_lock(tiers: Seq<YieldTier>, base_yield_bps: i64, lock_secs: u64) -> (
    i64,
    u64,
) {
    let k = last_eligible_tier(tiers, lock_secs, tiers.len() as int);
    if lock_secs == 0 || k < 0 {
        (base_yield_bps, 0)
    } else {
        (tiers[k].yield_bps, tiers[k].min_lock_secs)
    }
}

pub proof fn lemma_last_eligible_bounds(tiers: Seq<YieldTier>, lock_secs: u64, n: int)
    requires
        0 <= n <= tiers.len(),
    ensures
        -1 <= last_eligible_tier(tiers, lock_secs, n) < n,
    decreases n,
{
    if n > 0 {
        lemma_last_eligible_bounds(tiers, lock_secs, n - 1);
    }
}

proof fn lemma_last_eligible_is_last(tiers: Seq<YieldTier>, lock_secs: u64, n: int)
    requires
        0 <= n <= tiers.len(),
    ensures
        -1 <= last_eligible_tier(tiers, lock_secs, n) < n,
        last_eligible_tier(tiers, lock_secs, n) >= 0 ==> tiers[last_eligible_tier(
            tiers,
            lock_secs,
            n,
        )].min_lock_secs <= lock_secs,
        forall|j: int|
            last_eligible_tier(tiers, lock_secs, n) < j < n ==> #[trigger] tiers[j].min_lock_secs
                > lock_secs,
    decreases n,
{
    if n > 0 {
        lemma_last_eligible_is_last(tiers, lock_secs, n - 1);
    }
}

proof fn lemma_tiers_ordered_from(tiers: Seq<YieldTier>, base_yield_bps: i64, i: int, j: int)
    requires
        valid_tier_table(tiers, base_yield_bps),
        0 <= i < j < tiers.len(),
    ensures
        tiers[i].min_lock_secs < tiers[j].min_lock_secs,
        tiers[i].yield_bps <= tiers[j].yield_bps,
    decreases j - i,
{
    assert(tier_error_at(tiers, base_yield_bps, j) is None);
    if i < j - 1 {
        lemma_tiers_ordered_from(tiers, base_yield_bps, i, j - 1);
    }
}

/// A valid tier table is ordered: any earlier tier has a strictly shorter
/// lock and a yield no higher than any later one, and every tier's yield
/// lies between the base yield and 10_000 bps.
pub proof fn law_valid_tier_table_ordered(tiers: Seq<YieldTier>, base_yield_bps: i64)
    requires
        valid_tier_table(tiers, base_yield_bps),
    ensures
        forall|i: int, j: int|
            0 <= i < j < tiers.len() ==> #[trigger] tiers[i].min_lock_secs
                < #[trigger] tiers[j].min_lock_secs && tiers[i].yield_bps <= tiers[j].yield_bps,
        forall|i: int|
            0 <= i < tiers.len() ==> base_yield_bps <= #[trigger] tiers[i].yield_bps
                <= MAX_YIELD_BPS,
{
    assert forall|i: int, j: int| 0 <= i < j < tiers.len() implies #[trigger] tiers[i].min_lock_secs
        < #[trigger] tiers[j].min_lock_secs && tiers[i].yield_bps <= tiers[j].yield_bps by {
        lemma_tiers_ordered_from(tiers, base_yield_bps, i, j);
    }
    assert forall|i: int| 0 <= i < tiers.len() implies base_yield_bps <= #[trigger] tiers[i].yield_bps
        <= MAX_YIELD_BPS by {
        assert(tier_error_at(tiers, base_yield_bps, i) is None);
    }
}

/// On an ordered tier table, a positive commitment gets the highest tier it
/// reaches: the selected lock and yield are those of a tier whose
/// `min_lock_secs` the commitment reaches, and are at least the lock and
/// yield of every tier it reaches. A commitment that reaches no tier, or a
/// zero commitment, gets the base yield with tier lock 0.
pub proof fn law_tier_for_lock_picks_highest_reached(
    tiers: Seq<YieldTier>,
    base_yield_bps: i64,
    lock_secs: u64,
)
    requires
        forall|i: int, j: int|
            0 <= i < j < tiers.len() ==> #[trigger] tiers[i].min_lock_secs
                < #[trigger] tiers[j].min_lock_secs && tiers[i].yield_bps <= tiers[j].yield_bps,
    ensures
        ({
            let r = tier_for_lock(tiers, base_yield_bps, lock_secs);
            &&& (lock_secs == 0 || forall|i: int|
                0 <= i < tiers.len() ==> #[trigger] tiers[i].min_lock_secs > lock_secs) ==> r == (
                base_yield_bps,
                0u64,
            )
            &&& (lock_secs > 0 && exists|i: int|
                0 <= i < tiers.len() && #[trigger] tiers[i].min_lock_secs <= lock_secs) ==> {
                &&& exists|k: int|
                    0 <= k < tiers.len() && #[trigger] tiers[k].min_lock_secs <= lock_secs && r == (
                    tiers[k].yield_bps,
                    tiers[k].min_lock_secs,
                )
                &&& forall|i: int|
                    0 <= i < tiers.len() && #[trigger] tiers[i].min_lock_secs <= lock_secs ==> r.1
                        >= tiers[i].min_lock_secs && r.0 >= tiers[i].yield_bps
            }
        }),
{
    let n = tiers.len() as int;
    let k = last_eligible_tier(tiers, lock_secs, n);
    lemma_last_eligible_is_last(tiers, lock_secs, n);
    if k >= 0 {
        assert(tiers[k].min_lock_secs <= lock_secs);
        assert forall|i: int| 0 <= i < tiers.len() && #[trigger] tiers[i].min_lock_secs <= lock_secs implies tiers[k].min_lock_secs
            >= tiers[i].min_lock_secs && tiers[k].yield_bps >= tiers[i].yield_bps by {
            if i > k {
                assert(tiers[i].min_lock_secs > lock_secs);
            } else if i < k {
                assert(tiers[i].min_lock_secs < tiers[k].min_lock_secs);
            }
        }
    } else {
        assert forall|i: int| 0 <= i < tiers.len() implies #[trigger] tiers[i].min_lock_secs > lock_secs by {
            assert(k < i);
        }
    }
}

/// Selects the yield tier for a committed lock; see [`tier_for_lock`].
pub fn select_tier(tiers: &Vec<YieldTier>, base_yield_bps: i64, lock_secs: u64) -> (r: (i64, u64))
    ensures
        r == tier_for_lock(tiers@, base_yield_bps, lock_secs),
{
    proof {
        lemma_last_eligible_bounds(tiers@, lock_secs, tiers@.len() as int);
    }
    if lock_secs == 0 {
        return (base_yield_bps, 0);
    }
    let mut n: usize = tiers.len();
    while n > 0
        invariant
            n <= tiers@.len(),
            lock_secs != 0,
            last_eligible_tier(tiers@, lock_secs, n as int) == last_eligible_tier(
                tiers@,
                lock_secs,
                tiers@.len() as int,
            ),
        decreases n,
    {
        let t = tiers[n - 1];
        if t.min_lock_secs <= lock_secs {
            assert(last_eligible_tier(tiers@, lock_secs, n as int) == n - 1);
            return (t.yield_bps, t.min_lock_secs);
        }
        n = n - 1;
    }
    (base_yield_bps, 0)
}

} // verus!
