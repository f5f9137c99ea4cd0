use vstd::prelude::*;
use crate::model::{
    index_of, lemma_index_of, lemma_total_push, lemma_total_update, total_contributions,
    unique_investors, EscrowState,
};
use crate::rules::{lemma_last_eligible_bounds, last_eligible_tier, tier_error_at, valid_tier_table};
use crate::types::{Address, InvestorPosition, Symbol, YieldTier, STATUS_FUNDED, STATUS_OPEN};

verus! {

/// A successful `init` yields a well-formed escrow.
pub proof fn lemma_init_establishes_inv(
    pre: EscrowState,
    admin: Address,
    invoice_id: Symbol,
    sme: Address,
    amount: i128,
    yield_bps: i64,
    maturity: u64,
    funding_token: Address,
    registry: Option<Address>,
    treasury: Address,
    yield_tiers: Seq<YieldTier>,
    min_contribution: Option<i128>,
    max_unique_investors: Option<u32>,
    max_per_investor: Option<i128>,
    legal_hold_clear_delay: Option<u64>,
    funding_deadline: Option<u64>,
)
    requires
        pre.inv(),
        !pre.initialized(),
        amount > 0,
        0 <= yield_bps <= 10_000,
        valid_tier_table(yield_tiers, yield_bps),
        min_contribution matches Some(m) ==> m > 0,
        max_per_investor matches Some(m) ==> m > 0,
    ensures
        pre.initialized_with(
            admin,
            invoice_id,
            sme,
            amount,
            yield_bps,
            maturity,
            funding_token,
            registry,
            treasury,
            yield_tiers,
            min_contribution,
            max_unique_investors,
            max_per_investor,
            legal_hold_clear_delay,
            funding_deadline,
        ).inv(),
{
}

/// The tier a commitment selects carries a yield within range.
pub proof fn lemma_tier_yield_in_range(tiers: Seq<YieldTier>, base_yield_bps: i64, lock_secs: u64)
    requires
        valid_tier_table(tiers, base_yield_bps),
        0 <= base_yield_bps <= 10_000,
    ensures
        0 <= crate::rules::tier_for_lock(tiers, base_yield_bps, lock_secs).0 <= 10_000,
{
    let k = last_eligible_tier(tiers, lock_secs, tiers.len() as int);
    lemma_last_eligible_bounds(tiers, lock_secs, tiers.len() as int);
    if k >= 0 {
        assert(tier_error_at(tiers, base_yield_bps, k) is None);
    }
}

/// A deposit that passes every check keeps the escrow well formed: the
/// principal stays the sum of the credited contributions, caps hold, and the
/// close snapshot is captured once funding closes. A funded escrow taking a
/// later batch entry must have closed by reaching its target.
pub proof fn lemma_fund_preserves_inv(
    s: EscrowState,
    investor: Address,
    amount: i128,
    commitment: Option<u64>,
    now: u64,
    sequence: u32,
    continuing: bool,
)
    requires
        s.inv(),
        s.initialized(),
        s.deposit_error(investor, amount, commitment, now, continuing) is None,
        s.position_of(investor) is None ==> s.unique_funder_count() < u32::MAX,
        s.status() == STATUS_FUNDED ==> s.snapshot->0.total_principal >= s.esc().funding_target,
    ensures
        s.credited(investor, amount, commitment, now, sequence).inv(),
{
    let t = s.credited(investor, amount, commitment, now, sequence);
    let e = s.esc();
    let ps = s.positions;
    let qs = t.positions;
    let i = index_of(ps, investor);
    lemma_index_of(ps, investor);
    assert(e.status == STATUS_OPEN || e.status == STATUS_FUNDED);
    if i >= 0 {
        let p = ps[i];
        let p2 = InvestorPosition { contribution: (p.contribution + amount) as i128, ..p };
        assert(qs == ps.update(i, p2));
        lemma_total_update(ps, i, p2);
        assert forall|k: int| 0 <= k < qs.len() implies #[trigger] qs[k].investor == ps[k].investor by {}
        assert(unique_investors(qs));
    } else {
        let terms = s.first_deposit_terms(commitment);
        if let Some(lock) = commitment {
            lemma_tier_yield_in_range(s.yield_tiers, e.yield_bps, lock);
        }
        let np = InvestorPosition {
            investor,
            contribution: amount,
            effective_yield_bps: terms.0,
            claim_not_before: EscrowState::first_deposit_claim_not_before(commitment, now),
            claimed: false,
            refunded: false,
        };
        assert(qs == ps.push(np));
        lemma_total_push(ps, np);
        assert(unique_investors(qs)) by {
            assert forall|a: int, b: int|
                0 <= a < qs.len() && 0 <= b < qs.len() && a != b implies #[trigger] qs[a].investor
                != #[trigger] qs[b].investor by {
                if a < ps.len() && b < ps.len() {
                    assert(qs[a] == ps[a] && qs[b] == ps[b]);
                } else if a < ps.len() {
                    assert(qs[a] == ps[a]);
                } else {
                    assert(qs[b] == ps[b]);
                }
            }
        }
    }
}

/// Once an entry of a batch fails, the whole batch fails with that error.
pub proof fn lemma_fund_entries_error_sticks(
    s: EscrowState,
    entries: Seq<(Address, i128)>,
    k: int,
    now: u64,
    sequence: u32,
    err: crate::error::EscrowError,
)
    requires
        0 <= k < entries.len(),
        s.fund_entries(entries.take(k + 1), now, sequence) == Err::<EscrowState, crate::error::EscrowError>(err),
    ensures
        s.fund_entries(entries, now, sequence) == Err::<EscrowState, crate::error::EscrowError>(err),
    decreases entries.len() - k,
{
    if k + 1 == entries.len() {
        assert(entries.take(k + 1) =~= entries);
    } else {
        assert(entries.take(k + 2).drop_last() =~= entries.take(k + 1));
        lemma_fund_entries_error_sticks(s, entries, k + 1, now, sequence, err);
    }
}

} // verus!
