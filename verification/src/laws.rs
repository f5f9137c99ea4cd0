use vstd::prelude::*;
use crate::error::{error_code, EscrowError};
use crate::model::{
    index_of, is_funded_family, lemma_index_of, lemma_index_of_unique, lemma_index_of_update,
    lemma_total_nonneg, total_contributions, EscrowState,
};
use crate::payout::{lemma_payouts_conserve_pool, settle_pool, sum, sum_payouts};
use crate::types::{
    Address, Digest, InvestorPosition, Symbol, STATUS_CANCELLED, STATUS_FUNDED, STATUS_OPEN,
    STATUS_SETTLED, STATUS_WITHDRAWN,
};

verus! {

/// Every state-changing entrypoint of an initialised escrow, with its inputs
/// (ledger time and sequence included).
pub ghost enum EscrowOp {
    Fund { investor: Address, amount: i128, commitment: Option<u64>, now: u64, sequence: u32 },
    FundBatch { entries: Seq<(Address, i128)>, now: u64, sequence: u32 },
    PartialSettle { now: u64, sequence: u32 },
    Settle { now: u64 },
    Withdraw,
    ClaimInvestorPayout { investor: Address, now: u64 },
    CancelFunding,
    Refund { investor: Address },
    SetLegalHold { active: bool, now: u64 },
    RequestClearLegalHold { now: u64 },
    UpdateMaturity { new_maturity: u64 },
    UpdateFundingTarget { new_target: i128 },
    LowerMaxUniqueInvestors { new_cap: u32 },
    ProposeAdmin { new_admin: Address },
    AcceptAdmin,
    CancelPendingAdmin,
    RotateBeneficiary { new_sme: Address },
    SetAllowlistActive { active: bool },
    SetInvestorAllowlisted { investor: Address, allowed: bool },
    SetInvestorsAllowlisted { investors: Seq<Address>, allowed: bool },
    BindPrimaryAttestationHash { digest: Digest },
    AppendAttestationDigest { digest: Digest },
    RevokeAttestationDigest { index: u32 },
    RecordSmeCollateralCommitment { asset: Symbol, amount: i128, now: u64 },
}

/// The outcome of applying `op` to `s`.
pub open spec fn step(s: EscrowState, op: EscrowOp) -> Result<EscrowState, EscrowError> {
    match op {
        EscrowOp::Fund { investor, amount, commitment, now, sequence } => s.fund(
            investor,
            amount,
            commitment,
            now,
            sequence,
        ),
        EscrowOp::FundBatch { entries, now, sequence } => s.fund_batch(entries, now, sequence),
        EscrowOp::PartialSettle { now, sequence } => s.partial_settle(now, sequence),
        EscrowOp::Settle { now } => s.settle(now),
        EscrowOp::Withdraw => s.withdraw(),
        EscrowOp::ClaimInvestorPayout { investor, now } => s.claim_investor_payout(investor, now),
        EscrowOp::CancelFunding => s.cancel_funding(),
        EscrowOp::Refund { investor } => s.refund(investor),
        EscrowOp::SetLegalHold { active, now } => s.set_legal_hold(active, now),
        EscrowOp::RequestClearLegalHold { now } => s.request_clear_legal_hold(now),
        EscrowOp::UpdateMaturity { new_maturity } => s.update_maturity(new_maturity),
        EscrowOp::UpdateFundingTarget { new_target } => s.update_funding_target(new_target),
        EscrowOp::LowerMaxUniqueInvestors { new_cap } => s.lower_max_unique_investors(new_cap),
        EscrowOp::ProposeAdmin { new_admin } => s.propose_admin(new_admin),
        EscrowOp::AcceptAdmin => s.accept_admin(),
        EscrowOp::CancelPendingAdmin => s.cancel_pending_admin(),
        EscrowOp::RotateBeneficiary { new_sme } => s.rotate_beneficiary(new_sme),
        EscrowOp::SetAllowlistActive { active } => s.set_allowlist_active(active),
        EscrowOp::SetInvestorAllowlisted { investor, allowed } => s.set_investor_allowlisted(
            investor,
            allowed,
        ),
        EscrowOp::SetInvestorsAllowlisted { investors, allowed } => s.set_investors_allowlisted(
            investors,
            allowed,
        ),
        EscrowOp::BindPrimaryAttestationHash { digest } => s.bind_primary_attestation_hash(digest),
        EscrowOp::AppendAttestationDigest { digest } => s.append_attestation_digest(digest),
        EscrowOp::RevokeAttestationDigest { index } => s.revoke_attestation_digest(index),
        EscrowOp::RecordSmeCollateralCommitment { asset, amount, now } => s.record_sme_collateral_commitment(
            asset,
            amount,
            now,
        ),
    }
}

/// The lifecycle edges: open may stay open, close as funded, or be
/// cancelled; funded may be settled or withdrawn; settled, withdrawn and
/// cancelled are terminal.
pub open spec fn status_edge(from: u32, to: u32) -> bool {
    ||| from == to
    ||| (from == STATUS_OPEN && (to == STATUS_FUNDED || to == STATUS_CANCELLED))
    ||| (from == STATUS_FUNDED && (to == STATUS_SETTLED || to == STATUS_WITHDRAWN))
}

proof fn lemma_fund_entries_open_or_funded(s: EscrowState, entries: Seq<(Address, i128)>, now: u64, sequence: u32)
    requires
        s.initialized(),
    ensures
        s.fund_entries(entries, now, sequence) matches Ok(t) ==> {
            &&& t.initialized()
            &&& (t.status() == s.status() || (s.status() == STATUS_OPEN && t.status()
                == STATUS_FUNDED))
            &&& t.esc().funded_amount >= s.esc().funded_amount
            &&& (s.snapshot is Some && s.status() != STATUS_OPEN ==> t.snapshot == s.snapshot)
            &&& t.legal_hold == s.legal_hold
        },
    decreases entries.len(),
{
    if entries.len() > 0 {
        lemma_fund_entries_open_or_funded(s, entries.drop_last(), now, sequence);
        if let Ok(m) = s.fund_entries(entries.drop_last(), now, sequence) {
            if let Ok(t) = m.fund(entries.last().0, entries.last().1, None, now, sequence) {
                assert(m.status() == STATUS_OPEN);
                assert(s.status() == STATUS_OPEN);
            }
        }
    }
}

/// Sum of the amounts of a batch of deposits.
pub open spec fn batch_total(entries: Seq<(Address, i128)>) -> int
    decreases entries.len(),
{
    if entries.len() == 0 {
        0
    } else {
        batch_total(entries.drop_last()) + entries.last().1
    }
}

proof fn lemma_fund_entries_total(s: EscrowState, entries: Seq<(Address, i128)>, now: u64, sequence: u32)
    requires
        s.initialized(),
    ensures
        s.fund_entries(entries, now, sequence) matches Ok(t) ==> t.initialized()
            && t.esc().funded_amount == s.esc().funded_amount + batch_total(entries),
    decreases entries.len(),
{
    if entries.len() > 0 {
        lemma_fund_entries_total(s, entries.drop_last(), now, sequence);
    }
}

/// A batch that goes through credits every one of its entries: the
/// principal raised grows by exactly the sum of the batch's amounts.
pub proof fn law_batch_credits_every_entry(
    s: EscrowState,
    entries: Seq<(Address, i128)>,
    now: u64,
    sequence: u32,
)
    requires
        s.initialized(),
    ensures
        s.fund_batch(entries, now, sequence) matches Ok(t) ==> t.esc().funded_amount
            == s.esc().funded_amount + batch_total(entries),
{
    lemma_fund_entries_total(s, entries, now, sequence);
}

/// Per-entry admission of a deposit that goes through: positive, at least
/// the floor, and from an allowlisted address while the allowlist is active;
/// a deposit leaves the floor and the allowlist unchanged.
proof fn lemma_deposit_admits(
    s: EscrowState,
    investor: Address,
    amount: i128,
    commitment: Option<u64>,
    now: u64,
    sequence: u32,
    continuing: bool,
)
    ensures
        s.deposit(investor, amount, commitment, now, sequence, continuing) matches Ok(t) ==> {
            &&& amount > 0
            &&& amount >= s.min_contribution
            &&& (s.allowlist_active ==> s.allowlist.contains(investor))
            &&& t.min_contribution == s.min_contribution
            &&& t.allowlist_active == s.allowlist_active
            &&& t.allowlist == s.allowlist
        },
{
}

proof fn lemma_fund_entries_admit(s: EscrowState, entries: Seq<(Address, i128)>, now: u64, sequence: u32)
    ensures
        s.fund_entries(entries, now, sequence) matches Ok(t) ==> {
            &&& t.min_contribution == s.min_contribution
            &&& t.allowlist_active == s.allowlist_active
            &&& t.allowlist == s.allowlist
            &&& forall|i: int|
                0 <= i < entries.len() ==> {
                    &&& #[trigger] entries[i].1 > 0
                    &&& entries[i].1 >= s.min_contribution
                    &&& (s.allowlist_active ==> s.allowlist.contains(entries[i].0))
                }
        },
    decreases entries.len(),
{
    if entries.len() > 0 {
        let prefix = entries.drop_last();
        lemma_fund_entries_admit(s, prefix, now, sequence);
        if let Ok(m) = s.fund_entries(prefix, now, sequence) {
            let last = entries.last();
            lemma_deposit_admits(m, last.0, last.1, None, now, sequence, entries.len() > 1);
            if let Ok(t) = s.fund_entries(entries, now, sequence) {
                assert forall|i: int| 0 <= i < entries.len() implies {
                    &&& #[trigger] entries[i].1 > 0
                    &&& entries[i].1 >= s.min_contribution
                    &&& (s.allowlist_active ==> s.allowlist.contains(entries[i].0))
                } by {
                    if i < entries.len() - 1 {
                        assert(prefix[i] == entries[i]);
                        assert(prefix[i].1 > 0);
                    } else {
                        assert(entries[i] == last);
                        assert(m.deposit(last.0, last.1, None, now, sequence, entries.len() > 1)
                            == Ok::<EscrowState, EscrowError>(t));
                    }
                }
            }
        }
    }
}

/// The contribution floor binds every deposit, first or follow-on, single
/// or in a batch: a positive amount below the floor is refused with
/// `FundingBelowMinContribution` whatever the investor already holds, and a
/// batch that goes through has every amount at or above the floor.
pub proof fn law_floor_binds_every_deposit(
    s: EscrowState,
    investor: Address,
    amount: i128,
    commitment: Option<u64>,
    entries: Seq<(Address, i128)>,
    now: u64,
    sequence: u32,
)
    ensures
        0 < amount < s.min_contribution ==> s.fund(investor, amount, commitment, now, sequence)
            == Err::<EscrowState, EscrowError>(EscrowError::FundingBelowMinContribution),
        s.fund_batch(entries, now, sequence) is Ok ==> forall|i: int|
            0 <= i < entries.len() ==> #[trigger] entries[i].1 >= s.min_contribution,
{
    lemma_fund_entries_admit(s, entries, now, sequence);
}

/// While the allowlist is active, only allowlisted addresses deposit: a
/// deposit that goes through, single or as any entry of a batch, comes from
/// an address on the allowlist.
pub proof fn law_allowlist_gates_every_deposit(
    s: EscrowState,
    investor: Address,
    amount: i128,
    commitment: Option<u64>,
    entries: Seq<(Address, i128)>,
    now: u64,
    sequence: u32,
)
    requires
        s.allowlist_active,
    ensures
        s.fund(investor, amount, commitment, now, sequence) is Ok ==> s.allowlist.contains(investor),
        s.fund_batch(entries, now, sequence) is Ok ==> forall|i: int|
            0 <= i < entries.len() ==> s.allowlist.contains(#[trigger] entries[i].0),
{
    lemma_deposit_admits(s, investor, amount, commitment, now, sequence, false);
    lemma_fund_entries_admit(s, entries, now, sequence);
    if s.fund_batch(entries, now, sequence) is Ok {
        assert forall|i: int| 0 <= i < entries.len() implies s.allowlist.contains(#[trigger] entries[i].0) by {
            assert(entries[i].1 > 0);
        }
    }
}

/// A new investor's committed first deposit is credited at the highest tier
/// its lock reaches: the yield it gets is at least that of every tier whose
/// lock the commitment reaches, and is either such a tier's yield or, when
/// none is reached, the base yield.
pub proof fn law_commitment_gets_highest_reached_tier(
    s: EscrowState,
    investor: Address,
    amount: i128,
    lock_secs: u64,
    now: u64,
    sequence: u32,
)
    requires
        s.inv(),
        s.initialized(),
        s.position_of(investor) is None,
        lock_secs > 0,
    ensures
        s.fund(investor, amount, Some(lock_secs), now, sequence) matches Ok(t) ==> {
            let y = t.position_of(investor)->0.effective_yield_bps;
            &&& forall|i: int|
                0 <= i < s.yield_tiers.len() && #[trigger] s.yield_tiers[i].min_lock_secs
                    <= lock_secs ==> y >= s.yield_tiers[i].yield_bps
            &&& (y == s.esc().yield_bps || exists|k: int|
                0 <= k < s.yield_tiers.len() && #[trigger] s.yield_tiers[k].min_lock_secs <= lock_secs
                    && y == s.yield_tiers[k].yield_bps)
        },
{
    crate::rules::law_valid_tier_table_ordered(s.yield_tiers, s.esc().yield_bps);
    crate::rules::law_tier_for_lock_picks_highest_reached(s.yield_tiers, s.esc().yield_bps, lock_secs);
    law_first_deposit_enrols_one_funder(s, investor, amount, Some(lock_secs), now, sequence);
}

/// Status only moves forward along the lifecycle edges: no operation ever
/// reopens, un-settles or revives an escrow.
pub proof fn law_status_moves_forward(s: EscrowState, op: EscrowOp)
    requires
        s.initialized(),
    ensures
        step(s, op) matches Ok(t) ==> t.initialized() && status_edge(s.status(), t.status()),
{
    if let EscrowOp::FundBatch { entries, now, sequence } = op {
        lemma_fund_entries_open_or_funded(s, entries, now, sequence);
    }
}

/// The principal raised never decreases, whatever the operation (refunds
/// are booked as distributed principal, not subtracted).
pub proof fn law_funded_amount_never_decreases(s: EscrowState, op: EscrowOp)
    requires
        s.initialized(),
    ensures
        step(s, op) matches Ok(t) ==> t.esc().funded_amount >= s.esc().funded_amount,
{
    if let EscrowOp::FundBatch { entries, now, sequence } = op {
        lemma_fund_entries_open_or_funded(s, entries, now, sequence);
    }
}

/// The funding-close snapshot is written once and never changes afterwards.
pub proof fn law_snapshot_write_once(s: EscrowState, op: EscrowOp)
    requires
        s.inv(),
        s.initialized(),
        s.snapshot is Some,
    ensures
        step(s, op) matches Ok(t) ==> t.snapshot == s.snapshot,
{
    if let EscrowOp::FundBatch { entries, now, sequence } = op {
        lemma_fund_entries_open_or_funded(s, entries, now, sequence);
    }
}

/// While the legal hold is active, no funding, settlement, withdrawal,
/// investor claim, cancellation, early close, beneficiary rotation or dust
/// sweep goes through, each with its own typed error.
pub proof fn law_legal_hold_blocks_risk_operations(
    s: EscrowState,
    investor: Address,
    amount: i128,
    commitment: Option<u64>,
    now: u64,
    sequence: u32,
    new_sme: Address,
    balance: i128,
)
    requires
        s.initialized(),
        s.legal_hold,
    ensures
        amount > 0 && amount >= s.min_contribution ==> s.fund(
            investor,
            amount,
            commitment,
            now,
            sequence,
        ) == Err::<EscrowState, EscrowError>(EscrowError::LegalHoldBlocksFunding),
        s.settle(now) == Err::<EscrowState, EscrowError>(EscrowError::LegalHoldBlocksSettlement),
        s.partial_settle(now, sequence) == Err::<EscrowState, EscrowError>(
            EscrowError::LegalHoldBlocksSettlement,
        ),
        s.withdraw() == Err::<EscrowState, EscrowError>(EscrowError::LegalHoldBlocksWithdrawal),
        s.claim_investor_payout(investor, now) == Err::<EscrowState, EscrowError>(
            EscrowError::LegalHoldBlocksInvestorClaims,
        ),
        s.cancel_funding() == Err::<EscrowState, EscrowError>(
            EscrowError::LegalHoldBlocksCancelFunding,
        ),
        s.rotate_beneficiary(new_sme) == Err::<EscrowState, EscrowError>(
            EscrowError::LegalHoldBlocksBeneficiaryRotation,
        ),
        s.sweep_terminal_dust(amount, balance) == Err::<i128, EscrowError>(
            EscrowError::LegalHoldBlocksTreasuryDustSweep,
        ),
{
}

/// The hold survives every operation except an admin's successful clear.
pub proof fn law_legal_hold_persists(s: EscrowState, op: EscrowOp)
    requires
        s.initialized(),
        s.legal_hold,
    ensures
        step(s, op) matches Ok(t) ==> (t.legal_hold || op matches EscrowOp::SetLegalHold {
            active: false,
            ..
        }),
{
    if let EscrowOp::FundBatch { entries, now, sequence } = op {
        lemma_fund_entries_open_or_funded(s, entries, now, sequence);
    }
}

/// With a clear delay configured, a hold is only ever cleared at or after
/// the time a prior clear request made it clearable.
pub proof fn law_delayed_clear(s: EscrowState, now: u64)
    requires
        s.initialized(),
        s.legal_hold_clear_delay > 0,
    ensures
        s.set_legal_hold(false, now) is Ok ==> (s.legal_hold_clearable_at matches Some(t) && now
            >= t),
{
}

/// Settlement and withdrawal are mutually exclusive terminal paths.
pub proof fn law_settle_withdraw_exclusive(s: EscrowState, now: u64, later: u64)
    requires
        s.initialized(),
    ensures
        s.settle(now) matches Ok(t) ==> t.withdraw() is Err,
        s.withdraw() matches Ok(t) ==> t.settle(later) is Err,
{
}

/// A recorded claim can be repeated at any later time without effect.
pub proof fn law_claim_idempotent(s: EscrowState, investor: Address, now: u64, later: u64)
    requires
        s.inv(),
        s.initialized(),
        now <= later,
    ensures
        s.claim_investor_payout(investor, now) matches Ok(t) ==> t.claim_investor_payout(
            investor,
            later,
        ) == Ok::<EscrowState, EscrowError>(t) || t.legal_hold,
{
    if let Ok(t) = s.claim_investor_payout(investor, now) {
        let i = index_of(s.positions, investor);
        lemma_index_of(s.positions, investor);
        let p = s.positions[i];
        let p2 = InvestorPosition { claimed: true, ..p };
        lemma_index_of_update(s.positions, i, p2, investor);
        assert(t.positions[i] == p2);
        assert(t.positions.update(i, InvestorPosition { claimed: true, ..p2 }) =~= t.positions);
    }
}

/// A refund can be taken only once: afterwards the investor has nothing
/// left to refund.
pub proof fn law_refund_once(s: EscrowState, investor: Address)
    requires
        s.initialized(),
    ensures
        s.refund(investor) matches Ok(t) ==> t.refund(investor) == Err::<EscrowState, EscrowError>(
            EscrowError::NoContributionToRefund,
        ) && t.contribution_of(investor) == 0,
{
    if let Ok(t) = s.refund(investor) {
        let i = index_of(s.positions, investor);
        lemma_index_of(s.positions, investor);
        let p2 = InvestorPosition { contribution: 0, refunded: true, ..s.positions[i] };
        lemma_index_of_update(s.positions, i, p2, investor);
    }
}

/// Principal is conserved: what is raised equals what is still credited to
/// investors plus what was refunded, so refunds never exceed the principal.
pub proof fn law_principal_conservation(s: EscrowState)
    requires
        s.inv(),
        s.initialized(),
    ensures
        s.esc().funded_amount == total_contributions(s.positions) + s.distributed_principal,
        0 <= s.distributed_principal <= s.esc().funded_amount,
{
    lemma_total_nonneg(s.positions);
}

/// Caps are never exceeded: no investor holds more than the per-investor
/// cap and no more addresses fund than the distinct-investor cap allows.
pub proof fn law_caps_respected(s: EscrowState, investor: Address)
    requires
        s.inv(),
        s.initialized(),
    ensures
        s.max_per_investor matches Some(cap) ==> s.contribution_of(investor) <= cap,
        s.max_unique_investors matches Some(cap) ==> s.unique_funder_count() <= cap,
{
    lemma_index_of(s.positions, investor);
}

/// The yield and claim gate an investor gets at the first deposit never
/// change with later deposits.
pub proof fn law_first_deposit_terms_fixed(
    s: EscrowState,
    investor: Address,
    amount: i128,
    commitment: Option<u64>,
    now: u64,
    sequence: u32,
)
    requires
        s.initialized(),
        s.position_of(investor) is Some,
    ensures
        s.fund(investor, amount, commitment, now, sequence) matches Ok(t) ==> {
            &&& t.position_of(investor) matches Some(p) && p.effective_yield_bps
                == s.position_of(investor)->0.effective_yield_bps && p.claim_not_before
                == s.position_of(investor)->0.claim_not_before
            &&& t.contribution_of(investor) == s.contribution_of(investor) + amount
            &&& t.unique_funder_count() == s.unique_funder_count()
        },
{
    let i = index_of(s.positions, investor);
    lemma_index_of(s.positions, investor);
    let p = s.positions[i];
    let p2 = InvestorPosition { contribution: (p.contribution + amount) as i128, ..p };
    lemma_index_of_update(s.positions, i, p2, investor);
}

/// A new address's first deposit enrols exactly one more funder.
pub proof fn law_first_deposit_enrols_one_funder(
    s: EscrowState,
    investor: Address,
    amount: i128,
    commitment: Option<u64>,
    now: u64,
    sequence: u32,
)
    requires
        s.initialized(),
        s.position_of(investor) is None,
    ensures
        s.fund(investor, amount, commitment, now, sequence) matches Ok(t) ==> {
            &&& t.unique_funder_count() == s.unique_funder_count() + 1
            &&& t.contribution_of(investor) == amount
            &&& t.position_of(investor)->0.effective_yield_bps == s.first_deposit_terms(
                commitment,
            ).0
        },
{
    lemma_index_of(s.positions, investor);
    let np = InvestorPosition {
        investor,
        contribution: amount,
        effective_yield_bps: s.first_deposit_terms(commitment).0,
        claim_not_before: EscrowState::first_deposit_claim_not_before(commitment, now),
        claimed: false,
        refunded: false,
    };
    crate::model::lemma_index_of_push(s.positions, np, investor);
}

/// A deposit preview answers 0 exactly when the plain deposit would be
/// accepted, and otherwise the (non-zero) code of the error the deposit
/// reports.
pub proof fn law_preview_matches_fund(
    s: EscrowState,
    investor: Address,
    amount: i128,
    now: u64,
    sequence: u32,
)
    ensures
        (match s.fund_error(investor, amount, None, now) {
            Some(e) => error_code(e),
            None => 0u32,
        } == 0) <==> s.fund(investor, amount, None, now, sequence) is Ok,
        s.fund(investor, amount, None, now, sequence) matches Err(e) ==> match s.fund_error(
            investor,
            amount,
            None,
            now,
        ) {
            Some(p) => error_code(p) == error_code(e),
            None => false,
        },
{
    if let Some(e) = s.fund_error(investor, amount, None, now) {
        crate::error::lemma_error_code_positive(e);
    }
}

/// A cancelled escrow's sweep never touches principal still owed: after a
/// sweep of `x`, the balance left covers every unrefunded contribution, that
/// is the principal raised less what refunds have already returned.
pub proof fn law_cancelled_sweep_keeps_owed_principal(s: EscrowState, amount: i128, balance: i128)
    requires
        s.inv(),
        s.initialized(),
        s.status() == STATUS_CANCELLED,
    ensures
        s.sweep_terminal_dust(amount, balance) matches Ok(x) ==> {
            &&& balance - x >= s.esc().funded_amount - s.distributed_principal
            &&& balance - x >= total_contributions(s.positions)
        },
{
}

/// A dust sweep never takes more than asked, more than the balance, more
/// than the per-call cap, nor dips below the principal still owed.
pub proof fn law_sweep_bounded(s: EscrowState, amount: i128, balance: i128)
    requires
        s.initialized(),
    ensures
        s.sweep_terminal_dust(amount, balance) matches Ok(x) ==> {
            &&& 0 < x <= amount
            &&& x <= balance
            &&& x <= crate::model::MAX_DUST_SWEEP_AMOUNT
            &&& balance - x >= s.outstanding_liability()
        },
{
}

// ---------------------------------------------------------------------------
// Pro-rata payout conservation on a settled escrow
// ---------------------------------------------------------------------------

/// Contributions of the positions, in order.
pub open spec fn contributions(ps: Seq<InvestorPosition>) -> Seq<int>
    decreases ps.len(),
{
    if ps.len() == 0 {
        Seq::empty()
    } else {
        contributions(ps.drop_last()).push(ps.last().contribution as int)
    }
}

proof fn lemma_contributions_sum(ps: Seq<InvestorPosition>)
    ensures
        contributions(ps).len() == ps.len(),
        sum(contributions(ps)) == total_contributions(ps),
        forall|i: int| 0 <= i < ps.len() ==> #[trigger] contributions(ps)[i] == ps[i].contribution,
    decreases ps.len(),
{
    if ps.len() > 0 {
        lemma_contributions_sum(ps.drop_last());
        let c = contributions(ps);
        assert(c.drop_last() =~= contributions(ps.drop_last()));
        assert forall|i: int| 0 <= i < ps.len() implies #[trigger] contributions(ps)[i] == ps[i].contribution by {
            if i < ps.len() - 1 {
                assert(ps.drop_last()[i] == ps[i]);
            }
        }
    }
}

/// Total payout owed to every position of the escrow.
pub open spec fn total_payouts(s: EscrowState, ps: Seq<InvestorPosition>) -> int
    decreases ps.len(),
{
    if ps.len() == 0 {
        0
    } else {
        total_payouts(s, ps.drop_last()) + s.payout_of(ps.last().investor)
    }
}

proof fn lemma_total_payouts_uniform(s: EscrowState, n: int)
    requires
        s.inv(),
        s.initialized(),
        s.snapshot is Some,
        0 <= n <= s.positions.len(),
        s.status() != STATUS_CANCELLED,
        forall|i: int|
            0 <= i < s.positions.len() ==> #[trigger] s.positions[i].effective_yield_bps
                == s.esc().yield_bps,
    ensures
        total_payouts(s, s.positions.take(n)) == sum_payouts(
            contributions(s.positions.take(n)),
            s.snapshot->0.total_principal as int,
            s.esc().yield_bps as int,
        ),
    decreases n,
{
    let ps = s.positions.take(n);
    if n > 0 {
        assert(ps.drop_last() =~= s.positions.take(n - 1));
        lemma_total_payouts_uniform(s, n - 1);
        let p = s.positions[n - 1];
        lemma_index_of_unique(s.positions, n - 1);
        lemma_contributions_sum(ps);
        assert(contributions(ps).drop_last() =~= contributions(ps.drop_last()));
        assert(ps.last() == p);
        assert(p.contribution > 0);
    }
}

/// Conservation of the settle pool on a settled escrow where every investor
/// holds the base yield and the close snapshot holds all the principal
/// raised: the payouts owed never add up to more than the settle pool, and
/// the undistributed residue is below the number of investors.
pub proof fn law_settled_payouts_conserve_pool(s: EscrowState)
    requires
        s.inv(),
        s.initialized(),
        s.status() == STATUS_SETTLED,
        s.snapshot->0.total_principal == s.esc().funded_amount,
        s.unique_funder_count() > 0,
        forall|i: int|
            0 <= i < s.positions.len() ==> #[trigger] s.positions[i].effective_yield_bps
                == s.esc().yield_bps,
    ensures
        total_payouts(s, s.positions) <= settle_pool(
            s.snapshot->0.total_principal as int,
            s.esc().yield_bps as int,
        ),
        settle_pool(s.snapshot->0.total_principal as int, s.esc().yield_bps as int) - total_payouts(
            s,
            s.positions,
        ) < s.unique_funder_count(),
{
    let t = s.snapshot->0.total_principal as int;
    assert(s.positions.take(s.positions.len() as int) =~= s.positions);
    lemma_total_payouts_uniform(s, s.positions.len() as int);
    lemma_contributions_sum(s.positions);
    assert(s.positions[0].contribution > 0);
    crate::model::lemma_total_bounds(s.positions, 0);
    lemma_payouts_conserve_pool(contributions(s.positions), t, s.esc().yield_bps as int);
}

} // verus!
