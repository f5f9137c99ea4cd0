use liquifact_escrow::error::EscrowError;
use liquifact_escrow::escrow::LiquifactEscrow;
use liquifact_escrow::model::MAX_FUND_BATCH;
use liquifact_escrow::rules::validate_invoice_id;
use liquifact_escrow::types::{Address, EscrowEvent, TokenTransfer, YieldTier};

const TARGET: i128 = 100_000_000_000;
/// Ledger time and sequence of the standard test ledger.
const NOW: u64 = 12345;
const SEQ: u32 = 100;

fn addr(n: u64) -> Address {
    Address { is_contract: false, k0: n, k1: 0, k2: 0, k3: 0 }
}

fn admin() -> Address {
    addr(1)
}

fn sme() -> Address {
    addr(2)
}

fn token() -> Address {
    Address { is_contract: true, k0: 3, k1: 0, k2: 0, k3: 0 }
}

fn treasury() -> Address {
    addr(4)
}

fn tiers(list: &[(u64, i64)]) -> Vec<YieldTier> {
    list.iter().map(|&(min_lock_secs, yield_bps)| YieldTier { min_lock_secs, yield_bps }).collect()
}

#[allow(clippy::too_many_arguments)]
fn init_full(
    id: &str,
    amount: i128,
    yield_bps: i64,
    maturity: u64,
    yield_tiers: Option<Vec<YieldTier>>,
    min_contribution: Option<i128>,
    max_unique_investors: Option<u32>,
    max_per_investor: Option<i128>,
    now: u64,
) -> LiquifactEscrow {
    let mut e = LiquifactEscrow::new();
    e.init(
        admin(),
        id.as_bytes(),
        sme(),
        amount,
        yield_bps,
        maturity,
        token(),
        None,
        treasury(),
        yield_tiers,
        min_contribution,
        max_unique_investors,
        max_per_investor,
        None,
        None,
        now,
    )
    .unwrap();
    e
}

fn init_simple(id: &str, amount: i128, yield_bps: i64, maturity: u64, now: u64) -> LiquifactEscrow {
    init_full(id, amount, yield_bps, maturity, None, None, None, None, now)
}

fn default_init() -> LiquifactEscrow {
    init_simple("INV001", TARGET, 800, 0, NOW)
}

fn fund(e: &mut LiquifactEscrow, investor: Address, amount: i128) -> liquifact_escrow::types::InvoiceEscrow {
    e.fund(investor, amount, NOW, SEQ).unwrap().0
}

#[test]
fn test_fund_and_settle() {
    let mut e = init_simple("INVMETA", TARGET, 800, 0, NOW);
    let funded = fund(&mut e, addr(10), TARGET);
    assert_eq!(funded.funded_amount, TARGET);
    assert_eq!(funded.status, 1);
    let (settled, _) = e.settle(NOW).unwrap();
    assert_eq!(settled.status, 2);
}

#[test]
fn test_fund_partial_then_full() {
    let mut e = init_simple("INV002", TARGET, 800, 0, NOW);
    let partial = fund(&mut e, addr(10), TARGET / 2);
    assert_eq!(partial.status, 0);
    assert_eq!(partial.funded_amount, TARGET / 2);
    let full = fund(&mut e, addr(10), TARGET / 2);
    assert_eq!(full.status, 1);
    assert_eq!(full.funded_amount, TARGET);
}

#[test]
fn test_single_investor_contribution_tracked() {
    let mut e = init_simple("INV020", TARGET, 800, 1000, NOW);
    fund(&mut e, addr(10), 30_000_000_000);
    assert_eq!(e.get_contribution(addr(10)), 30_000_000_000);
}

#[test]
fn test_unknown_investor_contribution_is_zero() {
    let mut e = default_init();
    fund(&mut e, addr(10), 1_000);
    assert_eq!(e.get_contribution(addr(11)), 0);
}

#[test]
fn test_repeated_funding_accumulates_contribution() {
    let mut e = init_simple("INV021", TARGET, 800, 1000, NOW);
    fund(&mut e, addr(10), 20_000_000_000);
    fund(&mut e, addr(10), 30_000_000_000);
    assert_eq!(e.get_contribution(addr(10)), 50_000_000_000);
}

#[test]
fn test_funding_amount_overflow_does_not_mutate_state() {
    let mut e = init_simple("OVF002", i128::MAX, 800, 0, NOW);
    let investor = addr(10);
    fund(&mut e, investor, i128::MAX - 1);
    let before = e.get_escrow().unwrap();
    assert_eq!(e.fund(investor, 2, NOW, SEQ).unwrap_err(), EscrowError::InvestorContributionOverflow);
    let after = e.get_escrow().unwrap();
    assert_eq!(after.funded_amount, before.funded_amount);
    assert_eq!(after.status, 0);
    assert_eq!(e.get_contribution(investor), i128::MAX - 1);
}

#[test]
fn test_fund_with_commitment_overflow_does_not_mutate_state() {
    let mut e = init_simple("OVF002b", i128::MAX, 800, 0, NOW);
    fund(&mut e, addr(10), i128::MAX - 1);
    let before = e.get_escrow().unwrap();
    assert_eq!(
        e.fund_with_commitment(addr(11), 2, 0, NOW, SEQ).unwrap_err(),
        EscrowError::FundedAmountOverflow
    );
    let after = e.get_escrow().unwrap();
    assert_eq!(after.funded_amount, before.funded_amount);
    assert_eq!(after.status, 0);
    assert_eq!(e.get_contribution(addr(11)), 0);
}

#[test]
fn test_multiple_investors_tracked_independently() {
    let mut e = init_simple("INV023", TARGET, 800, 1000, NOW);
    fund(&mut e, addr(10), 20_000_000_000);
    fund(&mut e, addr(11), 50_000_000_000);
    fund(&mut e, addr(12), 30_000_000_000);
    assert_eq!(e.get_contribution(addr(10)), 20_000_000_000);
    assert_eq!(e.get_contribution(addr(11)), 50_000_000_000);
    assert_eq!(e.get_contribution(addr(12)), 30_000_000_000);
    let sum = e.get_contribution(addr(10)) + e.get_contribution(addr(11)) + e.get_contribution(addr(12));
    assert_eq!(sum, e.get_escrow().unwrap().funded_amount);
}

#[test]
fn test_contributions_sum_equals_funded_amount() {
    let mut e = init_simple("INV023b", TARGET, 800, 1000, NOW);
    fund(&mut e, addr(10), 20_000_000_000);
    fund(&mut e, addr(11), 50_000_000_000);
    fund(&mut e, addr(12), 30_000_000_000);
    let sum = e.get_contribution(addr(10)) + e.get_contribution(addr(11)) + e.get_contribution(addr(12));
    assert_eq!(sum, e.get_escrow().unwrap().funded_amount);
}

#[test]
fn test_cost_baseline_fund_partial() {
    let mut e = init_simple("INV103", TARGET, 800, 1000, NOW);
    fund(&mut e, addr(10), 10_000_000_000);
}

#[test]
fn test_cost_baseline_fund_full() {
    let mut e = init_simple("INV104", TARGET, 800, 1000, NOW);
    fund(&mut e, addr(10), TARGET);
}

#[test]
fn test_cost_baseline_fund_overshoot() {
    let mut e = init_simple("INV105", TARGET, 800, 1000, NOW);
    fund(&mut e, addr(10), 150_000_000_000);
    assert_eq!(e.get_escrow().unwrap().status, 1);
}

#[test]
fn test_cost_baseline_fund_two_step_completion() {
    let mut e = init_simple("INV106", TARGET, 800, 1000, NOW);
    fund(&mut e, addr(10), TARGET / 2);
    fund(&mut e, addr(10), TARGET / 2);
    assert_eq!(e.get_escrow().unwrap().status, 1);
}

#[test]
fn test_funding_close_snapshot_captures_overfunded_total_once() {
    let mut e = init_simple("SNAP001", TARGET, 800, 0, 0);
    assert_eq!(e.get_funding_close_snapshot(), None);
    e.fund(addr(10), TARGET + 50_000_000_000, 0, 0).unwrap();
    let snap = e.get_funding_close_snapshot().expect("snapshot");
    assert_eq!(snap.total_principal, TARGET + 50_000_000_000);
    assert_eq!(snap.funding_target, TARGET);
    assert_eq!(snap.closed_at_ledger_timestamp, 0);
    assert_eq!(snap.closed_at_ledger_sequence, 0);
}

#[test]
fn test_funding_snapshot_immutable_across_second_fund_after_funded() {
    let mut e = init_simple("SNAP002", TARGET, 800, 0, 0);
    e.fund(addr(10), TARGET / 2, 0, 0).unwrap();
    assert_eq!(e.get_funding_close_snapshot(), None);
    e.fund(addr(11), TARGET / 2, 0, 0).unwrap();
    let s1 = e.get_funding_close_snapshot().unwrap();
    assert_eq!(s1.total_principal, TARGET);
    let s2 = e.get_funding_close_snapshot().unwrap();
    assert_eq!(s1, s2);
}

#[test]
fn test_pro_rata_weight_ratio_from_snapshot() {
    let mut e = init_simple("SNAP003", TARGET, 800, 0, 0);
    e.fund(addr(10), 20_000_000_000, 0, 0).unwrap();
    e.fund(addr(11), 80_000_000_000, 0, 0).unwrap();
    let snap = e.get_funding_close_snapshot().unwrap();
    assert_eq!(snap.total_principal, TARGET);
    assert_eq!(e.get_contribution(addr(10)) + e.get_contribution(addr(11)), snap.total_principal);
}

#[test]
fn test_tiered_yield_and_follow_on_fund() {
    let mut e = init_full("TIER001", 10_000, 800, 0, Some(tiers(&[(100, 900), (500, 1100)])), None, None, None, 0);
    let inv = addr(10);
    e.fund_with_commitment(inv, 5_000, 200, 0, 0).unwrap();
    assert_eq!(e.get_investor_yield_bps(inv).unwrap(), 900);
    assert_eq!(e.get_investor_claim_not_before(inv), 200);
    e.fund(inv, 5_000, 0, 0).unwrap();
    assert_eq!(e.get_investor_yield_bps(inv).unwrap(), 900);
    assert_eq!(e.get_escrow().unwrap().status, 1);
}

#[test]
fn test_tier_selection_edges_base_vs_high_bucket() {
    let mut e = init_full("TIER002", 20_000, 800, 0, Some(tiers(&[(50, 850)])), None, None, None, 0);
    e.fund_with_commitment(addr(10), 10_000, 40, 0, 0).unwrap();
    assert_eq!(e.get_investor_yield_bps(addr(10)).unwrap(), 800);
    e.fund_with_commitment(addr(11), 10_000, 50, 0, 0).unwrap();
    assert_eq!(e.get_investor_yield_bps(addr(11)).unwrap(), 850);
}

#[test]
fn test_tier_selection_ladder() {
    let mut e =
        init_full("LADDER01", 100_000, 800, 0, Some(tiers(&[(100, 900), (200, 1000)])), None, None, None, 0);
    let (inv_base, inv_tier1, inv_tier2, inv_mid) = (addr(10), addr(11), addr(12), addr(13));
    e.fund_with_commitment(inv_base, 1_000, 50, 0, 0).unwrap();
    assert_eq!(e.get_investor_yield_bps(inv_base).unwrap(), 800);
    e.fund_with_commitment(inv_tier1, 1_000, 100, 0, 0).unwrap();
    assert_eq!(e.get_investor_yield_bps(inv_tier1).unwrap(), 900);
    e.fund_with_commitment(inv_mid, 1_000, 150, 0, 0).unwrap();
    assert_eq!(e.get_investor_yield_bps(inv_mid).unwrap(), 900);
    e.fund_with_commitment(inv_tier2, 1_000, 200, 0, 0).unwrap();
    assert_eq!(e.get_investor_yield_bps(inv_tier2).unwrap(), 1000);
}

#[test]
fn test_yield_tier_emitted_in_event() {
    let mut e = init_full("EVT001", 10_000, 800, 0, Some(tiers(&[(100, 900)])), None, None, None, 0);
    let invoice_id = validate_invoice_id(b"EVT001").unwrap();
    let (_, ev) = e.fund_with_commitment(addr(10), 1_000, 150, 0, 0).unwrap();
    assert_eq!(
        ev,
        EscrowEvent::Funded {
            invoice_id,
            investor: addr(10),
            amount: 1_000,
            funded_amount: 1_000,
            status: 0,
            investor_effective_yield_bps: 900,
            tier_lock_secs: 100,
        }
    );
    let (_, ev2) = e.fund_with_commitment(addr(11), 1_000, 50, 0, 0).unwrap();
    assert_eq!(
        ev2,
        EscrowEvent::Funded {
            invoice_id,
            investor: addr(11),
            amount: 1_000,
            funded_amount: 2_000,
            status: 0,
            investor_effective_yield_bps: 800,
            tier_lock_secs: 0,
        }
    );
}

#[test]
fn test_yield_tier_emitted_no_tiers() {
    let mut e = init_simple("NOTIER", 10_000, 800, 0, 0);
    let (_, ev) = e.fund_with_commitment(addr(10), 1_000, 150, 0, 0).unwrap();
    assert_eq!(
        ev,
        EscrowEvent::Funded {
            invoice_id: validate_invoice_id(b"NOTIER").unwrap(),
            investor: addr(10),
            amount: 1_000,
            funded_amount: 1_000,
            status: 0,
            investor_effective_yield_bps: 800,
            tier_lock_secs: 0,
        }
    );
}

#[test]
fn test_yield_tier_emitted_between_tiers() {
    let mut e =
        init_full("MIDTIER", 10_000, 800, 0, Some(tiers(&[(100, 900), (200, 1000)])), None, None, None, 0);
    let (_, ev) = e.fund_with_commitment(addr(10), 1_000, 150, 0, 0).unwrap();
    assert_eq!(
        ev,
        EscrowEvent::Funded {
            invoice_id: validate_invoice_id(b"MIDTIER").unwrap(),
            investor: addr(10),
            amount: 1_000,
            funded_amount: 1_000,
            status: 0,
            investor_effective_yield_bps: 900,
            tier_lock_secs: 100,
        }
    );
}

#[test]
fn test_fund_with_commitment_zero_lock_behaves_as_fund() {
    let mut e = init_full("ZERO001", 10_000, 800, 0, Some(tiers(&[(100, 900)])), None, None, None, 0);
    e.fund_with_commitment(addr(10), 5_000, 0, 0, 0).unwrap();
    assert_eq!(e.get_investor_yield_bps(addr(10)).unwrap(), 800);
    assert_eq!(e.get_investor_claim_not_before(addr(10)), 0);
}

#[test]
fn test_commitment_claim_time_allows_u64_max_boundary() {
    let now = u64::MAX - 5;
    let mut e = init_simple("CLKMAX1", 1_000, 800, 0, now);
    e.fund_with_commitment(addr(10), 100, 5, now, 0).unwrap();
    assert_eq!(e.get_investor_claim_not_before(addr(10)), u64::MAX);
}

#[test]
fn test_commitment_claim_time_overflow_does_not_record_position() {
    let now = u64::MAX - 5;
    let mut e = init_simple("CLKMAX3", 1_000, 800, 0, now);
    assert_eq!(
        e.fund_with_commitment(addr(10), 100, 6, now, 0).unwrap_err(),
        EscrowError::InvestorClaimTimeOverflow
    );
    assert_eq!(e.get_escrow().unwrap().funded_amount, 0);
    assert_eq!(e.get_contribution(addr(10)), 0);
    assert_eq!(e.get_investor_claim_not_before(addr(10)), 0);
}

#[test]
fn test_differential_funding_target_eq_exact_cross() {
    let t = 5_000i128;
    let mut e = init_simple("DIFF002", t, 100, 0, 0);
    let (escrow, _) = e.fund(addr(10), t, 0, 0).unwrap();
    assert_eq!(escrow.funded_amount, t);
    assert_eq!(escrow.status, 1);
    let snap = e.get_funding_close_snapshot().unwrap();
    assert_eq!(snap.total_principal, t);
    assert_eq!(snap.funding_target, t);
}

#[test]
fn test_ledger_sequence_recorded_in_snapshot_with_tick() {
    let mut e = init_simple("DIFF003", 1_000, 100, 0, 0);
    let seq = 7u32;
    e.fund(addr(10), 1_000, 0, seq).unwrap();
    assert_eq!(e.get_funding_close_snapshot().unwrap().closed_at_ledger_sequence, seq);
}

#[test]
fn test_get_funding_close_snapshot_absent_before_any_funding() {
    let e = init_simple("SNAP010", TARGET, 800, 0, 0);
    assert_eq!(e.get_funding_close_snapshot(), None);
}

#[test]
fn test_get_funding_close_snapshot_present_after_funding_completes() {
    let mut e = init_simple("SNAP011", TARGET, 800, 0, 0);
    e.fund(addr(10), TARGET / 2, 0, 0).unwrap();
    assert_eq!(e.get_funding_close_snapshot(), None);
    e.fund(addr(10), TARGET / 2, 0, 0).unwrap();
    let snap = e.get_funding_close_snapshot().expect("snapshot must be present after funding completes");
    assert_eq!(snap.total_principal, TARGET);
    assert_eq!(snap.funding_target, TARGET);
    assert_eq!(e.get_escrow().unwrap().status, 1);
}

#[test]
fn test_get_funding_close_snapshot_immutable_after_set() {
    let mut e = init_simple("SNAP012", TARGET, 800, 0, 0);
    e.fund(addr(10), TARGET, 0, 0).unwrap();
    let snap_at_close = e.get_funding_close_snapshot().unwrap();
    e.settle(0).unwrap();
    let snap_after_settle = e.get_funding_close_snapshot().unwrap();
    assert_eq!(snap_at_close, snap_after_settle);
}

#[test]
fn test_unique_funder_count_initialized_to_zero() {
    let e = init_simple("CAP001", TARGET, 800, 0, NOW);
    assert_eq!(e.get_unique_funder_count(), 0);
}

#[test]
fn test_unique_funder_count_increments_on_first_investor() {
    let mut e = init_simple("CAP002", TARGET, 800, 0, NOW);
    assert_eq!(e.get_unique_funder_count(), 0);
    fund(&mut e, addr(10), TARGET / 2);
    assert_eq!(e.get_unique_funder_count(), 1);
    fund(&mut e, addr(10), TARGET / 2);
    assert_eq!(e.get_unique_funder_count(), 1);
}

#[test]
fn test_unique_funder_count_increments_for_distinct_investors() {
    let mut e = init_simple("CAP003", TARGET, 800, 0, NOW);
    assert_eq!(e.get_unique_funder_count(), 0);
    fund(&mut e, addr(10), TARGET / 3);
    assert_eq!(e.get_unique_funder_count(), 1);
    fund(&mut e, addr(11), TARGET / 3);
    assert_eq!(e.get_unique_funder_count(), 2);
    fund(&mut e, addr(12), TARGET / 3);
    assert_eq!(e.get_unique_funder_count(), 3);
}

#[test]
fn test_unique_funder_count_with_fund_with_commitment() {
    let mut e = init_full("CAP004", TARGET, 800, 0, Some(tiers(&[(100, 900)])), None, None, None, 0);
    assert_eq!(e.get_unique_funder_count(), 0);
    e.fund_with_commitment(addr(10), TARGET / 2, 200, 0, 0).unwrap();
    assert_eq!(e.get_unique_funder_count(), 1);
    e.fund(addr(11), TARGET / 2, 0, 0).unwrap();
    assert_eq!(e.get_unique_funder_count(), 2);
}

#[test]
fn test_max_unique_investors_cap_none_allows_unlimited() {
    let mut e = init_simple("CAP005", TARGET, 800, 0, NOW);
    for i in 0..10u32 {
        fund(&mut e, addr(100 + i as u64), TARGET / 20);
        assert_eq!(e.get_unique_funder_count(), i + 1);
    }
}

#[test]
fn test_zero_contribution_then_non_zero_contribution_counts_as_unique_investor() {
    let mut e = init_full("CAP010", TARGET, 800, 0, None, None, Some(2), None, NOW);
    let investor = addr(10);
    assert_eq!(e.get_unique_funder_count(), 0);
    assert_eq!(e.get_contribution(investor), 0);
    fund(&mut e, investor, TARGET / 2);
    assert_eq!(e.get_unique_funder_count(), 1);
    assert_eq!(e.get_contribution(investor), TARGET / 2);
}

#[test]
fn test_cancel_funding_transitions_to_status_4() {
    let mut e = default_init();
    let (result, _) = e.cancel_funding().unwrap();
    assert_eq!(result.status, 4);
}

#[test]
fn test_refund_returns_principal_to_investor() {
    let mut e = default_init();
    let investor = addr(10);
    fund(&mut e, investor, TARGET / 2);
    e.cancel_funding().unwrap();
    let (_, transfer) = e.refund(investor).unwrap();
    assert_eq!(transfer, TokenTransfer { to: investor, amount: TARGET / 2 });
}

#[test]
fn test_refund_zeroes_contribution() {
    let mut e = default_init();
    fund(&mut e, addr(10), TARGET / 2);
    e.cancel_funding().unwrap();
    e.refund(addr(10)).unwrap();
    assert_eq!(e.get_contribution(addr(10)), 0);
}

#[test]
fn test_refund_marks_investor_refunded() {
    let mut e = default_init();
    fund(&mut e, addr(10), TARGET / 2);
    e.cancel_funding().unwrap();
    assert!(!e.is_investor_refunded(addr(10)));
    e.refund(addr(10)).unwrap();
    assert!(e.is_investor_refunded(addr(10)));
}

#[test]
fn test_refund_multiple_investors_independent() {
    let mut e = default_init();
    let (amt_a, amt_b) = (TARGET / 3, TARGET / 4);
    fund(&mut e, addr(10), amt_a);
    fund(&mut e, addr(11), amt_b);
    e.cancel_funding().unwrap();
    let (_, ta) = e.refund(addr(10)).unwrap();
    let (_, tb) = e.refund(addr(11)).unwrap();
    assert_eq!(ta, TokenTransfer { to: addr(10), amount: amt_a });
    assert_eq!(tb, TokenTransfer { to: addr(11), amount: amt_b });
}

#[test]
fn test_cancel_funding_preserves_funded_amount() {
    let mut e = default_init();
    fund(&mut e, addr(10), TARGET / 2);
    let (cancelled, _) = e.cancel_funding().unwrap();
    assert_eq!(cancelled.funded_amount, TARGET / 2);
}

#[test]
fn test_sweep_terminal_dust_allowed_in_cancelled_state() {
    let mut e = default_init();
    let mut balance = TARGET / 2 + 1;
    fund(&mut e, addr(10), TARGET / 2);
    e.cancel_funding().unwrap();
    let (_, refund) = e.refund(addr(10)).unwrap();
    balance -= refund.amount;
    let (swept, _, transfer) = e.sweep_terminal_dust(1, balance).unwrap();
    assert_eq!(swept, 1);
    assert_eq!(transfer, TokenTransfer { to: treasury(), amount: 1 });
}

#[test]
fn test_commitment_claim_lock_preserved_after_follow_on_fund() {
    let mut e = init_full("CLK001", 10_000, 800, 0, Some(tiers(&[(100, 950)])), None, None, None, 0);
    let now = 1_000_000u64;
    let inv = addr(10);
    e.fund_with_commitment(inv, 3_000, 100, now, 0).unwrap();
    let yield_after_first = e.get_investor_yield_bps(inv).unwrap();
    let lock_after_first = e.get_investor_claim_not_before(inv);
    assert_eq!(yield_after_first, 950);
    assert_eq!(lock_after_first, 1_000_100);
    e.fund(inv, 3_000, now, 0).unwrap();
    assert_eq!(e.get_investor_yield_bps(inv).unwrap(), yield_after_first);
    assert_eq!(e.get_investor_claim_not_before(inv), lock_after_first);
}

#[test]
fn test_commitment_invariant_across_multiple_follow_on_funds() {
    let mut e =
        init_full("CLK002", 50_000, 800, 0, Some(tiers(&[(50, 900), (200, 1100)])), None, None, None, 0);
    let now = 2_000_000u64;
    let inv = addr(10);
    e.fund_with_commitment(inv, 5_000, 200, now, 0).unwrap();
    let expected_yield = e.get_investor_yield_bps(inv).unwrap();
    let expected_lock = e.get_investor_claim_not_before(inv);
    assert_eq!(expected_yield, 1100);
    assert_eq!(expected_lock, 2_000_200);
    for _round in 1u32..=3 {
        e.fund(inv, 1_000, now, 0).unwrap();
        assert_eq!(e.get_investor_yield_bps(inv).unwrap(), expected_yield);
        assert_eq!(e.get_investor_claim_not_before(inv), expected_lock);
    }
}

#[test]
fn test_commitment_zero_lock_follow_on_fund_no_claim_gate() {
    let mut e = init_full("CLK003", 10_000, 800, 0, Some(tiers(&[(100, 950)])), None, None, None, 0);
    let inv = addr(10);
    e.fund_with_commitment(inv, 4_000, 0, 0, 0).unwrap();
    assert_eq!(e.get_investor_yield_bps(inv).unwrap(), 800);
    assert_eq!(e.get_investor_claim_not_before(inv), 0);
    e.fund(inv, 4_000, 0, 0).unwrap();
    assert_eq!(e.get_investor_yield_bps(inv).unwrap(), 800);
    assert_eq!(e.get_investor_claim_not_before(inv), 0);
}

#[test]
fn test_second_fund_with_commitment_panics_without_tier_table() {
    let mut e = init_simple("CLK004", 10_000, 800, 0, 0);
    e.fund_with_commitment(addr(10), 3_000, 0, 0, 0).unwrap();
    assert_eq!(
        e.fund_with_commitment(addr(10), 3_000, 0, 0, 0).unwrap_err(),
        EscrowError::TieredSecondDeposit
    );
}

#[test]
fn test_fund_first_then_commitment_second_panics() {
    let mut e = init_full("CLK005", 10_000, 800, 0, Some(tiers(&[(50, 900)])), None, None, None, 0);
    e.fund(addr(10), 3_000, 0, 0).unwrap();
    assert_eq!(
        e.fund_with_commitment(addr(10), 3_000, 100, 0, 0).unwrap_err(),
        EscrowError::TieredSecondDeposit
    );
}

#[test]
fn test_fund_first_deposit_sets_base_yield_and_no_claim_gate() {
    let mut e = init_full("CLK006", 10_000, 800, 0, Some(tiers(&[(100, 950)])), None, None, None, 0);
    e.fund(addr(10), 5_000, 0, 0).unwrap();
    assert_eq!(e.get_investor_yield_bps(addr(10)).unwrap(), 800);
    assert_eq!(e.get_investor_claim_not_before(addr(10)), 0);
}

/// Escrow opened at ledger time 1000 with the given maturity.
fn init_with_maturity(maturity: u64) -> LiquifactEscrow {
    init_simple("LOCK1", 10_000, 800, maturity, 1000)
}

#[test]
fn commitment_lock_within_maturity_is_accepted() {
    let mut e = init_with_maturity(2000);
    let (escrow, _) = e.fund_with_commitment(addr(10), 1_000, 500, 1000, SEQ).unwrap();
    assert_eq!(escrow.status, 0);
    assert_eq!(e.get_investor_claim_not_before(addr(10)), 1500);
}

#[test]
fn commitment_lock_exactly_at_maturity_is_accepted() {
    let mut e = init_with_maturity(2000);
    let (escrow, _) = e.fund_with_commitment(addr(10), 1_000, 1000, 1000, SEQ).unwrap();
    assert_eq!(escrow.status, 0);
    assert_eq!(e.get_investor_claim_not_before(addr(10)), 2000);
}

#[test]
fn commitment_lock_one_second_past_maturity_is_rejected() {
    let mut e = init_with_maturity(2000);
    assert_eq!(
        e.fund_with_commitment(addr(10), 1_000, 1001, 1000, SEQ).unwrap_err(),
        EscrowError::CommitmentLockExceedsMaturity
    );
}

#[test]
fn commitment_lock_far_past_maturity_is_rejected() {
    let mut e = init_with_maturity(2000);
    assert_eq!(
        e.fund_with_commitment(addr(10), 1_000, 5000, 1000, SEQ).unwrap_err(),
        EscrowError::CommitmentLockExceedsMaturity
    );
}

#[test]
fn zero_lock_with_maturity_is_always_accepted() {
    let mut e = init_with_maturity(2000);
    let (escrow, _) = e.fund_with_commitment(addr(10), 1_000, 0, 1000, SEQ).unwrap();
    assert_eq!(escrow.status, 0);
    assert_eq!(e.get_investor_claim_not_before(addr(10)), 0);
}

#[test]
fn lock_with_zero_maturity_is_always_accepted() {
    let mut e = init_simple("LOCK2", 10_000, 800, 0, 1000);
    let (escrow, _) = e.fund_with_commitment(addr(10), 1_000, 9999, 1000, SEQ).unwrap();
    assert_eq!(escrow.status, 0);
    assert_eq!(e.get_investor_claim_not_before(addr(10)), 10999);
}

#[test]
fn plain_fund_with_maturity_ignores_lock_bound() {
    let mut e = init_with_maturity(2000);
    let (escrow, _) = e.fund(addr(10), 1_000, 1000, SEQ).unwrap();
    assert_eq!(escrow.status, 0);
    assert_eq!(e.get_investor_claim_not_before(addr(10)), 0);
}

#[test]
fn fund_batch_matches_single_funds_while_open() {
    let target = 200_000i128;
    let mut a = init_simple("BATCH001", target, 800, 0, 0);
    let mut b = init_simple("BATCH001", target, 800, 0, 0);
    let entries: Vec<(Address, i128)> = (0..5u64).map(|i| (addr(100 + i), (i as i128 + 1) * 10_000)).collect();
    let (result_batch, _) = a.fund_batch(&entries, 0, 0).unwrap();
    for (inv, amount) in &entries {
        b.fund(*inv, *amount, 0, 0).unwrap();
    }
    let result_single = b.get_escrow().unwrap();
    assert_eq!(result_batch, result_single);
    for (inv, _) in &entries {
        assert_eq!(a.get_contribution(*inv), b.get_contribution(*inv));
    }
}

#[test]
fn fund_batch_credits_entries_after_close_and_keeps_snapshot() {
    let mut e = init_simple("BATCH003", 100_000, 800, 0, 0);
    let entries: Vec<(Address, i128)> = (0..5u64).map(|i| (addr(100 + i), (i as i128 + 1) * 10_000)).collect();
    let (result, events) = e.fund_batch(&entries, 7, 9).unwrap();
    assert_eq!(result.status, 1);
    assert_eq!(result.funded_amount, 150_000);
    assert_eq!(events.len(), 5);
    assert_eq!(e.get_contribution(addr(104)), 50_000);
    let snap = e.get_funding_close_snapshot().unwrap();
    assert_eq!(snap.total_principal, 100_000);
    assert_eq!(snap.closed_at_ledger_timestamp, 7);
    assert_eq!(snap.closed_at_ledger_sequence, 9);
    // a batch on an escrow that is already funded is refused at its first entry
    let more = vec![(addr(200), 1_000i128)];
    assert_eq!(e.fund_batch(&more, 7, 9).unwrap_err(), EscrowError::EscrowNotOpenForFunding);
}

#[test]
fn test_fund_batch_mid_batch_funded_transition() {
    let mut e = init_simple("TRANS001", 100_000, 800, 0, 0);
    let entries = vec![(addr(10), 40_000i128), (addr(11), 55_000i128), (addr(12), 10_000i128)];
    let (result, _) = e.fund_batch(&entries, 0, 0).unwrap();
    assert_eq!(result.status, 1);
    assert_eq!(result.funded_amount, 105_000);
    assert_eq!(e.get_contribution(addr(10)), 40_000);
    assert_eq!(e.get_contribution(addr(11)), 55_000);
    assert_eq!(e.get_contribution(addr(12)), 10_000);
    let snap = e.get_funding_close_snapshot();
    assert!(snap.is_some());
    assert_eq!(snap.unwrap().total_principal, 105_000);
}

#[test]
fn test_fund_batch_single_entry() {
    let mut e = default_init();
    let entries = vec![(addr(10), 50_000i128)];
    let (result, _) = e.fund_batch(&entries, NOW, SEQ).unwrap();
    assert_eq!(result.funded_amount, 50_000);
    assert_eq!(e.get_contribution(addr(10)), 50_000);
}

#[test]
fn test_fund_batch_max_batch_size() {
    let mut e = init_simple("MAXBATCH", 10_000_000, 800, 0, 0);
    let entries: Vec<(Address, i128)> = (0..MAX_FUND_BATCH as u64).map(|i| (addr(100 + i), 1_000i128)).collect();
    let (result, _) = e.fund_batch(&entries, 0, 0).unwrap();
    assert_eq!(result.funded_amount, (MAX_FUND_BATCH as i128) * 1_000);
}

#[test]
fn test_fund_batch_preserves_event_semantics() {
    let mut e = init_simple("EVENTS01", 100_000, 800, 0, 0);
    let entries = vec![(addr(10), 30_000i128), (addr(11), 50_000i128)];
    let (_, events) = e.fund_batch(&entries, 0, 0).unwrap();
    assert_eq!(events.len(), 2);
    assert!(matches!(events[0], EscrowEvent::Funded { amount: 30_000, funded_amount: 30_000, .. }));
    assert!(matches!(events[1], EscrowEvent::Funded { amount: 50_000, funded_amount: 80_000, .. }));
}

// Error paths of the funding entrypoints, one per reason.

#[test]
fn fund_rejects_each_invalid_deposit_with_its_error() {
    let mut e = init_full("ERRS01", 10_000, 800, 2000, None, Some(100), Some(1), Some(6_000), 1000);
    assert_eq!(e.fund(addr(10), 0, 1000, 0).unwrap_err(), EscrowError::FundingAmountNotPositive);
    assert_eq!(e.fund(addr(10), 99, 1000, 0).unwrap_err(), EscrowError::FundingBelowMinContribution);
    assert_eq!(e.fund(addr(10), 6_001, 1000, 0).unwrap_err(), EscrowError::InvestorContributionExceedsCap);
    e.fund(addr(10), 5_000, 1000, 0).unwrap();
    assert_eq!(e.fund(addr(11), 1_000, 1000, 0).unwrap_err(), EscrowError::UniqueInvestorCapReached);
    assert_eq!(e.preview_fund(addr(11), 1_000, 1000), 107);
    assert_eq!(e.preview_fund(addr(10), 1_000, 1000), 0);
    e.set_legal_hold(true, 1000).unwrap();
    assert_eq!(e.fund(addr(10), 1_000, 1000, 0).unwrap_err(), EscrowError::LegalHoldBlocksFunding);
    e.clear_legal_hold(1000).unwrap();
    e.fund(addr(10), 1_000, 1000, 0).unwrap();
    e.fund(addr(10), 4_000, 1000, 0).unwrap_err();
}

#[test]
fn fund_before_init_reports_not_initialized() {
    let mut e = LiquifactEscrow::new();
    assert_eq!(e.fund(addr(10), 1_000, 0, 0).unwrap_err(), EscrowError::EscrowNotInitialized);
    assert_eq!(e.fund(addr(10), 0, 0, 0).unwrap_err(), EscrowError::FundingAmountNotPositive);
}

#[test]
fn fund_after_funded_reports_not_open() {
    let mut e = default_init();
    fund(&mut e, addr(10), TARGET);
    assert_eq!(e.fund(addr(10), 1, NOW, SEQ).unwrap_err(), EscrowError::EscrowNotOpenForFunding);
}

#[test]
fn fund_after_deadline_reports_deadline_passed() {
    let mut e = LiquifactEscrow::new();
    e.init(
        admin(),
        b"DEADLN",
        sme(),
        TARGET,
        800,
        0,
        token(),
        None,
        treasury(),
        None,
        None,
        None,
        None,
        None,
        Some(5_000),
        1_000,
    )
    .unwrap();
    e.fund(addr(10), 1_000, 5_000, 0).unwrap();
    assert_eq!(e.fund(addr(10), 1_000, 5_001, 0).unwrap_err(), EscrowError::FundingDeadlinePassed);
    assert!(e.is_funding_expired(5_001));
    assert!(!e.is_funding_expired(5_000));
}

#[test]
fn fund_batch_rejects_empty_and_oversized_and_is_atomic() {
    let mut e = init_full("BATCH02", 100_000, 800, 0, None, None, None, Some(30_000), 0);
    assert_eq!(e.fund_batch(&Vec::new(), 0, 0).unwrap_err(), EscrowError::FundingBatchEmpty);
    let too_many: Vec<(Address, i128)> = (0..=MAX_FUND_BATCH as u64).map(|i| (addr(100 + i), 1)).collect();
    assert_eq!(e.fund_batch(&too_many, 0, 0).unwrap_err(), EscrowError::FundingBatchTooLarge);
    let entries = vec![(addr(10), 25_000i128), (addr(11), 35_000i128)];
    assert_eq!(e.fund_batch(&entries, 0, 0).unwrap_err(), EscrowError::InvestorContributionExceedsCap);
    assert_eq!(e.get_contribution(addr(10)), 0);
    assert_eq!(e.get_escrow().unwrap().funded_amount, 0);
    let dup = vec![(addr(10), 20_000i128), (addr(10), 15_000i128)];
    assert_eq!(e.fund_batch(&dup, 0, 0).unwrap_err(), EscrowError::InvestorContributionExceedsCap);
    assert_eq!(e.get_unique_funder_count(), 0);
}
