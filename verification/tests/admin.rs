use liquifact_escrow::error::EscrowError;
use liquifact_escrow::escrow::LiquifactEscrow;
use liquifact_escrow::governance::migration_check;
use liquifact_escrow::model::SCHEMA_VERSION;
use liquifact_escrow::rules::validate_invoice_id;
use liquifact_escrow::types::{Address, EscrowEvent, TokenTransfer};

const TARGET: i128 = 100_000_000_000;
const NOW: u64 = 12345;
const SEQ: u32 = 100;

fn addr(n: u64) -> Address {
    Address { is_contract: false, k0: n, k1: 0, k2: 0, k3: 0 }
}

fn admin() -> Address {
    addr(1)
}

fn sme() -> Address {
    addr(2)
}

fn token() -> Address {
    Address { is_contract: true, k0: 3, k1: 0, k2: 0, k3: 0 }
}

fn treasury() -> Address {
    addr(4)
}

fn init_caps(
    id: &str,
    amount: i128,
    yield_bps: i64,
    maturity: u64,
    min_contribution: Option<i128>,
    max_unique_investors: Option<u32>,
    max_per_investor: Option<i128>,
    now: u64,
) -> LiquifactEscrow {
    let mut e = LiquifactEscrow::new();
    e.init(
        admin(),
        id.as_bytes(),
        sme(),
        amount,
        yield_bps,
        maturity,
        token(),
        None,
        treasury(),
        None,
        min_contribution,
        max_unique_investors,
        max_per_investor,
        None,
        None,
        now,
    )
    .unwrap();
    e
}

fn init_simple(id: &str, amount: i128, yield_bps: i64, maturity: u64) -> LiquifactEscrow {
    init_caps(id, amount, yield_bps, maturity, None, None, None, NOW)
}

fn default_init() -> LiquifactEscrow {
    init_simple("INV001", TARGET, 800, 0)
}

#[test]
fn test_update_maturity_success() {
    let mut e = init_simple("INV006b", 1_000, 500, 0);
    let (updated, _) = e.update_maturity(2000).unwrap();
    assert_eq!(updated.maturity, 2000);
    assert_eq!(updated.status, 0);
}

#[test]
fn test_propose_admin_sets_pending_without_changing_admin() {
    let mut e = init_simple("T001", TARGET, 800, 1000);
    let new_admin = addr(20);
    let (pending, _) = e.propose_admin(new_admin).unwrap();
    assert_eq!(pending, new_admin);
    assert_eq!(e.get_pending_admin(), Some(new_admin));
    assert_eq!(e.get_escrow().unwrap().admin, admin());
}

#[test]
fn test_accept_admin_promotes_pending_and_clears_pending() {
    let mut e = init_simple("TACPT1", TARGET, 800, 1000);
    let new_admin = addr(20);
    e.propose_admin(new_admin).unwrap();
    let (updated, _) = e.accept_admin().unwrap();
    assert_eq!(updated.admin, new_admin);
    assert_eq!(e.get_escrow().unwrap().admin, new_admin);
    assert_eq!(e.get_pending_admin(), None);
}

#[test]
fn test_transfer_admin_deprecated_shim_only_proposes() {
    let mut e = init_simple("TSHIM1", TARGET, 800, 1000);
    let new_admin = addr(20);
    let (unchanged, _) = e.transfer_admin(new_admin).unwrap();
    assert_eq!(unchanged.admin, admin());
    assert_eq!(e.get_pending_admin(), Some(new_admin));
}

#[test]
fn test_propose_admin_overwrites_prior_pending() {
    let mut e = default_init();
    let (first, second) = (addr(20), addr(21));
    e.propose_admin(first).unwrap();
    e.propose_admin(second).unwrap();
    assert_eq!(e.get_pending_admin(), Some(second));
    let (updated, _) = e.accept_admin().unwrap();
    assert_eq!(updated.admin, second);
}

#[test]
fn test_propose_admin_emits_event() {
    let mut e = default_init();
    let new_admin = addr(20);
    let (_, ev) = e.propose_admin(new_admin).unwrap();
    assert_eq!(
        ev,
        EscrowEvent::AdminProposed {
            invoice_id: e.get_escrow().unwrap().invoice_id,
            current_admin: admin(),
            pending_admin: new_admin,
        }
    );
}

#[test]
fn test_migrate_version_mismatch_stored_neq_claimed() {
    let e = default_init();
    assert_eq!(e.migrate(SCHEMA_VERSION - 1).unwrap_err(), EscrowError::MigrationVersionMismatch);
    assert_eq!(e.get_version(), SCHEMA_VERSION);
}

#[test]
fn test_migrate_far_below_stored_raises_mismatch() {
    let e = default_init();
    assert_eq!(e.migrate(0).unwrap_err(), EscrowError::MigrationVersionMismatch);
    assert_eq!(e.get_version(), SCHEMA_VERSION);
}

#[test]
fn test_migrate_at_schema_version_raises_already_current() {
    let e = default_init();
    assert_eq!(e.migrate(SCHEMA_VERSION).unwrap_err(), EscrowError::AlreadyCurrentSchemaVersion);
    assert_eq!(e.get_version(), SCHEMA_VERSION);
}

#[test]
fn test_migrate_above_schema_version_raises_already_current() {
    let e = default_init();
    assert_eq!(e.migrate(SCHEMA_VERSION + 1).unwrap_err(), EscrowError::AlreadyCurrentSchemaVersion);
    assert_eq!(e.get_version(), SCHEMA_VERSION);
}

#[test]
fn test_migrate_below_schema_version_matching_stored_raises_no_path() {
    let mut e = default_init();
    let older = SCHEMA_VERSION - 1;
    e.version = older;
    assert_eq!(e.migrate(older).unwrap_err(), EscrowError::NoMigrationPath);
    assert_eq!(e.get_version(), older);
}

#[test]
fn test_migrate_all_historical_versions_raise_no_path() {
    for &historical in &[1u32, 2, 3, 4, 5] {
        let mut e = default_init();
        e.version = historical;
        assert_eq!(e.migrate(historical).unwrap_err(), EscrowError::NoMigrationPath);
        assert_eq!(e.get_version(), historical);
    }
}

#[test]
fn test_migrate_from_zero_uninitialized_raises_no_path() {
    let e = LiquifactEscrow::new();
    assert_eq!(e.migrate(0).unwrap_err(), EscrowError::NoMigrationPath);
    assert_eq!(e.get_version(), 0);
}

#[test]
fn test_migrate_version_immutable_across_all_error_branches() {
    let cases: &[(u32, u32, EscrowError)] = &[
        (6, 5, EscrowError::MigrationVersionMismatch),
        (6, 6, EscrowError::AlreadyCurrentSchemaVersion),
        (6, 7, EscrowError::AlreadyCurrentSchemaVersion),
        (5, 5, EscrowError::NoMigrationPath),
        (0, 0, EscrowError::NoMigrationPath),
    ];
    for &(stored, claimed, expected) in cases {
        let mut e = if stored == 0 { LiquifactEscrow::new() } else { default_init() };
        if stored != 0 && stored != SCHEMA_VERSION {
            e.version = stored;
        }
        assert_eq!(e.migrate(claimed).unwrap_err(), expected);
        assert_eq!(migration_check(stored, claimed), expected);
        assert_eq!(e.get_version(), stored);
    }
}

#[test]
fn test_read_model_summary_includes_optional_admin_fields() {
    let e = init_caps("TSUM01", TARGET, 800, 1000, Some(100), Some(7), Some(10_000), NOW);
    let summary = e.get_escrow_summary().unwrap();
    assert_eq!(summary.escrow, e.get_escrow().unwrap());
    assert_eq!(summary.legal_hold, e.get_legal_hold());
    assert_eq!(summary.funding_close_snapshot, None);
    assert_eq!(summary.unique_funder_count, 0);
    assert!(!summary.is_allowlist_active);
    assert_eq!(summary.schema_version, e.get_version());
    assert_eq!(e.get_max_per_investor_cap(), Some(10_000));
}

#[test]
fn test_record_collateral_stored_and_does_not_block_settle() {
    let mut e = init_simple("COL001", TARGET, 800, 0);
    let usdc = validate_invoice_id(b"USDC").unwrap();
    let (c, _) = e.record_sme_collateral_commitment(usdc, 5000, NOW).unwrap();
    assert_eq!(c.amount, 5000);
    assert_eq!(c.asset, usdc);
    assert_eq!(e.get_sme_collateral_commitment(), Some(c));
    e.fund(addr(10), TARGET, NOW, SEQ).unwrap();
    let (settled, _) = e.settle(NOW).unwrap();
    assert_eq!(settled.status, 2);
}

#[test]
fn test_legal_hold_blocks_settle_withdraw_claim_and_fund() {
    let mut e = init_simple("LH001", TARGET, 800, 0);
    let investor = addr(10);
    e.fund(investor, TARGET, NOW, SEQ).unwrap();
    e.set_legal_hold(true, NOW).unwrap();
    assert!(e.get_legal_hold());
    assert_eq!(e.settle(NOW).unwrap_err(), EscrowError::LegalHoldBlocksSettlement);
    assert_eq!(e.withdraw().unwrap_err(), EscrowError::LegalHoldBlocksWithdrawal);
    e.clear_legal_hold(NOW).unwrap();
    assert!(!e.get_legal_hold());
    let (settled, _) = e.settle(NOW).unwrap();
    assert_eq!(settled.status, 2);
    e.set_legal_hold(true, NOW).unwrap();
    assert_eq!(e.claim_investor_payout(investor, NOW).unwrap_err(), EscrowError::LegalHoldBlocksInvestorClaims);
    e.clear_legal_hold(NOW).unwrap();
    e.claim_investor_payout(investor, NOW).unwrap();
    assert!(e.is_investor_claimed(investor));
}

#[test]
fn test_get_legal_hold_defaults_false_on_fresh_deploy() {
    let e = LiquifactEscrow::new();
    assert!(!e.get_legal_hold());
}

#[test]
fn test_update_funding_target_by_admin_succeeds() {
    let mut e = init_simple("INV001", 5_000, 800, 3000);
    let (updated, _) = e.update_funding_target(10_000).unwrap();
    assert_eq!(updated.funding_target, 10_000);
    assert_eq!(updated.status, 0);
}

#[test]
fn test_update_funding_target_event_fields() {
    let mut e = init_simple("EVT001", 5_000, 800, 0);
    let (_, ev) = e.update_funding_target(9_000).unwrap();
    assert_eq!(
        ev,
        EscrowEvent::FundingTargetUpdated {
            invoice_id: e.get_escrow().unwrap().invoice_id,
            old_target: 5_000,
            new_target: 9_000,
        }
    );
}

#[test]
fn test_update_funding_target_equal_to_funded_amount_succeeds() {
    let mut e = init_simple("BOUND001", 10_000, 800, 0);
    e.fund(addr(10), 4_000, NOW, SEQ).unwrap();
    let (updated, _) = e.update_funding_target(4_000).unwrap();
    assert_eq!(updated.funding_target, 4_000);
    assert_eq!(updated.funded_amount, 4_000);
    assert_eq!(updated.status, 0);
}

#[test]
fn test_update_maturity_event_fields() {
    let mut e = init_simple("MAT001", 5_000, 800, 1000);
    let (_, ev) = e.update_maturity(2000).unwrap();
    assert_eq!(
        ev,
        EscrowEvent::MaturityUpdated {
            invoice_id: e.get_escrow().unwrap().invoice_id,
            old_maturity: 1000,
            new_maturity: 2000,
        }
    );
}

#[test]
fn test_update_maturity_to_zero_succeeds() {
    let mut e = init_simple("MAT005", 5_000, 800, 1000);
    let (updated, _) = e.update_maturity(0).unwrap();
    assert_eq!(updated.maturity, 0);
    assert_eq!(updated.status, 0);
}

#[test]
fn test_settle_passes_exactly_at_maturity_ledger_time() {
    let mut e = init_simple("MAT006", 5_000, 800, 5000);
    e.fund(addr(10), 5_000, 0, 0).unwrap();
    let (settled, _) = e.settle(5000).unwrap();
    assert_eq!(settled.status, 2);
}

#[test]
fn test_update_maturity_twice_overwrites() {
    let mut e = init_simple("MAT008", 5_000, 800, 1000);
    e.update_maturity(2000).unwrap();
    let (updated, _) = e.update_maturity(3000).unwrap();
    assert_eq!(updated.maturity, 3000);
    assert_eq!(e.get_escrow().unwrap().maturity, 3000);
}

#[test]
fn test_rotate_beneficiary_success_dual_auth() {
    let mut e = default_init();
    let new_sme = addr(30);
    let (updated, _) = e.rotate_beneficiary(new_sme).unwrap();
    assert_eq!(updated.sme_address, new_sme);
    assert_eq!(e.get_escrow().unwrap().sme_address, new_sme);
}

#[test]
fn test_rotate_beneficiary_in_funded_state_success() {
    let mut e = default_init();
    e.fund(addr(10), TARGET, NOW, SEQ).unwrap();
    let (updated, _) = e.rotate_beneficiary(addr(30)).unwrap();
    assert_eq!(updated.sme_address, addr(30));
}

#[test]
fn test_rotate_beneficiary_then_withdraw_goes_to_new_sme() {
    let mut e = init_simple("WDTST", TARGET, 800, 0);
    let new_sme = addr(30);
    e.fund(addr(10), TARGET, NOW, SEQ).unwrap();
    e.rotate_beneficiary(new_sme).unwrap();
    let (_, _, transfer) = e.withdraw().unwrap();
    assert_eq!(transfer, TokenTransfer { to: new_sme, amount: TARGET });
}

#[test]
fn test_cancel_pending_admin_clears_pending() {
    let mut e = default_init();
    let new_admin = addr(20);
    e.propose_admin(new_admin).unwrap();
    assert_eq!(e.get_pending_admin(), Some(new_admin));
    let (cancelled, _) = e.cancel_pending_admin().unwrap();
    assert_eq!(cancelled, new_admin);
    assert_eq!(e.get_pending_admin(), None);
    assert_eq!(e.get_escrow().unwrap().admin, admin());
}

#[test]
fn test_cancel_pending_admin_emits_event() {
    let mut e = default_init();
    let new_admin = addr(20);
    e.propose_admin(new_admin).unwrap();
    let (_, ev) = e.cancel_pending_admin().unwrap();
    assert_eq!(
        ev,
        EscrowEvent::AdminProposalCancelled {
            invoice_id: e.get_escrow().unwrap().invoice_id,
            cancelled_pending: new_admin,
        }
    );
}

#[test]
fn test_cancel_then_repropose_succeeds() {
    let mut e = default_init();
    let (first, second) = (addr(20), addr(21));
    e.propose_admin(first).unwrap();
    e.cancel_pending_admin().unwrap();
    assert_eq!(e.get_pending_admin(), None);
    e.propose_admin(second).unwrap();
    assert_eq!(e.get_pending_admin(), Some(second));
    let (updated, _) = e.accept_admin().unwrap();
    assert_eq!(updated.admin, second);
    assert_eq!(e.get_pending_admin(), None);
}

// Error paths of the governance entrypoints.

#[test]
fn governance_rejections_carry_their_errors() {
    let mut e = init_simple("GOV01", 10_000, 800, 1000);
    assert_eq!(e.propose_admin(admin()).unwrap_err(), EscrowError::NewAdminSameAsCurrent);
    assert_eq!(e.accept_admin().unwrap_err(), EscrowError::NoPendingAdmin);
    assert_eq!(e.cancel_pending_admin().unwrap_err(), EscrowError::NoPendingAdmin);
    assert_eq!(e.update_funding_target(0).unwrap_err(), EscrowError::TargetNotPositive);
    assert_eq!(e.update_funding_target(-1).unwrap_err(), EscrowError::TargetNotPositive);
    assert_eq!(e.rotate_beneficiary(sme()).unwrap_err(), EscrowError::NewSmeSameAsCurrent);
    e.fund(addr(10), 4_000, NOW, SEQ).unwrap();
    assert_eq!(e.update_funding_target(3_000).unwrap_err(), EscrowError::TargetBelowFundedAmount);
    e.fund(addr(10), 6_000, NOW, SEQ).unwrap();
    assert_eq!(e.update_funding_target(20_000).unwrap_err(), EscrowError::TargetUpdateNotOpen);
    assert_eq!(e.update_maturity(2000).unwrap_err(), EscrowError::MaturityUpdateNotOpen);
    e.settle(1000).unwrap();
    assert_eq!(e.rotate_beneficiary(addr(30)).unwrap_err(), EscrowError::RotationNotOpen);
}

#[test]
fn rotation_blocked_by_legal_hold_and_in_cancelled_state() {
    let mut e = default_init();
    e.set_legal_hold(true, NOW).unwrap();
    assert_eq!(e.rotate_beneficiary(addr(30)).unwrap_err(), EscrowError::LegalHoldBlocksBeneficiaryRotation);
    e.clear_legal_hold(NOW).unwrap();
    e.cancel_funding().unwrap();
    assert_eq!(e.rotate_beneficiary(addr(30)).unwrap_err(), EscrowError::RotationNotOpen);
}

#[test]
fn governance_before_init_reports_not_initialized() {
    let mut e = LiquifactEscrow::new();
    assert_eq!(e.propose_admin(addr(20)).unwrap_err(), EscrowError::EscrowNotInitialized);
    assert_eq!(e.update_maturity(5).unwrap_err(), EscrowError::EscrowNotInitialized);
    assert_eq!(e.set_legal_hold(true, 0).unwrap_err(), EscrowError::EscrowNotInitialized);
    assert_eq!(e.get_escrow().unwrap_err(), EscrowError::EscrowNotInitialized);
    assert_eq!(e.get_escrow_summary().unwrap_err(), EscrowError::EscrowNotInitialized);
    assert_eq!(e.get_funding_token().unwrap_err(), EscrowError::FundingTokenNotSet);
    assert_eq!(e.get_treasury().unwrap_err(), EscrowError::TreasuryNotSet);
}

#[test]
fn collateral_rejections_carry_their_errors() {
    let mut e = default_init();
    let xlm = validate_invoice_id(b"XLM").unwrap();
    assert_eq!(e.record_sme_collateral_commitment(xlm, 0, NOW).unwrap_err(), EscrowError::CollateralAmountNotPositive);
    let empty = liquifact_escrow::types::Symbol { len: 0, bytes: [0u8; 32] };
    assert_eq!(e.record_sme_collateral_commitment(empty, 5, NOW).unwrap_err(), EscrowError::CollateralAssetEmpty);
    e.record_sme_collateral_commitment(xlm, 100, NOW).unwrap();
    assert_eq!(
        e.record_sme_collateral_commitment(xlm, 100, NOW - 1).unwrap_err(),
        EscrowError::CollateralTimestampBackwards
    );
    let (c, ev) = e.record_sme_collateral_commitment(xlm, 250, NOW + 1).unwrap();
    assert_eq!(c.recorded_at, NOW + 1);
    assert!(matches!(ev, EscrowEvent::CollateralRecorded { amount: 250, prior_amount: 100, .. }));
}
