use vstd::prelude::*;

verus! {

/// A Stellar address: either an account (ed25519 public key) or a contract
/// (contract hash). The 32-byte payload is held as four big-endian words.
#[derive(Clone, Copy, Debug, PartialEq, Eq, Hash, Structural)]
pub struct Address {
    pub is_contract: bool,
    pub k0: u64,
    pub k1: u64,
    pub k2: u64,
    pub k3: u64,
}

/// Longest symbol (invoice id, collateral asset label) accepted by the ledger.
pub const MAX_SYMBOL_LEN: usize = 32;

/// A short ledger symbol: `len` meaningful ASCII bytes of `[A-Za-z0-9_]`,
/// the rest of `bytes` zero.
#[derive(Clone, Copy, Debug, PartialEq, Eq, Hash)]
pub struct Symbol {
    pub len: u8,
    pub bytes: [u8; 32],
}

impl Symbol {
    /// The characters of the symbol.
    pub open spec fn chars(self) -> Seq<u8> {
        self.bytes@.subrange(0, self.len as int)
    }

    /// Whether the symbol is the empty symbol.
    pub fn is_empty(&self) -> (r: bool)
        ensures
            r == (self.len == 0),
    {
        self.len == 0
    }
}

/// A 32-byte attestation digest.
pub type Digest = [u8; 32];

/// Core escrow record (stored under the escrow key).
#[derive(Clone, Copy, Debug, PartialEq, Eq)]
pub struct InvoiceEscrow {
    pub invoice_id: Symbol,
    pub admin: Address,
    pub sme_address: Address,
    /// Invoice face value, as created.
    pub amount: i128,
    /// Funding target; may be updated while open.
    pub funding_target: i128,
    /// Running total of principal credited.
    pub funded_amount: i128,
    /// Base annualised yield in basis points, `0..=10_000`.
    pub yield_bps: i64,
    /// Ledger timestamp gating settlement; 0 means no maturity gate.
    pub maturity: u64,
    /// 0 open, 1 funded, 2 settled, 3 withdrawn, 4 cancelled.
    pub status: u32,
}

pub const STATUS_OPEN: u32 = 0;
pub const STATUS_FUNDED: u32 = 1;
pub const STATUS_SETTLED: u32 = 2;
pub const STATUS_WITHDRAWN: u32 = 3;
pub const STATUS_CANCELLED: u32 = 4;

/// One rung of the optional tiered-yield ladder.
#[derive(Clone, Copy, Debug, PartialEq, Eq)]
pub struct YieldTier {
    pub min_lock_secs: u64,
    pub yield_bps: i64,
}

/// Pro-rata denominator captured once, when the escrow closes funding.
#[derive(Clone, Copy, Debug, PartialEq, Eq)]
pub struct FundingCloseSnapshot {
    pub total_principal: i128,
    pub funding_target: i128,
    pub closed_at_ledger_timestamp: u64,
    pub closed_at_ledger_sequence: u32,
}

/// SME-reported collateral metadata (record only; moves no tokens).
#[derive(Clone, Copy, Debug, PartialEq, Eq)]
pub struct SmeCollateralCommitment {
    pub asset: Symbol,
    pub amount: i128,
    pub recorded_at: u64,
}

/// Per-investor accounting, created on an investor's first deposit.
#[derive(Clone, Copy, Debug, PartialEq, Eq)]
pub struct InvestorPosition {
    pub investor: Address,
    /// Cumulative principal still credited to the investor.
    pub contribution: i128,
    /// Yield (bps) fixed at the first deposit.
    pub effective_yield_bps: i64,
    /// Earliest ledger timestamp at which a claim is allowed (0: no gate).
    pub claim_not_before: u64,
    pub claimed: bool,
    pub refunded: bool,
}

/// Read model bundling the escrow record with its metadata families.
#[derive(Clone, Copy, Debug, PartialEq, Eq)]
pub struct EscrowSummary {
    pub escrow: InvoiceEscrow,
    pub has_maturity_lock: bool,
    pub legal_hold: bool,
    pub funding_close_snapshot: Option<FundingCloseSnapshot>,
    pub unique_funder_count: u32,
    pub is_allowlist_active: bool,
    pub schema_version: u32,
    pub sme_collateral_commitment: Option<SmeCollateralCommitment>,
    pub has_primary_attestation: bool,
    pub attestation_log_length: u32,
}

/// A movement of the funding token that the host must perform after a
/// successful transition.
#[derive(Clone, Copy, Debug, PartialEq, Eq)]
pub struct TokenTransfer {
    pub to: Address,
    pub amount: i128,
}

/// Events published by the escrow, one per successful state change.
#[derive(Clone, Copy, Debug, PartialEq, Eq)]
pub enum EscrowEvent {
    Initialized { escrow: InvoiceEscrow, funding_token: Address, treasury: Address, registry: Option<Address>, has_maturity_lock: bool },
    Funded { invoice_id: Symbol, investor: Address, amount: i128, funded_amount: i128, status: u32, investor_effective_yield_bps: i64, tier_lock_secs: u64 },
    Settled { invoice_id: Symbol, funded_amount: i128, yield_bps: i64, maturity: u64, settled_at_ledger_timestamp: u64 },
    SmeWithdrew { invoice_id: Symbol, sme: Address, amount: i128 },
    InvestorPayoutClaimed { invoice_id: Symbol, investor: Address, payout: i128 },
    FundingCancelled { invoice_id: Symbol, funded_amount: i128 },
    InvestorRefunded { invoice_id: Symbol, investor: Address, amount: i128 },
    LegalHoldChanged { invoice_id: Symbol, active: u32 },
    LegalHoldClearRequested { invoice_id: Symbol, clearable_at: u64 },
    MaturityUpdated { invoice_id: Symbol, old_maturity: u64, new_maturity: u64 },
    FundingTargetUpdated { invoice_id: Symbol, old_target: i128, new_target: i128 },
    MaxUniqueInvestorsCapLowered { invoice_id: Symbol, old_cap: u32, new_cap: u32 },
    AdminProposed { invoice_id: Symbol, current_admin: Address, pending_admin: Address },
    AdminAccepted { invoice_id: Symbol, previous_admin: Address, new_admin: Address },
    AdminProposalCancelled { invoice_id: Symbol, cancelled_pending: Address },
    BeneficiaryRotated { invoice_id: Symbol, old_sme: Address, new_sme: Address },
    AllowlistActiveChanged { invoice_id: Symbol, active: u32 },
    InvestorAllowlistChanged { invoice_id: Symbol, investor: Address, allowed: u32 },
    PrimaryAttestationBound { invoice_id: Symbol, digest: Digest },
    AttestationDigestAppended { invoice_id: Symbol, index: u32, digest: Digest },
    AttestationDigestRevoked { invoice_id: Symbol, index: u32 },
    CollateralRecorded { invoice_id: Symbol, amount: i128, prior_amount: i128 },
    DustSwept { invoice_id: Symbol, treasury: Address, amount: i128 },
    PartiallySettled { invoice_id: Symbol, funded_amount: i128, funding_target: i128 },
}

} // verus!
