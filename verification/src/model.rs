use vstd::prelude::*;
use crate::error::EscrowError;
use crate::payout::investor_payout;
use crate::rules::{invoice_id_error, tier_for_lock, tier_table_error, valid_tier_table, MAX_YIELD_BPS};
use crate::types::{
    Address, Digest, FundingCloseSnapshot, InvestorPosition, InvoiceEscrow, SmeCollateralCommitment,
    Symbol, YieldTier, STATUS_CANCELLED, STATUS_FUNDED, STATUS_OPEN, STATUS_SETTLED, STATUS_WITHDRAWN,
};

verus! {

/// Schema version written at initialisation.
pub const SCHEMA_VERSION: u32 = 6;

/// Most `(investor, amount)` entries one batch deposit may carry.
pub const MAX_FUND_BATCH: usize = 50;

/// Capacity of the append-only attestation digest log.
pub const MAX_ATTESTATION_APPEND_ENTRIES: usize = 32;

/// Most funding-token units one dust sweep may move.
pub const MAX_DUST_SWEEP_AMOUNT: i128 = 100_000_000;

/// Most addresses one allowlist batch update may carry.
pub const MAX_INVESTOR_ALLOWLIST_BATCH: usize = 50;

/// Abstract state of one escrow instance: everything its storage holds.
pub ghost struct EscrowState {
    /// Core record; `None` until `init`.
    pub escrow: Option<InvoiceEscrow>,
    pub version: u32,
    pub funding_token: Option<Address>,
    pub treasury: Option<Address>,
    pub registry: Option<Address>,
    pub yield_tiers: Seq<YieldTier>,
    /// Per-deposit minimum (0: none).
    pub min_contribution: i128,
    pub max_unique_investors: Option<u32>,
    pub max_per_investor: Option<i128>,
    pub funding_deadline: Option<u64>,
    pub legal_hold_clear_delay: u64,
    pub legal_hold: bool,
    pub legal_hold_clearable_at: Option<u64>,
    pub pending_admin: Option<Address>,
    pub allowlist_active: bool,
    pub allowlist: Set<Address>,
    pub snapshot: Option<FundingCloseSnapshot>,
    pub settled_at: Option<u64>,
    /// One entry per address that ever deposited, in order of first deposit.
    pub positions: Seq<InvestorPosition>,
    /// Principal already returned through refunds.
    pub distributed_principal: i128,
    pub primary_attestation: Option<Digest>,
    pub attestation_log: Seq<Digest>,
    pub revoked_attestations: Set<u32>,
    pub collateral: Option<SmeCollateralCommitment>,
}

// ---------------------------------------------------------------------------
// Investor positions
// ---------------------------------------------------------------------------

/// Index of `investor`'s position in `s` (the last one), or -1.
pub open spec fn index_of(s: Seq<InvestorPosition>, investor: Address) -> int
    decreases s.len(),
{
    if s.len() == 0 {
        -1
    } else if s.last().investor == investor {
        s.len() - 1
    } else {
        index_of(s.drop_last(), investor)
    }
}

/// No address holds two positions.
pub open spec fn unique_investors(s: Seq<InvestorPosition>) -> bool {
    forall|i: int, j: int|
        0 <= i < s.len() && 0 <= j < s.len() && i != j ==> #[trigger] s[i].investor
            != #[trigger] s[j].investor
}

/// Sum of the contributions still credited.
pub open spec fn total_contributions(s: Seq<InvestorPosition>) -> int
    decreases s.len(),
{
    if s.len() == 0 {
        0
    } else {
        total_contributions(s.drop_last()) + s.last().contribution
    }
}

pub proof fn lemma_index_of(s: Seq<InvestorPosition>, investor: Address)
    ensures
        -1 <= index_of(s, investor) < s.len(),
        index_of(s, investor) >= 0 ==> s[index_of(s, investor)].investor == investor,
        index_of(s, investor) < 0 ==> forall|i: int|
            0 <= i < s.len() ==> #[trigger] s[i].investor != investor,
    decreases s.len(),
{
    if s.len() > 0 {
        lemma_index_of(s.drop_last(), investor);
        if s.last().investor != investor {
            assert forall|i: int| 0 <= i < s.len() && index_of(s, investor) < 0 implies #[trigger] s[i].investor
                != investor by {
                if i < s.len() - 1 {
                    assert(s.drop_last()[i] == s[i]);
                }
            }
        }
    }
}

/// With unique investors, the position at `i` is the one `index_of` finds.
pub proof fn lemma_index_of_unique(s: Seq<InvestorPosition>, i: int)
    requires
        unique_investors(s),
        0 <= i < s.len(),
    ensures
        index_of(s, s[i].investor) == i,
{
    lemma_index_of(s, s[i].investor);
}

pub proof fn lemma_index_of_update(s: Seq<InvestorPosition>, i: int, p: InvestorPosition, investor: Address)
    requires
        0 <= i < s.len(),
        p.investor == s[i].investor,
    ensures
        index_of(s.update(i, p), investor) == index_of(s, investor),
    decreases s.len(),
{
    if i < s.len() - 1 {
        assert(s.update(i, p).drop_last() =~= s.drop_last().update(i, p));
        lemma_index_of_update(s.drop_last(), i, p, investor);
    } else {
        assert(s.update(i, p).drop_last() =~= s.drop_last());
    }
}

pub proof fn lemma_index_of_push(s: Seq<InvestorPosition>, p: InvestorPosition, investor: Address)
    ensures
        index_of(s.push(p), investor) == if p.investor == investor {
            s.len() as int
        } else {
            index_of(s, investor)
        },
{
    assert(s.push(p).drop_last() =~= s);
}

pub proof fn lemma_total_update(s: Seq<InvestorPosition>, i: int, p: InvestorPosition)
    requires
        0 <= i < s.len(),
    ensures
        total_contributions(s.update(i, p)) == total_contributions(s) - s[i].contribution
            + p.contribution,
    decreases s.len(),
{
    if i < s.len() - 1 {
        assert(s.update(i, p).drop_last() =~= s.drop_last().update(i, p));
        lemma_total_update(s.drop_last(), i, p);
    } else {
        assert(s.update(i, p).drop_last() =~= s.drop_last());
    }
}

pub proof fn lemma_total_push(s: Seq<InvestorPosition>, p: InvestorPosition)
    ensures
        total_contributions(s.push(p)) == total_contributions(s) + p.contribution,
{
    assert(s.push(p).drop_last() =~= s);
}

pub proof fn lemma_total_bounds(s: Seq<InvestorPosition>, i: int)
    requires
        forall|j: int| 0 <= j < s.len() ==> #[trigger] s[j].contribution >= 0,
        0 <= i < s.len(),
    ensures
        0 <= s[i].contribution <= total_contributions(s),
    decreases s.len(),
{
    lemma_total_nonneg(s.drop_last());
    if i < s.len() - 1 {
        assert(s.drop_last()[i] == s[i]);
        lemma_total_bounds(s.drop_last(), i);
    }
}

pub proof fn lemma_total_nonneg(s: Seq<InvestorPosition>)
    requires
        forall|j: int| 0 <= j < s.len() ==> #[trigger] s[j].contribution >= 0,
    ensures
        total_contributions(s) >= 0,
    decreases s.len(),
{
    if s.len() > 0 {
        assert forall|j: int| 0 <= j < s.drop_last().len() implies #[trigger] s.drop_last()[j].contribution
            >= 0 by {
            assert(s.drop_last()[j] == s[j]);
        }
        lemma_total_nonneg(s.drop_last());
    }
}

// ---------------------------------------------------------------------------
// State queries
// ---------------------------------------------------------------------------

pub open spec fn is_funded_family(status: u32) -> bool {
    status == STATUS_FUNDED || status == STATUS_SETTLED || status == STATUS_WITHDRAWN
}

impl EscrowState {
    /// The state of a freshly deployed, uninitialised instance.
    pub open spec fn fresh() -> Self {
        EscrowState {
            escrow: None,
            version: 0,
            funding_token: None,
            treasury: None,
            registry: None,
            yield_tiers: Seq::empty(),
            min_contribution: 0,
            max_unique_investors: None,
            max_per_investor: None,
            funding_deadline: None,
            legal_hold_clear_delay: 0,
            legal_hold: false,
            legal_hold_clearable_at: None,
            pending_admin: None,
            allowlist_active: false,
            allowlist: Set::empty(),
            snapshot: None,
            settled_at: None,
            positions: Seq::empty(),
            distributed_principal: 0,
            primary_attestation: None,
            attestation_log: Seq::empty(),
            revoked_attestations: Set::empty(),
            collateral: None,
        }
    }

    pub open spec fn initialized(self) -> bool {
        self.escrow is Some
    }

    pub open spec fn esc(self) -> InvoiceEscrow {
        self.escrow->0
    }

    pub open spec fn status(self) -> u32 {
        self.esc().status
    }

    /// Position held by `investor`, if any.
    pub open spec fn position_of(self, investor: Address) -> Option<InvestorPosition> {
        let i = index_of(self.positions, investor);
        if i >= 0 {
            Some(self.positions[i])
        } else {
            None
        }
    }

    /// Principal currently credited to `investor` (0 for a stranger).
    pub open spec fn contribution_of(self, investor: Address) -> int {
        match self.position_of(investor) {
            Some(p) => p.contribution as int,
            None => 0,
        }
    }

    /// Number of distinct addresses that have deposited.
    pub open spec fn unique_funder_count(self) -> nat {
        self.positions.len()
    }

    pub open spec fn is_allowlisted(self, investor: Address) -> bool {
        self.allowlist.contains(investor)
    }

    /// Yield (bps) the payout math applies to `investor`: the one fixed at the
    /// first deposit, else the base yield.
    pub open spec fn effective_yield_of(self, investor: Address) -> i64 {
        match self.position_of(investor) {
            Some(p) => p.effective_yield_bps,
            None => self.esc().yield_bps,
        }
    }

    /// What `investor` is owed at settlement (0 before funding closes or
    /// without contribution).
    pub open spec fn payout_of(self, investor: Address) -> int {
        match self.snapshot {
            Some(s) => if self.contribution_of(investor) == 0 {
                0
            } else {
                investor_payout(
                    self.contribution_of(investor),
                    s.total_principal as int,
                    self.effective_yield_of(investor) as int,
                )
            },
            None => 0,
        }
    }

    // -----------------------------------------------------------------------
    // Invariant
    // -----------------------------------------------------------------------

    /// Well-formedness of every reachable state.
    pub open spec fn inv(self) -> bool {
        match self.escrow {
            None => {
                &&& self.positions.len() == 0
                &&& self.distributed_principal == 0
                &&& self.snapshot is None
                &&& self.settled_at is None
                &&& self.attestation_log.len() == 0
            },
            Some(e) => {
                &&& e.amount > 0
                &&& e.funding_target > 0
                &&& 0 <= e.yield_bps <= MAX_YIELD_BPS
                &&& e.status <= STATUS_CANCELLED
                &&& e.funded_amount >= 0
                &&& self.funding_token is Some
                &&& self.treasury is Some
                &&& self.min_contribution >= 0
                &&& valid_tier_table(self.yield_tiers, e.yield_bps)
                &&& (self.max_per_investor matches Some(cap) ==> cap > 0 && forall|i: int|
                    0 <= i < self.positions.len() ==> #[trigger] self.positions[i].contribution
                        <= cap)
                &&& (self.max_unique_investors matches Some(cap) ==> self.positions.len() <= cap)
                &&& self.positions.len() <= u32::MAX
                &&& unique_investors(self.positions)
                &&& forall|i: int|
                    0 <= i < self.positions.len() ==> {
                        let p = #[trigger] self.positions[i];
                        &&& p.contribution >= 0
                        &&& 0 <= p.effective_yield_bps <= MAX_YIELD_BPS
                        &&& (e.status != STATUS_CANCELLED ==> p.contribution > 0 && !p.refunded)
                        &&& (p.claimed ==> e.status == STATUS_SETTLED)
                        &&& (p.refunded ==> p.contribution == 0)
                    }
                &&& self.distributed_principal >= 0
                &&& total_contributions(self.positions) + self.distributed_principal
                    == e.funded_amount
                &&& (e.status != STATUS_CANCELLED ==> self.distributed_principal == 0)
                &&& (is_funded_family(e.status) ==> (self.snapshot matches Some(s)
                    && s.total_principal <= e.funded_amount && (s.total_principal
                    < e.funded_amount ==> s.total_principal >= s.funding_target)
                    && s.funding_target == e.funding_target))
                &&& (!is_funded_family(e.status) ==> self.snapshot is None)
                &&& (self.settled_at is Some <==> e.status == STATUS_SETTLED)
                &&& self.attestation_log.len() <= MAX_ATTESTATION_APPEND_ENTRIES
            },
        }
    }

    // -----------------------------------------------------------------------
    // init
    // -----------------------------------------------------------------------

    /// First failing initialisation check, in the order the entrypoint
    /// applies them.
    pub open spec fn init_error(
        self,
        invoice_id: Seq<u8>,
        amount: i128,
        yield_bps: i64,
        yield_tiers: Seq<YieldTier>,
        min_contribution: Option<i128>,
        max_unique_investors: Option<u32>,
        max_per_investor: Option<i128>,
        funding_deadline: Option<u64>,
        now: u64,
    ) -> Option<EscrowError> {
        if self.initialized() {
            Some(EscrowError::EscrowAlreadyInitialized)
        } else if amount <= 0 {
            Some(EscrowError::AmountMustBePositive)
        } else if yield_bps < 0 || yield_bps > MAX_YIELD_BPS {
            Some(EscrowError::YieldBpsOutOfRange)
        } else if invoice_id_error(invoice_id) is Some {
            invoice_id_error(invoice_id)
        } else if min_contribution matches Some(m) && m <= 0 {
            Some(EscrowError::MinContributionNotPositive)
        } else if min_contribution matches Some(m) && m > amount {
            Some(EscrowError::MinContributionExceedsAmount)
        } else if max_unique_investors == Some(0u32) {
            Some(EscrowError::MaxUniqueInvestorsNotPositive)
        } else if max_per_investor matches Some(m) && m <= 0 {
            Some(EscrowError::MaxPerInvestorNotPositive)
        } else if tier_table_error(yield_tiers, yield_bps) is Some {
            tier_table_error(yield_tiers, yield_bps)
        } else if funding_deadline matches Some(d) && now > d {
            Some(EscrowError::FundingDeadlinePassed)
        } else {
            None
        }
    }

    /// The state right after a successful `init`.
    pub open spec fn initialized_with(
        self,
        admin: Address,
        invoice_id: Symbol,
        sme: Address,
        amount: i128,
        yield_bps: i64,
        maturity: u64,
        funding_token: Address,
        registry: Option<Address>,
        treasury: Address,
        yield_tiers: Seq<YieldTier>,
        min_contribution: Option<i128>,
        max_unique_investors: Option<u32>,
        max_per_investor: Option<i128>,
        legal_hold_clear_delay: Option<u64>,
        funding_deadline: Option<u64>,
    ) -> Self {
        EscrowState {
            escrow: Some(
                InvoiceEscrow {
                    invoice_id,
                    admin,
                    sme_address: sme,
                    amount,
                    funding_target: amount,
                    funded_amount: 0,
                    yield_bps,
                    maturity,
                    status: STATUS_OPEN,
                },
            ),
            version: SCHEMA_VERSION,
            funding_token: Some(funding_token),
            treasury: Some(treasury),
            registry,
            yield_tiers,
            min_contribution: match min_contribution {
                Some(m) => m,
                None => 0,
            },
            max_unique_investors,
            max_per_investor,
            funding_deadline,
            legal_hold_clear_delay: match legal_hold_clear_delay {
                Some(d) => d,
                None => 0,
            },
            ..self
        }
    }

    // -----------------------------------------------------------------------
    // Funding
    // -----------------------------------------------------------------------

    /// First failing deposit check, in the order the funding entrypoints
    /// apply them. `commitment` is `Some(lock_secs)` for a committed
    /// (tier-selecting) deposit and `None` for a plain one.
    pub open spec fn fund_error(
        self,
        investor: Address,
        amount: i128,
        commitment: Option<u64>,
        now: u64,
    ) -> Option<EscrowError> {
        self.deposit_error(investor, amount, commitment, now, false)
    }

    /// First failing check of a deposit. `continuing` marks a batch entry
    /// after the first one: such an entry is also taken once an earlier
    /// entry of the same batch has closed funding.
    pub open spec fn deposit_error(
        self,
        investor: Address,
        amount: i128,
        commitment: Option<u64>,
        now: u64,
        continuing: bool,
    ) -> Option<EscrowError> {
        let prev = self.contribution_of(investor);
        let e = self.esc();
        if amount <= 0 {
            Some(EscrowError::FundingAmountNotPositive)
        } else if amount < self.min_contribution {
            Some(EscrowError::FundingBelowMinContribution)
        } else if !self.initialized() {
            Some(EscrowError::EscrowNotInitialized)
        } else if self.legal_hold {
            Some(EscrowError::LegalHoldBlocksFunding)
        } else if !(e.status == STATUS_OPEN || (continuing && e.status == STATUS_FUNDED)) {
            Some(EscrowError::EscrowNotOpenForFunding)
        } else if self.funding_deadline matches Some(d) && now > d {
            Some(EscrowError::FundingDeadlinePassed)
        } else if self.allowlist_active && !self.is_allowlisted(investor) {
            Some(EscrowError::InvestorNotAllowlisted)
        } else if commitment is Some && prev > 0 {
            Some(EscrowError::TieredSecondDeposit)
        } else if prev + amount > i128::MAX {
            Some(EscrowError::InvestorContributionOverflow)
        } else if self.max_per_investor matches Some(cap) && prev + amount > cap {
            Some(EscrowError::InvestorContributionExceedsCap)
        } else if prev == 0 && (self.max_unique_investors matches Some(cap)
            && self.unique_funder_count() >= cap) {
            Some(EscrowError::UniqueInvestorCapReached)
        } else if e.funded_amount + amount > i128::MAX {
            Some(EscrowError::FundedAmountOverflow)
        } else if commitment matches Some(lock) && lock > 0 && now + lock > u64::MAX {
            Some(EscrowError::InvestorClaimTimeOverflow)
        } else if commitment matches Some(lock) && lock > 0 && e.maturity > 0 && now + lock
            > e.maturity {
            Some(EscrowError::CommitmentLockExceedsMaturity)
        } else {
            None
        }
    }

    /// (effective yield, tier lock) a first deposit receives.
    pub open spec fn first_deposit_terms(self, commitment: Option<u64>) -> (i64, u64) {
        match commitment {
            Some(lock) => tier_for_lock(self.yield_tiers, self.esc().yield_bps, lock),
            None => (self.esc().yield_bps, 0),
        }
    }

    /// Claim gate a first deposit receives.
    pub open spec fn first_deposit_claim_not_before(commitment: Option<u64>, now: u64) -> u64 {
        match commitment {
            Some(lock) => if lock > 0 {
                (now + lock) as u64
            } else {
                0
            },
            None => 0,
        }
    }

    /// Positions after crediting `amount` to `investor`.
    pub open spec fn credited_positions(
        self,
        investor: Address,
        amount: i128,
        commitment: Option<u64>,
        now: u64,
    ) -> Seq<InvestorPosition> {
        let i = index_of(self.positions, investor);
        if i >= 0 {
            let p = self.positions[i];
            self.positions.update(i, InvestorPosition { contribution: (p.contribution + amount) as i128, ..p })
        } else {
            self.positions.push(
                InvestorPosition {
                    investor,
                    contribution: amount,
                    effective_yield_bps: self.first_deposit_terms(commitment).0,
                    claim_not_before: Self::first_deposit_claim_not_before(commitment, now),
                    claimed: false,
                    refunded: false,
                },
            )
        }
    }

    /// State after a deposit that passed every check: principal credited,
    /// status flipped to funded once the target is reached, and the close
    /// snapshot captured the first time that happens.
    pub open spec fn credited(
        self,
        investor: Address,
        amount: i128,
        commitment: Option<u64>,
        now: u64,
        sequence: u32,
    ) -> Self {
        let e = self.esc();
        let funded = (e.funded_amount + amount) as i128;
        let closes = funded >= e.funding_target;
        EscrowState {
            escrow: Some(
                InvoiceEscrow {
                    funded_amount: funded,
                    status: if closes {
                        STATUS_FUNDED
                    } else {
                        STATUS_OPEN
                    },
                    ..e
                },
            ),
            positions: self.credited_positions(investor, amount, commitment, now),
            snapshot: if closes && self.snapshot is None {
                Some(
                    FundingCloseSnapshot {
                        total_principal: funded,
                        funding_target: e.funding_target,
                        closed_at_ledger_timestamp: now,
                        closed_at_ledger_sequence: sequence,
                    },
                )
            } else {
                self.snapshot
            },
            ..self
        }
    }

    /// A single deposit (`fund` / `fund_with_commitment`).
    pub open spec fn fund(
        self,
        investor: Address,
        amount: i128,
        commitment: Option<u64>,
        now: u64,
        sequence: u32,
    ) -> Result<Self, EscrowError> {
        self.deposit(investor, amount, commitment, now, sequence, false)
    }

    /// A deposit, possibly a later entry of a batch (see [`Self::deposit_error`]).
    pub open spec fn deposit(
        self,
        investor: Address,
        amount: i128,
        commitment: Option<u64>,
        now: u64,
        sequence: u32,
        continuing: bool,
    ) -> Result<Self, EscrowError> {
        match self.deposit_error(investor, amount, commitment, now, continuing) {
            Some(err) => Err(err),
            None => Ok(self.credited(investor, amount, commitment, now, sequence)),
        }
    }

    /// A batch of plain deposits applied in order; the first failing entry
    /// fails the whole batch. Entries after the one that closes funding are
    /// still credited.
    pub open spec fn fund_entries(
        self,
        entries: Seq<(Address, i128)>,
        now: u64,
        sequence: u32,
    ) -> Result<Self, EscrowError>
        decreases entries.len(),
    {
        if entries.len() == 0 {
            Ok(self)
        } else {
            match self.fund_entries(entries.drop_last(), now, sequence) {
                Err(err) => Err(err),
                Ok(s) => s.deposit(
                    entries.last().0,
                    entries.last().1,
                    None,
                    now,
                    sequence,
                    entries.len() > 1,
                ),
            }
        }
    }

    pub open spec fn fund_batch(self, entries: Seq<(Address, i128)>, now: u64, sequence: u32) -> Result<
        Self,
        EscrowError,
    > {
        if entries.len() == 0 {
            Err(EscrowError::FundingBatchEmpty)
        } else if entries.len() > MAX_FUND_BATCH {
            Err(EscrowError::FundingBatchTooLarge)
        } else {
            self.fund_entries(entries, now, sequence)
        }
    }

    // -----------------------------------------------------------------------
    // Settlement path
    // -----------------------------------------------------------------------

    /// Early close by the SME or admin: freezes funding at the principal
    /// raised so far and captures the close snapshot.
    pub open spec fn partial_settle(self, now: u64, sequence: u32) -> Result<Self, EscrowError> {
        let e = self.esc();
        if !self.initialized() {
            Err(EscrowError::EscrowNotInitialized)
        } else if self.legal_hold {
            Err(EscrowError::LegalHoldBlocksSettlement)
        } else if e.status != STATUS_OPEN {
            Err(EscrowError::EscrowNotOpenForFunding)
        } else {
            Ok(
                EscrowState {
                    escrow: Some(InvoiceEscrow { status: STATUS_FUNDED, ..e }),
                    snapshot: Some(
                        FundingCloseSnapshot {
                            total_principal: e.funded_amount,
                            funding_target: e.funding_target,
                            closed_at_ledger_timestamp: now,
                            closed_at_ledger_sequence: sequence,
                        },
                    ),
                    ..self
                },
            )
        }
    }

    /// SME finalises a funded escrow once maturity (if any) is reached.
    pub open spec fn settle(self, now: u64) -> Result<Self, EscrowError> {
        let e = self.esc();
        if !self.initialized() {
            Err(EscrowError::EscrowNotInitialized)
        } else if self.legal_hold {
            Err(EscrowError::LegalHoldBlocksSettlement)
        } else if e.status != STATUS_FUNDED {
            Err(EscrowError::SettlementNotFunded)
        } else if e.maturity > 0 && now < e.maturity {
            Err(EscrowError::MaturityNotReached)
        } else {
            Ok(
                EscrowState {
                    escrow: Some(InvoiceEscrow { status: STATUS_SETTLED, ..e }),
                    settled_at: Some(now),
                    ..self
                },
            )
        }
    }

    /// SME pulls the funded liquidity (terminal, exclusive with settlement).
    pub open spec fn withdraw(self) -> Result<Self, EscrowError> {
        let e = self.esc();
        if !self.initialized() {
            Err(EscrowError::EscrowNotInitialized)
        } else if self.legal_hold {
            Err(EscrowError::LegalHoldBlocksWithdrawal)
        } else if e.status != STATUS_FUNDED {
            Err(EscrowError::WithdrawalNotFunded)
        } else {
            Ok(EscrowState { escrow: Some(InvoiceEscrow { status: STATUS_WITHDRAWN, ..e }), ..self })
        }
    }

    /// First failing check of an investor claim.
    pub open spec fn claim_error(self, investor: Address, now: u64) -> Option<EscrowError> {
        let p = self.position_of(investor)->0;
        if !self.initialized() {
            Some(EscrowError::EscrowNotInitialized)
        } else if self.legal_hold {
            Some(EscrowError::LegalHoldBlocksInvestorClaims)
        } else if self.contribution_of(investor) == 0 {
            Some(EscrowError::NoContributionToClaim)
        } else if self.status() != STATUS_SETTLED {
            Some(EscrowError::InvestorClaimNotSettled)
        } else if now < p.claim_not_before {
            Some(EscrowError::InvestorCommitmentLockNotExpired)
        } else if !crate::payout::payout_fits(
            p.contribution as int,
            self.snapshot->0.total_principal as int,
            p.effective_yield_bps as int,
        ) {
            Some(EscrowError::ComputePayoutArithmeticOverflow)
        } else {
            None
        }
    }

    /// An investor records the payout claim; repeating it changes nothing.
    /// (The payout math is checked on every call, claimed or not.)
    pub open spec fn claim_investor_payout(self, investor: Address, now: u64) -> Result<
        Self,
        EscrowError,
    > {
        match self.claim_error(investor, now) {
            Some(err) => Err(err),
            None => {
                let i = index_of(self.positions, investor);
                Ok(
                    EscrowState {
                        positions: self.positions.update(
                            i,
                            InvestorPosition { claimed: true, ..self.positions[i] },
                        ),
                        ..self
                    },
                )
            },
        }
    }

    // -----------------------------------------------------------------------
    // Cancellation path
    // -----------------------------------------------------------------------

    /// Admin cancels an open escrow; investors may then reclaim principal.
    pub open spec fn cancel_funding(self) -> Result<Self, EscrowError> {
        let e = self.esc();
        if !self.initialized() {
            Err(EscrowError::EscrowNotInitialized)
        } else if self.legal_hold {
            Err(EscrowError::LegalHoldBlocksCancelFunding)
        } else if e.status != STATUS_OPEN {
            Err(EscrowError::CancelFundingNotOpen)
        } else {
            Ok(EscrowState { escrow: Some(InvoiceEscrow { status: STATUS_CANCELLED, ..e }), ..self })
        }
    }

    /// An investor of a cancelled escrow takes the principal back: the
    /// contribution is zeroed and counted as distributed.
    pub open spec fn refund(self, investor: Address) -> Result<Self, EscrowError> {
        let c = self.contribution_of(investor);
        if !self.initialized() {
            Err(EscrowError::EscrowNotInitialized)
        } else if self.status() != STATUS_CANCELLED {
            Err(EscrowError::RefundNotCancelled)
        } else if c == 0 {
            Err(EscrowError::NoContributionToRefund)
        } else {
            let i = index_of(self.positions, investor);
            Ok(
                EscrowState {
                    positions: self.positions.update(
                        i,
                        InvestorPosition { contribution: 0, refunded: true, ..self.positions[i] },
                    ),
                    distributed_principal: (self.distributed_principal + c) as i128,
                    ..self
                },
            )
        }
    }

    /// Principal the dust sweep must leave in the contract: what a cancelled
    /// escrow still owes for refunds (`funded_amount - distributed_principal`).
    /// A settled or withdrawn escrow keeps no floor: its principal has left
    /// through withdrawal or is paid out of band, and a settled escrow whose
    /// balance holds only the residue must be sweepable.
    pub open spec fn outstanding_liability(self) -> int {
        if self.status() == STATUS_CANCELLED {
            self.esc().funded_amount - self.distributed_principal
        } else {
            0
        }
    }

    /// Amount a treasury dust sweep of `amount` moves given the escrow's
    /// funding-token `balance` (the sweep changes no escrow state).
    pub open spec fn sweep_terminal_dust(self, amount: i128, balance: i128) -> Result<
        i128,
        EscrowError,
    > {
        let s = self.status();
        let effective = if amount < balance {
            amount
        } else {
            balance
        };
        if !self.initialized() {
            Err(EscrowError::EscrowNotInitialized)
        } else if self.legal_hold {
            Err(EscrowError::LegalHoldBlocksTreasuryDustSweep)
        } else if amount <= 0 {
            Err(EscrowError::SweepAmountNotPositive)
        } else if amount > MAX_DUST_SWEEP_AMOUNT {
            Err(EscrowError::SweepAmountExceedsMax)
        } else if s != STATUS_SETTLED && s != STATUS_WITHDRAWN && s != STATUS_CANCELLED {
            Err(EscrowError::DustSweepNotTerminal)
        } else if balance <= 0 {
            Err(EscrowError::NoFundingTokenBalanceToSweep)
        } else if effective <= 0 {
            Err(EscrowError::EffectiveSweepAmountZero)
        } else if balance - effective < self.outstanding_liability() {
            Err(EscrowError::SweepExceedsLiabilityFloor)
        } else {
            Ok(effective)
        }
    }

    // -----------------------------------------------------------------------
    // Legal hold
    // -----------------------------------------------------------------------

    /// Admin sets or clears the compliance hold. With a clear delay
    /// configured, clearing needs a prior clear request whose delay elapsed.
    pub open spec fn set_legal_hold(self, active: bool, now: u64) -> Result<Self, EscrowError> {
        if !self.initialized() {
            Err(EscrowError::EscrowNotInitialized)
        } else if active {
            Ok(EscrowState { legal_hold: true, ..self })
        } else if self.legal_hold_clear_delay > 0 && self.legal_hold_clearable_at is None {
            Err(EscrowError::LegalHoldClearRequestMissing)
        } else if self.legal_hold_clear_delay > 0 && now < self.legal_hold_clearable_at->0 {
            Err(EscrowError::LegalHoldClearNotReady)
        } else {
            Ok(EscrowState { legal_hold: false, legal_hold_clearable_at: None, ..self })
        }
    }

    /// Admin starts the delayed clear of the hold.
    pub open spec fn request_clear_legal_hold(self, now: u64) -> Result<Self, EscrowError> {
        if !self.initialized() {
            Err(EscrowError::EscrowNotInitialized)
        } else if now + self.legal_hold_clear_delay > u64::MAX {
            Err(EscrowError::LegalHoldClearDelayOverflow)
        } else {
            Ok(
                EscrowState {
                    legal_hold_clearable_at: Some((now + self.legal_hold_clear_delay) as u64),
                    ..self
                },
            )
        }
    }

    // -----------------------------------------------------------------------
    // Admin configuration
    // -----------------------------------------------------------------------

    pub open spec fn update_maturity(self, new_maturity: u64) -> Result<Self, EscrowError> {
        let e = self.esc();
        if !self.initialized() {
            Err(EscrowError::EscrowNotInitialized)
        } else if e.status != STATUS_OPEN {
            Err(EscrowError::MaturityUpdateNotOpen)
        } else {
            Ok(EscrowState { escrow: Some(InvoiceEscrow { maturity: new_maturity, ..e }), ..self })
        }
    }

    pub open spec fn update_funding_target(self, new_target: i128) -> Result<Self, EscrowError> {
        let e = self.esc();
        if !self.initialized() {
            Err(EscrowError::EscrowNotInitialized)
        } else if new_target <= 0 {
            Err(EscrowError::TargetNotPositive)
        } else if e.status != STATUS_OPEN {
            Err(EscrowError::TargetUpdateNotOpen)
        } else if new_target < e.funded_amount {
            Err(EscrowError::TargetBelowFundedAmount)
        } else {
            Ok(EscrowState { escrow: Some(InvoiceEscrow { funding_target: new_target, ..e }), ..self })
        }
    }

    pub open spec fn lower_max_unique_investors(self, new_cap: u32) -> Result<Self, EscrowError> {
        if !self.initialized() {
            Err(EscrowError::EscrowNotInitialized)
        } else if self.status() != STATUS_OPEN {
            Err(EscrowError::CapLowerNotOpen)
        } else if self.max_unique_investors is None {
            Err(EscrowError::NoInvestorCapConfigured)
        } else if new_cap >= self.max_unique_investors->0 {
            Err(EscrowError::NewCapNotLower)
        } else if new_cap < self.unique_funder_count() {
            Err(EscrowError::NewCapBelowCurrentFunderCount)
        } else {
            Ok(EscrowState { max_unique_investors: Some(new_cap), ..self })
        }
    }

    pub open spec fn propose_admin(self, new_admin: Address) -> Result<Self, EscrowError> {
        if !self.initialized() {
            Err(EscrowError::EscrowNotInitialized)
        } else if new_admin == self.esc().admin {
            Err(EscrowError::NewAdminSameAsCurrent)
        } else {
            Ok(EscrowState { pending_admin: Some(new_admin), ..self })
        }
    }

    pub open spec fn accept_admin(self) -> Result<Self, EscrowError> {
        let e = self.esc();
        if !self.initialized() {
            Err(EscrowError::EscrowNotInitialized)
        } else if self.pending_admin is None {
            Err(EscrowError::NoPendingAdmin)
        } else {
            Ok(
                EscrowState {
                    escrow: Some(InvoiceEscrow { admin: self.pending_admin->0, ..e }),
                    pending_admin: None,
                    ..self
                },
            )
        }
    }

    pub open spec fn cancel_pending_admin(self) -> Result<Self, EscrowError> {
        if !self.initialized() {
            Err(EscrowError::EscrowNotInitialized)
        } else if self.pending_admin is None {
            Err(EscrowError::NoPendingAdmin)
        } else {
            Ok(EscrowState { pending_admin: None, ..self })
        }
    }

    /// Admin and SME jointly move the beneficiary before settlement.
    pub open spec fn rotate_beneficiary(self, new_sme: Address) -> Result<Self, EscrowError> {
        let e = self.esc();
        if !self.initialized() {
            Err(EscrowError::EscrowNotInitialized)
        } else if self.legal_hold {
            Err(EscrowError::LegalHoldBlocksBeneficiaryRotation)
        } else if e.status != STATUS_OPEN && e.status != STATUS_FUNDED {
            Err(EscrowError::RotationNotOpen)
        } else if new_sme == e.sme_address {
            Err(EscrowError::NewSmeSameAsCurrent)
        } else {
            Ok(EscrowState { escrow: Some(InvoiceEscrow { sme_address: new_sme, ..e }), ..self })
        }
    }

    // -----------------------------------------------------------------------
    // Allowlist
    // -----------------------------------------------------------------------

    pub open spec fn set_allowlist_active(self, active: bool) -> Result<Self, EscrowError> {
        if !self.initialized() {
            Err(EscrowError::EscrowNotInitialized)
        } else {
            Ok(EscrowState { allowlist_active: active, ..self })
        }
    }

    pub open spec fn allowlist_with(self, investor: Address, allowed: bool) -> Set<Address> {
        if allowed {
            self.allowlist.insert(investor)
        } else {
            self.allowlist.remove(investor)
        }
    }

    pub open spec fn set_investor_allowlisted(self, investor: Address, allowed: bool) -> Result<
        Self,
        EscrowError,
    > {
        if !self.initialized() {
            Err(EscrowError::EscrowNotInitialized)
        } else {
            Ok(EscrowState { allowlist: self.allowlist_with(investor, allowed), ..self })
        }
    }

    pub open spec fn set_investors_allowlisted(self, investors: Seq<Address>, allowed: bool) -> Result<
        Self,
        EscrowError,
    > {
        if !self.initialized() {
            Err(EscrowError::EscrowNotInitialized)
        } else if investors.len() == 0 {
            Err(EscrowError::InvestorBatchEmpty)
        } else if investors.len() > MAX_INVESTOR_ALLOWLIST_BATCH {
            Err(EscrowError::InvestorBatchTooLarge)
        } else {
            Ok(
                EscrowState {
                    allowlist: if allowed {
                        self.allowlist.union(investors.to_set())
                    } else {
                        self.allowlist.difference(investors.to_set())
                    },
                    ..self
                },
            )
        }
    }

    // -----------------------------------------------------------------------
    // Attestations and collateral metadata
    // -----------------------------------------------------------------------

    pub open spec fn bind_primary_attestation_hash(self, digest: Digest) -> Result<Self, EscrowError> {
        if !self.initialized() {
            Err(EscrowError::EscrowNotInitialized)
        } else if self.primary_attestation is Some {
            Err(EscrowError::PrimaryAttestationAlreadyBound)
        } else {
            Ok(EscrowState { primary_attestation: Some(digest), ..self })
        }
    }

    pub open spec fn append_attestation_digest(self, digest: Digest) -> Result<Self, EscrowError> {
        if !self.initialized() {
            Err(EscrowError::EscrowNotInitialized)
        } else if self.attestation_log.len() >= MAX_ATTESTATION_APPEND_ENTRIES {
            Err(EscrowError::AttestationAppendLogCapacityReached)
        } else {
            Ok(EscrowState { attestation_log: self.attestation_log.push(digest), ..self })
        }
    }

    pub open spec fn revoke_attestation_digest(self, index: u32) -> Result<Self, EscrowError> {
        if !self.initialized() {
            Err(EscrowError::EscrowNotInitialized)
        } else {
            Ok(EscrowState { revoked_attestations: self.revoked_attestations.insert(index), ..self })
        }
    }

    /// SME records (or replaces) its self-reported collateral metadata.
    pub open spec fn record_sme_collateral_commitment(self, asset: Symbol, amount: i128, now: u64) -> Result<
        Self,
        EscrowError,
    > {
        if !self.initialized() {
            Err(EscrowError::EscrowNotInitialized)
        } else if amount <= 0 {
            Err(EscrowError::CollateralAmountNotPositive)
        } else if asset.len == 0 {
            Err(EscrowError::CollateralAssetEmpty)
        } else if self.collateral matches Some(c) && now < c.recorded_at {
            Err(EscrowError::CollateralTimestampBackwards)
        } else {
            Ok(
                EscrowState {
                    collateral: Some(SmeCollateralCommitment { asset, amount, recorded_at: now }),
                    ..self
                },
            )
        }
    }
}

/// The error a schema migration from `from_version` reports when the stored
/// version is `stored`: a claimed version at or above the current schema is
/// already current, any other claim must match the stored version, and no
/// migration path exists in this schema, so every call fails.
pub open spec fn migration_error(stored: u32, from_version: u32) -> EscrowError {
    if from_version >= SCHEMA_VERSION {
        EscrowError::AlreadyCurrentSchemaVersion
    } else if stored != from_version {
        EscrowError::MigrationVersionMismatch
    } else {
        EscrowError::NoMigrationPath
    }
}

} // verus!
