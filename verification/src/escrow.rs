use vstd::prelude::*;
use crate::error::EscrowError;
use crate::invariants::{lemma_fund_preserves_inv, lemma_init_establishes_inv};
use crate::model::{
    index_of, lemma_index_of, EscrowState, MAX_FUND_BATCH, SCHEMA_VERSION,
};
use crate::rules::{select_tier, validate_invoice_id, validate_yield_tiers};
use crate::types::{
    Address, Digest, EscrowEvent, FundingCloseSnapshot, InvestorPosition, InvoiceEscrow,
    SmeCollateralCommitment, YieldTier, STATUS_FUNDED, STATUS_OPEN,
};

verus! {

/// One escrow instance: the invoice record, its funding book and its
/// governance state. Every entrypoint either applies its transition in full
/// or fails with a typed error and leaves the state untouched.
pub struct LiquifactEscrow {
    pub escrow: Option<InvoiceEscrow>,
    pub version: u32,
    pub funding_token: Option<Address>,
    pub treasury: Option<Address>,
    pub registry: Option<Address>,
    pub yield_tiers: Vec<YieldTier>,
    pub min_contribution: i128,
    pub max_unique_investors: Option<u32>,
    pub max_per_investor: Option<i128>,
    pub funding_deadline: Option<u64>,
    pub legal_hold_clear_delay: u64,
    pub legal_hold: bool,
    pub legal_hold_clearable_at: Option<u64>,
    pub pending_admin: Option<Address>,
    pub allowlist_active: bool,
    /// Allowlisted addresses, each at most once.
    pub allowlist: Vec<Address>,
    pub snapshot: Option<FundingCloseSnapshot>,
    pub settled_at: Option<u64>,
    pub positions: Vec<InvestorPosition>,
    pub distributed_principal: i128,
    pub primary_attestation: Option<Digest>,
    pub attestation_log: Vec<Digest>,
    /// Revoked attestation-log indices, each at most once.
    pub revoked_attestations: Vec<u32>,
    pub collateral: Option<SmeCollateralCommitment>,
}

impl View for LiquifactEscrow {
    type V = EscrowState;

    open spec fn view(&self) -> EscrowState {
        EscrowState {
            escrow: self.escrow,
            version: self.version,
            funding_token: self.funding_token,
            treasury: self.treasury,
            registry: self.registry,
            yield_tiers: self.yield_tiers@,
            min_contribution: self.min_contribution,
            max_unique_investors: self.max_unique_investors,
            max_per_investor: self.max_per_investor,
            funding_deadline: self.funding_deadline,
            legal_hold_clear_delay: self.legal_hold_clear_delay,
            legal_hold: self.legal_hold,
            legal_hold_clearable_at: self.legal_hold_clearable_at,
            pending_admin: self.pending_admin,
            allowlist_active: self.allowlist_active,
            allowlist: self.allowlist@.to_set(),
            snapshot: self.snapshot,
            settled_at: self.settled_at,
            positions: self.positions@,
            distributed_principal: self.distributed_principal,
            primary_attestation: self.primary_attestation,
            attestation_log: self.attestation_log@,
            revoked_attestations: self.revoked_attestations@.to_set(),
            collateral: self.collateral,
        }
    }
}

/// `r` reports the outcome the model prescribes: on success the new state is
/// the model's, on failure the same error and an unchanged state.
pub open spec fn applied<T>(
    r: Result<T, EscrowError>,
    pre: EscrowState,
    post: EscrowState,
    expected: Result<EscrowState, EscrowError>,
) -> bool {
    match r {
        Ok(_) => expected == Ok::<EscrowState, EscrowError>(post),
        Err(e) => expected == Err::<EscrowState, EscrowError>(e) && post == pre,
    }
}

/// The state after the first `k` entries of a batch (the starting state
/// when they fail).
pub open spec fn batch_state(
    pre: EscrowState,
    entries: Seq<(Address, i128)>,
    k: int,
    now: u64,
    sequence: u32,
) -> EscrowState {
    match pre.fund_entries(entries.take(k), now, sequence) {
        Ok(s) => s,
        Err(_) => pre,
    }
}

/// The event a deposit that passed every check publishes.
pub open spec fn fund_event(
    pre: EscrowState,
    post: EscrowState,
    investor: Address,
    amount: i128,
    commitment: Option<u64>,
) -> EscrowEvent {
    EscrowEvent::Funded {
        invoice_id: post.esc().invoice_id,
        investor,
        amount,
        funded_amount: post.esc().funded_amount,
        status: post.esc().status,
        investor_effective_yield_bps: post.position_of(investor)->0.effective_yield_bps,
        tier_lock_secs: if pre.position_of(investor) is None {
            pre.first_deposit_terms(commitment).1
        } else {
            0
        },
    }
}

impl LiquifactEscrow {
    /// Well-formedness: the abstract state satisfies its invariant and the
    /// set-valued vectors hold no duplicates.
    pub open spec fn wf(&self) -> bool {
        &&& self@.inv()
        &&& self.allowlist@.no_duplicates()
        &&& self.revoked_attestations@.no_duplicates()
    }

    /// A freshly deployed, uninitialised instance.
    pub fn new() -> (r: Self)
        ensures
            r@ == EscrowState::fresh(),
            r.wf(),
    {
        let r = LiquifactEscrow {
            escrow: None,
            version: 0,
            funding_token: None,
            treasury: None,
            registry: None,
            yield_tiers: Vec::new(),
            min_contribution: 0,
            max_unique_investors: None,
            max_per_investor: None,
            funding_deadline: None,
            legal_hold_clear_delay: 0,
            legal_hold: false,
            legal_hold_clearable_at: None,
            pending_admin: None,
            allowlist_active: false,
            allowlist: Vec::new(),
            snapshot: None,
            settled_at: None,
            positions: Vec::new(),
            distributed_principal: 0,
            primary_attestation: None,
            attestation_log: Vec::new(),
            revoked_attestations: Vec::new(),
            collateral: None,
        };
        assert(r.allowlist@.to_set() =~= Set::<Address>::empty());
        assert(r.revoked_attestations@.to_set() =~= Set::<u32>::empty());
        r
    }

    /// Creates the invoice escrow: validates the invoice id, pricing, caps
    /// and tier table, binds the funding token, treasury and optional
    /// registry, and opens funding with the target set to `amount`.
    pub fn init(
        &mut self,
        admin: Address,
        invoice_id: &[u8],
        sme: Address,
        amount: i128,
        yield_bps: i64,
        maturity: u64,
        funding_token: Address,
        registry: Option<Address>,
        treasury: Address,
        yield_tiers: Option<Vec<YieldTier>>,
        min_contribution: Option<i128>,
        max_unique_investors: Option<u32>,
        max_per_investor: Option<i128>,
        legal_hold_clear_delay: Option<u64>,
        funding_deadline: Option<u64>,
        now: u64,
    ) -> (r: Result<(InvoiceEscrow, EscrowEvent), EscrowError>)
        requires
            old(self).wf(),
        ensures
            final(self).wf(),
            ({
                let tiers = match yield_tiers {
                    Some(v) => v@,
                    None => Seq::<YieldTier>::empty(),
                };
                let err = old(self)@.init_error(
                    invoice_id@,
                    amount,
                    yield_bps,
                    tiers,
                    min_contribution,
                    max_unique_investors,
                    max_per_investor,
                    funding_deadline,
                    now,
                );
                match r {
                    Ok((esc, ev)) => {
                        &&& err is None
                        &&& esc.invoice_id.chars() == invoice_id@
                        &&& esc.invoice_id.len == invoice_id@.len()
                        &&& forall|i: int|
                            invoice_id@.len() <= i < 32 ==> esc.invoice_id.bytes@[i] == 0u8
                        &&& final(self)@ == old(self)@.initialized_with(
                            admin,
                            esc.invoice_id,
                            sme,
                            amount,
                            yield_bps,
                            maturity,
                            funding_token,
                            registry,
                            treasury,
                            tiers,
                            min_contribution,
                            max_unique_investors,
                            max_per_investor,
                            legal_hold_clear_delay,
                            funding_deadline,
                        )
                        &&& esc == final(self)@.esc()
                        &&& ev == (EscrowEvent::Initialized {
                            escrow: esc,
                            funding_token,
                            treasury,
                            registry,
                            has_maturity_lock: maturity > 0,
                        })
                    },
                    Err(e) => err == Some(e) && final(self)@ == old(self)@,
                }
            }),
    {
        if self.escrow.is_some() {
            return Err(EscrowError::EscrowAlreadyInitialized);
        }
        if amount <= 0 {
            return Err(EscrowError::AmountMustBePositive);
        }
        if yield_bps < 0 || yield_bps > crate::rules::MAX_YIELD_BPS {
            return Err(EscrowError::YieldBpsOutOfRange);
        }
        let sym = match validate_invoice_id(invoice_id) {
            Ok(s) => s,
            Err(e) => return Err(e),
        };
        if let Some(m) = min_contribution {
            if m <= 0 {
                return Err(EscrowError::MinContributionNotPositive);
            }
            if m > amount {
                return Err(EscrowError::MinContributionExceedsAmount);
            }
        }
        if let Some(c) = max_unique_investors {
            if c == 0 {
                return Err(EscrowError::MaxUniqueInvestorsNotPositive);
            }
        }
        if let Some(m) = max_per_investor {
            if m <= 0 {
                return Err(EscrowError::MaxPerInvestorNotPositive);
            }
        }
        let tiers = match yield_tiers {
            Some(v) => v,
            None => Vec::new(),
        };
        match validate_yield_tiers(&tiers, yield_bps) {
            Ok(()) => {},
            Err(e) => return Err(e),
        }
        if let Some(d) = funding_deadline {
            if now > d {
                return Err(EscrowError::FundingDeadlinePassed);
            }
        }
        let esc = InvoiceEscrow {
            invoice_id: sym,
            admin,
            sme_address: sme,
            amount,
            funding_target: amount,
            funded_amount: 0,
            yield_bps,
            maturity,
            status: STATUS_OPEN,
        };
        let ghost pre = self@;
        self.escrow = Some(esc);
        self.version = SCHEMA_VERSION;
        self.funding_token = Some(funding_token);
        self.treasury = Some(treasury);
        self.registry = registry;
        self.yield_tiers = tiers;
        self.min_contribution = match min_contribution {
            Some(m) => m,
            None => 0,
        };
        self.max_unique_investors = max_unique_investors;
        self.max_per_investor = max_per_investor;
        self.funding_deadline = funding_deadline;
        self.legal_hold_clear_delay = match legal_hold_clear_delay {
            Some(d) => d,
            None => 0,
        };
        proof {
            lemma_init_establishes_inv(
                pre,
                admin,
                sym,
                sme,
                amount,
                yield_bps,
                maturity,
                funding_token,
                registry,
                treasury,
                tiers@,
                min_contribution,
                max_unique_investors,
                max_per_investor,
                legal_hold_clear_delay,
                funding_deadline,
            );
        }
        let ev = EscrowEvent::Initialized {
            escrow: esc,
            funding_token,
            treasury,
            registry,
            has_maturity_lock: maturity > 0,
        };
        Ok((esc, ev))
    }

    /// Index of `investor`'s position, if any.
    pub fn find_position(&self, investor: Address) -> (r: Option<usize>)
        ensures
            match r {
                Some(i) => i == index_of(self.positions@, investor) && i < self.positions@.len(),
                None => index_of(self.positions@, investor) == -1,
            },
    {
        proof {
            lemma_index_of(self.positions@, investor);
        }
        let mut n = self.positions.len();
        assert(self.positions@.subrange(0, n as int) =~= self.positions@);
        while n > 0
            invariant
                n <= self.positions@.len(),
                index_of(self.positions@.subrange(0, n as int), investor) == index_of(
                    self.positions@,
                    investor,
                ),
            decreases n,
        {
            assert(self.positions@.subrange(0, n as int).drop_last() =~= self.positions@.subrange(
                0,
                n - 1,
            ));
            if self.positions[n - 1].investor == investor {
                return Some(n - 1);
            }
            n = n - 1;
        }
        assert(self.positions@.subrange(0, 0) =~= Seq::<InvestorPosition>::empty());
        None
    }

    /// Whether `investor` is on the allowlist.
    pub fn is_investor_allowlisted(&self, investor: Address) -> (r: bool)
        ensures
            r == self@.is_allowlisted(investor),
    {
        let mut i: usize = 0;
        while i < self.allowlist.len()
            invariant
                i <= self.allowlist@.len(),
                forall|j: int| 0 <= j < i ==> self.allowlist@[j] != investor,
            decreases self.allowlist@.len() - i,
        {
            if self.allowlist[i] == investor {
                assert(self.allowlist@.contains(investor));
                return true;
            }
            i = i + 1;
        }
        false
    }

    /// Applies one deposit (a later batch entry when `continuing`); the
    /// caller has already checked initialisation.
    fn fund_step(
        &mut self,
        investor: Address,
        amount: i128,
        commitment: Option<u64>,
        now: u64,
        sequence: u32,
        continuing: bool,
    ) -> (r: Result<EscrowEvent, EscrowError>)
        requires
            old(self).wf(),
            old(self)@.initialized(),
            old(self)@.position_of(investor) is None ==> old(self)@.unique_funder_count()
                < u32::MAX,
            continuing && old(self)@.status() == STATUS_FUNDED ==> old(self)@.snapshot->0.total_principal
                >= old(self)@.esc().funding_target,
        ensures
            final(self).wf(),
            match r {
                Ok(ev) => Ok::<EscrowState, EscrowError>(final(self)@) == old(self)@.deposit(
                    investor,
                    amount,
                    commitment,
                    now,
                    sequence,
                    continuing,
                ) && ev == fund_event(old(self)@, final(self)@, investor, amount, commitment),
                Err(e) => Err::<EscrowState, EscrowError>(e) == old(self)@.deposit(
                    investor,
                    amount,
                    commitment,
                    now,
                    sequence,
                    continuing,
                ) && final(self)@ == old(self)@,
            },
    {
        let esc = self.escrow.unwrap();
        if amount <= 0 {
            return Err(EscrowError::FundingAmountNotPositive);
        }
        if amount < self.min_contribution {
            return Err(EscrowError::FundingBelowMinContribution);
        }
        if self.legal_hold {
            return Err(EscrowError::LegalHoldBlocksFunding);
        }
        if !(esc.status == STATUS_OPEN || (continuing && esc.status == STATUS_FUNDED)) {
            return Err(EscrowError::EscrowNotOpenForFunding);
        }
        if let Some(d) = self.funding_deadline {
            if now > d {
                return Err(EscrowError::FundingDeadlinePassed);
            }
        }
        if self.allowlist_active && !self.is_investor_allowlisted(investor) {
            return Err(EscrowError::InvestorNotAllowlisted);
        }
        let found = self.find_position(investor);
        proof {
            lemma_index_of(self.positions@, investor);
        }
        let prev: i128 = match found {
            Some(i) => self.positions[i].contribution,
            None => 0,
        };
        if commitment.is_some() && prev > 0 {
            return Err(EscrowError::TieredSecondDeposit);
        }
        let new_contribution = match prev.checked_add(amount) {
            Some(v) => v,
            None => return Err(EscrowError::InvestorContributionOverflow),
        };
        if let Some(cap) = self.max_per_investor {
            if new_contribution > cap {
                return Err(EscrowError::InvestorContributionExceedsCap);
            }
        }
        if prev == 0 {
            if let Some(cap) = self.max_unique_investors {
                if self.positions.len() >= cap as usize {
                    return Err(EscrowError::UniqueInvestorCapReached);
                }
            }
        }
        let funded = match esc.funded_amount.checked_add(amount) {
            Some(v) => v,
            None => return Err(EscrowError::FundedAmountOverflow),
        };
        let mut claim_not_before: u64 = 0;
        if let Some(lock) = commitment {
            if lock > 0 {
                claim_not_before = match now.checked_add(lock) {
                    Some(t) => t,
                    None => return Err(EscrowError::InvestorClaimTimeOverflow),
                };
                if esc.maturity > 0 && claim_not_before > esc.maturity {
                    return Err(EscrowError::CommitmentLockExceedsMaturity);
                }
            }
        }
        let ghost pre = self@;
        proof {
            assert(prev == pre.contribution_of(investor));
            assert(pre.deposit_error(investor, amount, commitment, now, continuing) is None);
        }
        // every check passed: credit the deposit
        let (effective_yield, tier_lock) = match found {
            Some(i) => {
                let p = self.positions[i];
                self.positions[i] = InvestorPosition { contribution: new_contribution, ..p };
                (p.effective_yield_bps, 0u64)
            },
            None => {
                let terms = match commitment {
                    Some(lock) => select_tier(&self.yield_tiers, esc.yield_bps, lock),
                    None => (esc.yield_bps, 0u64),
                };
                self.positions.push(
                    InvestorPosition {
                        investor,
                        contribution: amount,
                        effective_yield_bps: terms.0,
                        claim_not_before,
                        claimed: false,
                        refunded: false,
                    },
                );
                terms
            },
        };
        let closes = funded >= esc.funding_target;
        let new_esc = InvoiceEscrow {
            funded_amount: funded,
            status: if closes {
                STATUS_FUNDED
            } else {
                STATUS_OPEN
            },
            ..esc
        };
        self.escrow = Some(new_esc);
        if closes && self.snapshot.is_none() {
            self.snapshot = Some(
                FundingCloseSnapshot {
                    total_principal: funded,
                    funding_target: esc.funding_target,
                    closed_at_ledger_timestamp: now,
                    closed_at_ledger_sequence: sequence,
                },
            );
        }
        proof {
            assert(self@.positions =~= pre.credited_positions(investor, amount, commitment, now));
            assert(self@ =~= pre.credited(investor, amount, commitment, now, sequence));
            lemma_fund_preserves_inv(pre, investor, amount, commitment, now, sequence, continuing);
            lemma_index_of(self@.positions, investor);
            if found is None {
                crate::model::lemma_index_of_push(
                    pre.positions,
                    self@.positions.last(),
                    investor,
                );
            } else {
                crate::model::lemma_index_of_update(
                    pre.positions,
                    index_of(pre.positions, investor),
                    self@.positions[index_of(pre.positions, investor)],
                    investor,
                );
            }
        }
        Ok(
            EscrowEvent::Funded {
                invoice_id: new_esc.invoice_id,
                investor,
                amount,
                funded_amount: funded,
                status: new_esc.status,
                investor_effective_yield_bps: effective_yield,
                tier_lock_secs: tier_lock,
            },
        )
    }

    /// Records `amount` of principal from `investor` at the base yield with
    /// no claim gate on a first deposit; follow-on deposits keep the terms
    /// fixed by the first one. Flips the escrow to funded, capturing the
    /// close snapshot, once the target is reached.
    pub fn fund(&mut self, investor: Address, amount: i128, now: u64, sequence: u32) -> (r: Result<
        (InvoiceEscrow, EscrowEvent),
        EscrowError,
    >)
        requires
            old(self).wf(),
            old(self)@.position_of(investor) is None ==> old(self)@.unique_funder_count()
                < u32::MAX,
        ensures
            final(self).wf(),
            match r {
                Ok((esc, ev)) => Ok::<EscrowState, EscrowError>(final(self)@) == old(self)@.fund(
                    investor,
                    amount,
                    None,
                    now,
                    sequence,
                ) && esc == final(self)@.esc() && ev == fund_event(
                    old(self)@,
                    final(self)@,
                    investor,
                    amount,
                    None,
                ),
                Err(e) => Err::<EscrowState, EscrowError>(e) == old(self)@.fund(investor, amount, None, now, sequence)
                    && final(self)@ == old(self)@,
            },
    {
        if self.escrow.is_none() {
            if amount <= 0 {
                return Err(EscrowError::FundingAmountNotPositive);
            }
            if amount < self.min_contribution {
                return Err(EscrowError::FundingBelowMinContribution);
            }
            return Err(EscrowError::EscrowNotInitialized);
        }
        match self.fund_step(investor, amount, None, now, sequence, false) {
            Ok(ev) => Ok((self.escrow.unwrap(), ev)),
            Err(e) => Err(e),
        }
    }

    /// First deposit committing to a lock of `committed_lock_secs`: selects
    /// the highest yield tier the lock reaches and gates claims until
    /// `now + committed_lock_secs` (no gate for a zero lock). An investor who
    /// already holds principal must use [`Self::fund`].
    pub fn fund_with_commitment(
        &mut self,
        investor: Address,
        amount: i128,
        committed_lock_secs: u64,
        now: u64,
        sequence: u32,
    ) -> (r: Result<(InvoiceEscrow, EscrowEvent), EscrowError>)
        requires
            old(self).wf(),
            old(self)@.position_of(investor) is None ==> old(self)@.unique_funder_count()
                < u32::MAX,
        ensures
            final(self).wf(),
            match r {
                Ok((esc, ev)) => Ok::<EscrowState, EscrowError>(final(self)@) == old(self)@.fund(
                    investor,
                    amount,
                    Some(committed_lock_secs),
                    now,
                    sequence,
                ) && esc == final(self)@.esc() && ev == fund_event(
                    old(self)@,
                    final(self)@,
                    investor,
                    amount,
                    Some(committed_lock_secs),
                ),
                Err(e) => Err::<EscrowState, EscrowError>(e) == old(self)@.fund(
                    investor,
                    amount,
                    Some(committed_lock_secs),
                    now,
                    sequence,
                ) && final(self)@ == old(self)@,
            },
    {
        if self.escrow.is_none() {
            if amount <= 0 {
                return Err(EscrowError::FundingAmountNotPositive);
            }
            if amount < self.min_contribution {
                return Err(EscrowError::FundingBelowMinContribution);
            }
            return Err(EscrowError::EscrowNotInitialized);
        }
        match self.fund_step(investor, amount, Some(committed_lock_secs), now, sequence, false) {
            Ok(ev) => Ok((self.escrow.unwrap(), ev)),
            Err(e) => Err(e),
        }
    }

    /// An independent copy of this instance's state.
    pub fn duplicate(&self) -> (r: Self)
        ensures
            r@ == self@,
            r.allowlist@ == self.allowlist@,
            r.revoked_attestations@ == self.revoked_attestations@,
    {
        LiquifactEscrow {
            escrow: self.escrow,
            version: self.version,
            funding_token: self.funding_token,
            treasury: self.treasury,
            registry: self.registry,
            yield_tiers: copy_vec(&self.yield_tiers),
            min_contribution: self.min_contribution,
            max_unique_investors: self.max_unique_investors,
            max_per_investor: self.max_per_investor,
            funding_deadline: self.funding_deadline,
            legal_hold_clear_delay: self.legal_hold_clear_delay,
            legal_hold: self.legal_hold,
            legal_hold_clearable_at: self.legal_hold_clearable_at,
            pending_admin: self.pending_admin,
            allowlist_active: self.allowlist_active,
            allowlist: copy_vec(&self.allowlist),
            snapshot: self.snapshot,
            settled_at: self.settled_at,
            positions: copy_vec(&self.positions),
            distributed_principal: self.distributed_principal,
            primary_attestation: self.primary_attestation,
            attestation_log: copy_vec(&self.attestation_log),
            revoked_attestations: copy_vec(&self.revoked_attestations),
            collateral: self.collateral,
        }
    }

    /// Processes `(investor, amount)` deposits in order, each under the
    /// rules of [`Self::fund`], publishing one event per entry. Entries after
    /// the one that closes funding are still credited; the close snapshot
    /// keeps the principal raised at the close. The batch is atomic: if any
    /// entry fails, its error is returned and no entry is applied.
    pub fn fund_batch(&mut self, entries: &Vec<(Address, i128)>, now: u64, sequence: u32) -> (r:
        Result<(InvoiceEscrow, Vec<EscrowEvent>), EscrowError>)
        requires
            old(self).wf(),
            old(self)@.unique_funder_count() + entries@.len() < u32::MAX,
        ensures
            final(self).wf(),
            match r {
                Ok((esc, evs)) => Ok::<EscrowState, EscrowError>(final(self)@) == old(
                    self,
                )@.fund_batch(entries@, now, sequence) && esc == final(self)@.esc() && evs@.len()
                    == entries@.len() && forall|i: int|
                    0 <= i < entries@.len() ==> #[trigger] evs@[i] == fund_event(
                        batch_state(old(self)@, entries@, i, now, sequence),
                        batch_state(old(self)@, entries@, i + 1, now, sequence),
                        entries@[i].0,
                        entries@[i].1,
                        None,
                    ),
                Err(e) => Err::<EscrowState, EscrowError>(e) == old(self)@.fund_batch(
                    entries@,
                    now,
                    sequence,
                ) && final(self)@ == old(self)@,
            },
    {
        if entries.len() == 0 {
            return Err(EscrowError::FundingBatchEmpty);
        }
        if entries.len() > MAX_FUND_BATCH {
            return Err(EscrowError::FundingBatchTooLarge);
        }
        let mut scratch = self.duplicate();
        let mut events: Vec<EscrowEvent> = Vec::new();
        let mut k: usize = 0;
        assert(entries@.take(0) =~= Seq::<(Address, i128)>::empty());
        while k < entries.len()
            invariant
                k <= entries@.len(),
                scratch.wf(),
                self.wf(),
                Ok::<EscrowState, EscrowError>(scratch@) == self@.fund_entries(
                    entries@.take(k as int),
                    now,
                    sequence,
                ),
                scratch@.unique_funder_count() <= self@.unique_funder_count() + k,
                self@.unique_funder_count() + entries@.len() < u32::MAX,
                events@.len() == k,
                forall|i: int|
                    0 <= i < k ==> #[trigger] events@[i] == fund_event(
                        batch_state(self@, entries@, i, now, sequence),
                        batch_state(self@, entries@, i + 1, now, sequence),
                        entries@[i].0,
                        entries@[i].1,
                        None,
                    ),
                1 <= entries@.len() <= MAX_FUND_BATCH,
                k > 0 ==> scratch@.initialized() && (scratch@.status() == STATUS_OPEN || (
                scratch@.status() == STATUS_FUNDED && scratch@.snapshot->0.total_principal
                    >= scratch@.esc().funding_target)),
            decreases entries@.len() - k,
        {
            let (investor, amount) = entries[k];
            let ghost before = scratch@;
            assert(entries@.take(k + 1).drop_last() =~= entries@.take(k as int));
            assert(entries@.take(k + 1).last() == entries@[k as int]);
            let step = if k == 0 {
                match scratch.fund(investor, amount, now, sequence) {
                    Ok((_, ev)) => Ok(ev),
                    Err(e) => Err(e),
                }
            } else {
                scratch.fund_step(investor, amount, None, now, sequence, true)
            };
            match step {
                Ok(ev) => {
                    proof {
                        assert(batch_state(self@, entries@, k as int, now, sequence) == before);
                        assert(batch_state(self@, entries@, k + 1, now, sequence) == scratch@);
                    }
                    events.push(ev);
                    proof {
                        lemma_index_of(before.positions, investor);
                        assert(scratch@.positions == before.credited_positions(
                            investor,
                            amount,
                            None,
                            now,
                        ));
                    }
                },
                Err(e) => {
                    proof {
                        crate::invariants::lemma_fund_entries_error_sticks(
                            self@,
                            entries@,
                            k as int,
                            now,
                            sequence,
                            e,
                        );
                    }
                    return Err(e);
                },
            }
            k = k + 1;
        }
        assert(entries@.take(entries@.len() as int) =~= entries@);
        *self = scratch;
        Ok((self.escrow.unwrap(), events))
    }
}

/// A copy of a vector of plain values.
pub fn copy_vec<T: Copy>(v: &Vec<T>) -> (r: Vec<T>)
    ensures
        r@ == v@,
{
    let mut r: Vec<T> = Vec::new();
    let mut i: usize = 0;
    while i < v.len()
        invariant
            i <= v@.len(),
            r@ == v@.take(i as int),
        decreases v@.len() - i,
    {
        r.push(v[i]);
        assert(v@.take(i + 1) =~= v@.take(i as int).push(v@[i as int]));
        i = i + 1;
    }
    assert(v@.take(v@.len() as int) =~= v@);
    r
}

} // verus!
