use vstd::prelude::*;
use crate::error::EscrowError;
use crate::escrow::{copy_vec, LiquifactEscrow};
use crate::model::{lemma_index_of, lemma_total_bounds};
use crate::payout::compute_payout;
use crate::types::{
    Address, Digest, EscrowSummary, FundingCloseSnapshot, InvoiceEscrow, SmeCollateralCommitment,
};
use crate::error::error_code;

verus! {

impl LiquifactEscrow {
    /// The escrow record.
    pub fn get_escrow(&self) -> (r: Result<InvoiceEscrow, EscrowError>)
        ensures
            match r {
                Ok(e) => self@.escrow == Some(e),
                Err(e) => self@.escrow is None && e == EscrowError::EscrowNotInitialized,
            },
    {
        match self.escrow {
            Some(e) => Ok(e),
            None => Err(EscrowError::EscrowNotInitialized),
        }
    }

    /// The escrow record with its hold, snapshot, funder-count, allowlist,
    /// schema, collateral and attestation metadata in one read.
    pub fn get_escrow_summary(&self) -> (r: Result<EscrowSummary, EscrowError>)
        requires
            self.wf(),
        ensures
            match r {
                Ok(s) => {
                    &&& self@.escrow == Some(s.escrow)
                    &&& s.has_maturity_lock == (s.escrow.maturity > 0)
                    &&& s.legal_hold == self@.legal_hold
                    &&& s.funding_close_snapshot == self@.snapshot
                    &&& s.unique_funder_count == self@.unique_funder_count()
                    &&& s.is_allowlist_active == self@.allowlist_active
                    &&& s.schema_version == self@.version
                    &&& s.sme_collateral_commitment == self@.collateral
                    &&& s.has_primary_attestation == (self@.primary_attestation is Some)
                    &&& s.attestation_log_length == self@.attestation_log.len()
                },
                Err(e) => !self@.initialized() && e == EscrowError::EscrowNotInitialized,
            },
    {
        let esc = match self.escrow {
            Some(e) => e,
            None => return Err(EscrowError::EscrowNotInitialized),
        };
        Ok(
            EscrowSummary {
                escrow: esc,
                has_maturity_lock: esc.maturity > 0,
                legal_hold: self.legal_hold,
                funding_close_snapshot: self.snapshot,
                unique_funder_count: self.positions.len() as u32,
                is_allowlist_active: self.allowlist_active,
                schema_version: self.version,
                sme_collateral_commitment: self.collateral,
                has_primary_attestation: self.primary_attestation.is_some(),
                attestation_log_length: self.attestation_log.len() as u32,
            },
        )
    }

    /// Stored schema version (0 before `init`).
    pub fn get_version(&self) -> (r: u32)
        ensures
            r == self@.version,
    {
        self.version
    }

    /// Funding token bound at `init`.
    pub fn get_funding_token(&self) -> (r: Result<Address, EscrowError>)
        ensures
            match r {
                Ok(a) => self@.funding_token == Some(a),
                Err(e) => self@.funding_token is None && e == EscrowError::FundingTokenNotSet,
            },
    {
        match self.funding_token {
            Some(a) => Ok(a),
            None => Err(EscrowError::FundingTokenNotSet),
        }
    }

    /// Treasury bound at `init`.
    pub fn get_treasury(&self) -> (r: Result<Address, EscrowError>)
        ensures
            match r {
                Ok(a) => self@.treasury == Some(a),
                Err(e) => self@.treasury is None && e == EscrowError::TreasuryNotSet,
            },
    {
        match self.treasury {
            Some(a) => Ok(a),
            None => Err(EscrowError::TreasuryNotSet),
        }
    }

    /// Optional registry hint bound at `init` (not an authority).
    pub fn get_registry_ref(&self) -> (r: Option<Address>)
        ensures
            r == self@.registry,
    {
        self.registry
    }

    pub fn get_pending_admin(&self) -> (r: Option<Address>)
        ensures
            r == self@.pending_admin,
    {
        self.pending_admin
    }

    pub fn get_legal_hold(&self) -> (r: bool)
        ensures
            r == self@.legal_hold,
    {
        self.legal_hold
    }

    pub fn get_legal_hold_clear_delay(&self) -> (r: u64)
        ensures
            r == self@.legal_hold_clear_delay,
    {
        self.legal_hold_clear_delay
    }

    pub fn get_legal_hold_clearable_at(&self) -> (r: Option<u64>)
        ensures
            r == self@.legal_hold_clearable_at,
    {
        self.legal_hold_clearable_at
    }

    pub fn get_funding_deadline(&self) -> (r: Option<u64>)
        ensures
            r == self@.funding_deadline,
    {
        self.funding_deadline
    }

    /// Whether a funding deadline is set and the ledger time `now` is past it.
    pub fn is_funding_expired(&self, now: u64) -> (r: bool)
        ensures
            r == (self@.funding_deadline matches Some(d) && now > d),
    {
        match self.funding_deadline {
            Some(d) => now > d,
            None => false,
        }
    }

    pub fn get_min_contribution_floor(&self) -> (r: i128)
        ensures
            r == self@.min_contribution,
    {
        self.min_contribution
    }

    pub fn get_max_unique_investors_cap(&self) -> (r: Option<u32>)
        ensures
            r == self@.max_unique_investors,
    {
        self.max_unique_investors
    }

    pub fn get_max_per_investor_cap(&self) -> (r: Option<i128>)
        ensures
            r == self@.max_per_investor,
    {
        self.max_per_investor
    }

    /// Whether settlement is gated by a maturity timestamp.
    pub fn has_maturity_lock(&self) -> (r: Result<bool, EscrowError>)
        ensures
            match r {
                Ok(b) => self@.initialized() && b == (self@.esc().maturity > 0),
                Err(e) => !self@.initialized() && e == EscrowError::EscrowNotInitialized,
            },
    {
        match self.escrow {
            Some(e) => Ok(e.maturity > 0),
            None => Err(EscrowError::EscrowNotInitialized),
        }
    }

    pub fn get_funding_close_snapshot(&self) -> (r: Option<FundingCloseSnapshot>)
        ensures
            r == self@.snapshot,
    {
        self.snapshot
    }

    pub fn get_settled_at(&self) -> (r: Option<u64>)
        ensures
            r == self@.settled_at,
    {
        self.settled_at
    }

    /// Principal currently credited to `investor` (0 for a stranger).
    pub fn get_contribution(&self, investor: Address) -> (r: i128)
        requires
            self.wf(),
        ensures
            r == self@.contribution_of(investor),
    {
        match self.find_position(investor) {
            Some(i) => self.positions[i].contribution,
            None => 0,
        }
    }

    /// Number of distinct addresses that have deposited.
    pub fn get_unique_funder_count(&self) -> (r: u32)
        requires
            self.wf(),
        ensures
            r == self@.unique_funder_count(),
    {
        self.positions.len() as u32
    }

    /// Yield (bps) the payout math applies to `investor`: fixed at the first
    /// deposit, otherwise the base yield.
    pub fn get_investor_yield_bps(&self, investor: Address) -> (r: Result<i64, EscrowError>)
        requires
            self.wf(),
        ensures
            match r {
                Ok(y) => self@.initialized() && y == self@.effective_yield_of(investor),
                Err(e) => !self@.initialized() && e == EscrowError::EscrowNotInitialized,
            },
    {
        let esc = match self.escrow {
            Some(e) => e,
            None => return Err(EscrowError::EscrowNotInitialized),
        };
        match self.find_position(investor) {
            Some(i) => Ok(self.positions[i].effective_yield_bps),
            None => Ok(esc.yield_bps),
        }
    }

    /// Same value as [`Self::get_investor_yield_bps`].
    pub fn get_effective_yield_bps(&self, investor: Address) -> (r: Result<i64, EscrowError>)
        requires
            self.wf(),
        ensures
            match r {
                Ok(y) => self@.initialized() && y == self@.effective_yield_of(investor),
                Err(e) => !self@.initialized() && e == EscrowError::EscrowNotInitialized,
            },
    {
        self.get_investor_yield_bps(investor)
    }

    /// Earliest ledger time at which `investor` may claim (0: no gate).
    pub fn get_investor_claim_not_before(&self, investor: Address) -> (r: u64)
        requires
            self.wf(),
        ensures
            r == match self@.position_of(investor) {
                Some(p) => p.claim_not_before,
                None => 0,
            },
    {
        match self.find_position(investor) {
            Some(i) => self.positions[i].claim_not_before,
            None => 0,
        }
    }

    pub fn is_investor_claimed(&self, investor: Address) -> (r: bool)
        requires
            self.wf(),
        ensures
            r == (self@.position_of(investor) matches Some(p) && p.claimed),
    {
        match self.find_position(investor) {
            Some(i) => self.positions[i].claimed,
            None => false,
        }
    }

    pub fn is_investor_refunded(&self, investor: Address) -> (r: bool)
        requires
            self.wf(),
        ensures
            r == (self@.position_of(investor) matches Some(p) && p.refunded),
    {
        match self.find_position(investor) {
            Some(i) => self.positions[i].refunded,
            None => false,
        }
    }

    /// What `investor` is owed at settlement: `contribution * settle_pool /
    /// total_principal`, with the pool built from the close snapshot and the
    /// investor's effective yield; 0 before funding closes or without
    /// contribution.
    pub fn compute_investor_payout(&self, investor: Address) -> (r: Result<i128, EscrowError>)
        requires
            self.wf(),
        ensures
            match r {
                Ok(p) => p == self@.payout_of(investor),
                Err(e) => e == EscrowError::ComputePayoutArithmeticOverflow && self@.snapshot is Some
                    && self@.contribution_of(investor) != 0 && !crate::payout::payout_fits(
                    self@.contribution_of(investor),
                    self@.snapshot->0.total_principal as int,
                    self@.effective_yield_of(investor) as int,
                ),
            },
    {
        let snap = match self.snapshot {
            Some(s) => s,
            None => return Ok(0),
        };
        let found = self.find_position(investor);
        proof {
            lemma_index_of(self.positions@, investor);
        }
        let i = match found {
            Some(i) => i,
            None => return Ok(0),
        };
        let p = self.positions[i];
        if p.contribution == 0 {
            return Ok(0);
        }
        proof {
            lemma_total_bounds(self.positions@, i as int);
        }
        compute_payout(p.contribution, snap.total_principal, p.effective_yield_bps)
    }

    pub fn get_primary_attestation_hash(&self) -> (r: Option<Digest>)
        ensures
            r == self@.primary_attestation,
    {
        self.primary_attestation
    }

    /// A copy of the attestation digest log.
    pub fn get_attestation_append_log(&self) -> (r: Vec<Digest>)
        ensures
            r@ == self@.attestation_log,
    {
        copy_vec(&self.attestation_log)
    }

    pub fn get_sme_collateral_commitment(&self) -> (r: Option<SmeCollateralCommitment>)
        ensures
            r == self@.collateral,
    {
        self.collateral
    }

    pub fn is_allowlist_active(&self) -> (r: bool)
        ensures
            r == self@.allowlist_active,
    {
        self.allowlist_active
    }

    /// Principal already returned to investors through refunds.
    pub fn get_distributed_principal(&self) -> (r: i128)
        ensures
            r == self@.distributed_principal,
    {
        self.distributed_principal
    }

    /// Principal still missing to reach the target (never negative).
    pub fn get_remaining_funding_capacity(&self) -> (r: Result<i128, EscrowError>)
        requires
            self.wf(),
        ensures
            match r {
                Ok(c) => self@.initialized() && c == (if self@.esc().funded_amount
                    >= self@.esc().funding_target {
                    0
                } else {
                    self@.esc().funding_target - self@.esc().funded_amount
                }),
                Err(e) => !self@.initialized() && e == EscrowError::EscrowNotInitialized,
            },
    {
        match self.escrow {
            Some(e) => {
                if e.funded_amount >= e.funding_target {
                    Ok(0)
                } else {
                    Ok(e.funding_target - e.funded_amount)
                }
            },
            None => Err(EscrowError::EscrowNotInitialized),
        }
    }

    /// Whether the principal raised has reached the funding target.
    pub fn is_fully_funded(&self) -> (r: Result<bool, EscrowError>)
        ensures
            match r {
                Ok(b) => self@.initialized() && b == (self@.esc().funded_amount
                    >= self@.esc().funding_target),
                Err(e) => !self@.initialized() && e == EscrowError::EscrowNotInitialized,
            },
    {
        match self.escrow {
            Some(e) => Ok(e.funded_amount >= e.funding_target),
            None => Err(EscrowError::EscrowNotInitialized),
        }
    }

    /// Read-only preview of a plain deposit: 0 when [`Self::fund`] would
    /// accept it, else the code of the error it would report first. Like a
    /// deposit, a preview whose amount passes the positivity and floor checks
    /// needs an initialised escrow.
    pub fn preview_fund(&self, investor: Address, amount: i128, now: u64) -> (r: u32)
        requires
            self.wf(),
            self@.initialized() || amount <= 0 || amount < self@.min_contribution,
        ensures
            r == match self@.fund_error(investor, amount, None, now) {
                Some(e) => error_code(e),
                None => 0,
            },
    {
        match self.fund_error_exec(investor, amount, now) {
            Some(e) => e.code(),
            None => 0,
        }
    }

    /// The first failing check of a plain deposit, without applying it.
    fn fund_error_exec(&self, investor: Address, amount: i128, now: u64) -> (r: Option<EscrowError>)
        requires
            self.wf(),
        ensures
            r == self@.fund_error(investor, amount, None, now),
    {
        if amount <= 0 {
            return Some(EscrowError::FundingAmountNotPositive);
        }
        if amount < self.min_contribution {
            return Some(EscrowError::FundingBelowMinContribution);
        }
        let esc = match self.escrow {
            Some(e) => e,
            None => return Some(EscrowError::EscrowNotInitialized),
        };
        if self.legal_hold {
            return Some(EscrowError::LegalHoldBlocksFunding);
        }
        if esc.status != crate::types::STATUS_OPEN {
            return Some(EscrowError::EscrowNotOpenForFunding);
        }
        if let Some(d) = self.funding_deadline {
            if now > d {
                return Some(EscrowError::FundingDeadlinePassed);
            }
        }
        if self.allowlist_active && !self.is_investor_allowlisted(investor) {
            return Some(EscrowError::InvestorNotAllowlisted);
        }
        let prev = self.get_contribution(investor);
        proof {
            lemma_index_of(self.positions@, investor);
            let i = crate::model::index_of(self.positions@, investor);
            if i >= 0 {
                lemma_total_bounds(self.positions@, i);
            }
        }
        let new_contribution = match prev.checked_add(amount) {
            Some(v) => v,
            None => return Some(EscrowError::InvestorContributionOverflow),
        };
        if let Some(cap) = self.max_per_investor {
            if new_contribution > cap {
                return Some(EscrowError::InvestorContributionExceedsCap);
            }
        }
        if prev == 0 {
            if let Some(cap) = self.max_unique_investors {
                if self.positions.len() >= cap as usize {
                    return Some(EscrowError::UniqueInvestorCapReached);
                }
            }
        }
        if esc.funded_amount.checked_add(amount).is_none() {
            return Some(EscrowError::FundedAmountOverflow);
        }
        None
    }
}

} // verus!
