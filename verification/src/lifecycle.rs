use vstd::prelude::*;
use crate::error::EscrowError;
use crate::escrow::{applied, LiquifactEscrow};
use crate::model::{
    index_of, lemma_index_of, lemma_index_of_update, lemma_total_bounds, lemma_total_update,
    EscrowState, MAX_DUST_SWEEP_AMOUNT,
};
use crate::payout::compute_payout;
use crate::types::{
    Address, EscrowEvent, FundingCloseSnapshot, InvestorPosition, InvoiceEscrow, TokenTransfer,
    STATUS_CANCELLED, STATUS_FUNDED, STATUS_OPEN, STATUS_SETTLED, STATUS_WITHDRAWN,
};

verus! {

impl LiquifactEscrow {
    /// Whether `caller` may close funding early: an uninitialised escrow
    /// leaves the decision to [`Self::partial_settle`]'s own error, otherwise
    /// the caller must be the SME or the admin.
    pub fn may_partial_settle(&self, caller: Address) -> (r: bool)
        ensures
            r == (self@.initialized() ==> caller == self@.esc().sme_address || caller
                == self@.esc().admin),
    {
        match self.escrow {
            Some(e) => caller == e.sme_address || caller == e.admin,
            None => true,
        }
    }

    /// Closes funding early at the principal raised so far (status open to
    /// funded) and captures the close snapshot. `caller` is the signer, who
    /// must be the SME or the admin.
    pub fn partial_settle(&mut self, caller: Address, now: u64, sequence: u32) -> (r: Result<
        (InvoiceEscrow, EscrowEvent),
        EscrowError,
    >)
        requires
            old(self).wf(),
            old(self)@.initialized() ==> caller == old(self)@.esc().sme_address || caller == old(
                self,
            )@.esc().admin,
        ensures
            final(self).wf(),
            applied(r, old(self)@, final(self)@, old(self)@.partial_settle(now, sequence)),
            r matches Ok((esc, ev)) ==> esc == final(self)@.esc() && ev == (
            EscrowEvent::PartiallySettled {
                invoice_id: esc.invoice_id,
                funded_amount: esc.funded_amount,
                funding_target: esc.funding_target,
            }),
    {
        let esc = match self.escrow {
            Some(e) => e,
            None => return Err(EscrowError::EscrowNotInitialized),
        };
        if self.legal_hold {
            return Err(EscrowError::LegalHoldBlocksSettlement);
        }
        if esc.status != STATUS_OPEN {
            return Err(EscrowError::EscrowNotOpenForFunding);
        }
        let new_esc = InvoiceEscrow { status: STATUS_FUNDED, ..esc };
        self.escrow = Some(new_esc);
        self.snapshot = Some(
            FundingCloseSnapshot {
                total_principal: esc.funded_amount,
                funding_target: esc.funding_target,
                closed_at_ledger_timestamp: now,
                closed_at_ledger_sequence: sequence,
            },
        );
        Ok(
            (
                new_esc,
                EscrowEvent::PartiallySettled {
                    invoice_id: new_esc.invoice_id,
                    funded_amount: new_esc.funded_amount,
                    funding_target: new_esc.funding_target,
                },
            ),
        )
    }

    /// SME finalises a funded escrow (status funded to settled) once the
    /// ledger time reaches maturity (no gate when maturity is 0), recording
    /// the settlement time.
    pub fn settle(&mut self, now: u64) -> (r: Result<(InvoiceEscrow, EscrowEvent), EscrowError>)
        requires
            old(self).wf(),
        ensures
            final(self).wf(),
            applied(r, old(self)@, final(self)@, old(self)@.settle(now)),
            r matches Ok((esc, ev)) ==> esc == final(self)@.esc() && ev == (EscrowEvent::Settled {
                invoice_id: esc.invoice_id,
                funded_amount: esc.funded_amount,
                yield_bps: esc.yield_bps,
                maturity: esc.maturity,
                settled_at_ledger_timestamp: now,
            }),
    {
        let esc = match self.escrow {
            Some(e) => e,
            None => return Err(EscrowError::EscrowNotInitialized),
        };
        if self.legal_hold {
            return Err(EscrowError::LegalHoldBlocksSettlement);
        }
        if esc.status != STATUS_FUNDED {
            return Err(EscrowError::SettlementNotFunded);
        }
        if esc.maturity > 0 && now < esc.maturity {
            return Err(EscrowError::MaturityNotReached);
        }
        let new_esc = InvoiceEscrow { status: STATUS_SETTLED, ..esc };
        self.escrow = Some(new_esc);
        self.settled_at = Some(now);
        Ok(
            (
                new_esc,
                EscrowEvent::Settled {
                    invoice_id: new_esc.invoice_id,
                    funded_amount: new_esc.funded_amount,
                    yield_bps: new_esc.yield_bps,
                    maturity: new_esc.maturity,
                    settled_at_ledger_timestamp: now,
                },
            ),
        )
    }

    /// SME pulls the funded liquidity (status funded to withdrawn); the host
    /// then transfers `funded_amount` of the funding token to the SME.
    pub fn withdraw(&mut self) -> (r: Result<(InvoiceEscrow, EscrowEvent, TokenTransfer), EscrowError>)
        requires
            old(self).wf(),
        ensures
            final(self).wf(),
            applied(r, old(self)@, final(self)@, old(self)@.withdraw()),
            r matches Ok((esc, ev, t)) ==> esc == final(self)@.esc() && t == (TokenTransfer {
                to: esc.sme_address,
                amount: esc.funded_amount,
            }) && ev == (EscrowEvent::SmeWithdrew {
                invoice_id: esc.invoice_id,
                sme: esc.sme_address,
                amount: esc.funded_amount,
            }),
    {
        let esc = match self.escrow {
            Some(e) => e,
            None => return Err(EscrowError::EscrowNotInitialized),
        };
        if self.legal_hold {
            return Err(EscrowError::LegalHoldBlocksWithdrawal);
        }
        if esc.status != STATUS_FUNDED {
            return Err(EscrowError::WithdrawalNotFunded);
        }
        let new_esc = InvoiceEscrow { status: STATUS_WITHDRAWN, ..esc };
        self.escrow = Some(new_esc);
        Ok(
            (
                new_esc,
                EscrowEvent::SmeWithdrew {
                    invoice_id: new_esc.invoice_id,
                    sme: new_esc.sme_address,
                    amount: new_esc.funded_amount,
                },
                TokenTransfer { to: new_esc.sme_address, amount: new_esc.funded_amount },
            ),
        )
    }

    /// Investor records the payout claim after settlement, once the
    /// commitment lock (if any) has expired. Returns the payout owed and, for
    /// the first claim only, the claim event: repeating a claim is a no-op.
    pub fn claim_investor_payout(&mut self, investor: Address, now: u64) -> (r: Result<
        (i128, Option<EscrowEvent>),
        EscrowError,
    >)
        requires
            old(self).wf(),
        ensures
            final(self).wf(),
            applied(r, old(self)@, final(self)@, old(self)@.claim_investor_payout(investor, now)),
            r matches Ok((payout, ev)) ==> {
                &&& payout == old(self)@.payout_of(investor)
                &&& final(self)@.position_of(investor) matches Some(p) && p.claimed
                &&& (old(self)@.position_of(investor)->0.claimed ==> ev is None && final(self)@
                    == old(self)@)
                &&& (!old(self)@.position_of(investor)->0.claimed ==> ev == Some(
                    EscrowEvent::InvestorPayoutClaimed {
                        invoice_id: final(self)@.esc().invoice_id,
                        investor,
                        payout,
                    },
                ))
            },
    {
        let esc = match self.escrow {
            Some(e) => e,
            None => return Err(EscrowError::EscrowNotInitialized),
        };
        if self.legal_hold {
            return Err(EscrowError::LegalHoldBlocksInvestorClaims);
        }
        let found = self.find_position(investor);
        proof {
            lemma_index_of(self.positions@, investor);
        }
        let i = match found {
            Some(i) => i,
            None => return Err(EscrowError::NoContributionToClaim),
        };
        let p = self.positions[i];
        if p.contribution == 0 {
            return Err(EscrowError::NoContributionToClaim);
        }
        if esc.status != STATUS_SETTLED {
            return Err(EscrowError::InvestorClaimNotSettled);
        }
        if now < p.claim_not_before {
            return Err(EscrowError::InvestorCommitmentLockNotExpired);
        }
        let snap = self.snapshot.unwrap();
        proof {
            lemma_total_bounds(self.positions@, i as int);
        }
        let payout = match compute_payout(p.contribution, snap.total_principal, p.effective_yield_bps) {
            Ok(v) => v,
            Err(e) => return Err(e),
        };
        if p.claimed {
            assert(self@.positions.update(i as int, InvestorPosition { claimed: true, ..p }) =~= self@.positions);
            return Ok((payout, None));
        }
        let ghost pre = self@;
        self.positions[i] = InvestorPosition { claimed: true, ..p };
        proof {
            assert(self@.positions == pre.positions.update(i as int, InvestorPosition { claimed: true, ..p }));
            lemma_total_update(pre.positions, i as int, InvestorPosition { claimed: true, ..p });
            lemma_index_of_update(pre.positions, i as int, InvestorPosition { claimed: true, ..p }, investor);
            assert forall|k: int| 0 <= k < self@.positions.len() implies #[trigger] self@.positions[k].investor
                == pre.positions[k].investor by {}
        }
        Ok(
            (
                payout,
                Some(EscrowEvent::InvestorPayoutClaimed { invoice_id: esc.invoice_id, investor, payout }),
            ),
        )
    }

    /// Admin cancels an open escrow (status open to cancelled); investors may
    /// then reclaim their principal with [`Self::refund`].
    pub fn cancel_funding(&mut self) -> (r: Result<(InvoiceEscrow, EscrowEvent), EscrowError>)
        requires
            old(self).wf(),
        ensures
            final(self).wf(),
            applied(r, old(self)@, final(self)@, old(self)@.cancel_funding()),
            r matches Ok((esc, ev)) ==> esc == final(self)@.esc() && ev == (
            EscrowEvent::FundingCancelled {
                invoice_id: esc.invoice_id,
                funded_amount: esc.funded_amount,
            }),
    {
        let esc = match self.escrow {
            Some(e) => e,
            None => return Err(EscrowError::EscrowNotInitialized),
        };
        if self.legal_hold {
            return Err(EscrowError::LegalHoldBlocksCancelFunding);
        }
        if esc.status != STATUS_OPEN {
            return Err(EscrowError::CancelFundingNotOpen);
        }
        let new_esc = InvoiceEscrow { status: STATUS_CANCELLED, ..esc };
        self.escrow = Some(new_esc);
        Ok(
            (
                new_esc,
                EscrowEvent::FundingCancelled {
                    invoice_id: new_esc.invoice_id,
                    funded_amount: new_esc.funded_amount,
                },
            ),
        )
    }

    /// Returns a cancelled escrow's principal to `investor`: the contribution
    /// is zeroed (so a second refund fails) and counted as distributed; the
    /// host then transfers the returned amount to the investor.
    pub fn refund(&mut self, investor: Address) -> (r: Result<(EscrowEvent, TokenTransfer), EscrowError>)
        requires
            old(self).wf(),
        ensures
            final(self).wf(),
            applied(r, old(self)@, final(self)@, old(self)@.refund(investor)),
            r matches Ok((ev, t)) ==> t == (TokenTransfer {
                to: investor,
                amount: old(self)@.contribution_of(investor) as i128,
            }) && ev == (EscrowEvent::InvestorRefunded {
                invoice_id: old(self)@.esc().invoice_id,
                investor,
                amount: t.amount,
            }),
    {
        let esc = match self.escrow {
            Some(e) => e,
            None => return Err(EscrowError::EscrowNotInitialized),
        };
        if esc.status != STATUS_CANCELLED {
            return Err(EscrowError::RefundNotCancelled);
        }
        let found = self.find_position(investor);
        proof {
            lemma_index_of(self.positions@, investor);
        }
        let i = match found {
            Some(i) => i,
            None => return Err(EscrowError::NoContributionToRefund),
        };
        let p = self.positions[i];
        if p.contribution == 0 {
            return Err(EscrowError::NoContributionToRefund);
        }
        let ghost pre = self@;
        proof {
            lemma_total_bounds(pre.positions, i as int);
            crate::model::lemma_total_nonneg(pre.positions);
        }
        let np = InvestorPosition { contribution: 0, refunded: true, ..p };
        self.positions[i] = np;
        self.distributed_principal = self.distributed_principal + p.contribution;
        proof {
            assert(self@.positions == pre.positions.update(i as int, np));
            lemma_total_update(pre.positions, i as int, np);
            lemma_index_of_update(pre.positions, i as int, np, investor);
            assert forall|k: int| 0 <= k < self@.positions.len() implies #[trigger] self@.positions[k].investor
                == pre.positions[k].investor by {}
        }
        Ok(
            (
                EscrowEvent::InvestorRefunded {
                    invoice_id: esc.invoice_id,
                    investor,
                    amount: p.contribution,
                },
                TokenTransfer { to: investor, amount: p.contribution },
            ),
        )
    }

    /// Treasury sweep of rounding residue from a terminal escrow, given the
    /// escrow's current funding-token `balance`. Returns the amount to move
    /// (at most `amount` and the balance) and the transfer to the treasury.
    /// The liability floor (`funded_amount - distributed_principal`) binds a
    /// cancelled escrow only: settled and withdrawn escrows keep no floor
    /// (see [`EscrowState::outstanding_liability`]).
    pub fn sweep_terminal_dust(&self, amount: i128, balance: i128) -> (r: Result<
        (i128, EscrowEvent, TokenTransfer),
        EscrowError,
    >)
        requires
            self.wf(),
        ensures
            match r {
                Ok((swept, ev, t)) => self@.sweep_terminal_dust(amount, balance) == Ok::<
                    i128,
                    EscrowError,
                >(swept) && t == (TokenTransfer { to: self@.treasury->0, amount: swept })
                    && ev == (EscrowEvent::DustSwept {
                    invoice_id: self@.esc().invoice_id,
                    treasury: self@.treasury->0,
                    amount: swept,
                }),
                Err(e) => self@.sweep_terminal_dust(amount, balance) == Err::<i128, EscrowError>(e),
            },
    {
        let esc = match self.escrow {
            Some(e) => e,
            None => return Err(EscrowError::EscrowNotInitialized),
        };
        if self.legal_hold {
            return Err(EscrowError::LegalHoldBlocksTreasuryDustSweep);
        }
        if amount <= 0 {
            return Err(EscrowError::SweepAmountNotPositive);
        }
        if amount > MAX_DUST_SWEEP_AMOUNT {
            return Err(EscrowError::SweepAmountExceedsMax);
        }
        if esc.status != STATUS_SETTLED && esc.status != STATUS_WITHDRAWN && esc.status
            != STATUS_CANCELLED {
            return Err(EscrowError::DustSweepNotTerminal);
        }
        if balance <= 0 {
            return Err(EscrowError::NoFundingTokenBalanceToSweep);
        }
        let effective = if amount < balance {
            amount
        } else {
            balance
        };
        if effective <= 0 {
            return Err(EscrowError::EffectiveSweepAmountZero);
        }
        let liability: i128 = if esc.status == STATUS_CANCELLED {
            esc.funded_amount - self.distributed_principal
        } else {
            0
        };
        if balance - effective < liability {
            return Err(EscrowError::SweepExceedsLiabilityFloor);
        }
        let treasury = self.treasury.unwrap();
        Ok(
            (
                effective,
                EscrowEvent::DustSwept { invoice_id: esc.invoice_id, treasury, amount: effective },
                TokenTransfer { to: treasury, amount: effective },
            ),
        )
    }
}

} // verus!
