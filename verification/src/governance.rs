use vstd::prelude::*;
use crate::error::EscrowError;
use crate::escrow::{applied, LiquifactEscrow};
use crate::model::{
    migration_error, EscrowState, MAX_ATTESTATION_APPEND_ENTRIES, MAX_INVESTOR_ALLOWLIST_BATCH,
    SCHEMA_VERSION,
};
use crate::setvec::{lemma_push_no_duplicates, lemma_push_to_set, lemma_remove_to_set};
use crate::types::{
    Address, Digest, EscrowEvent, InvoiceEscrow, SmeCollateralCommitment, Symbol, STATUS_FUNDED,
    STATUS_OPEN,
};

verus! {

/// The error a schema migration reports; see [`migration_error`].
pub fn migration_check(stored: u32, from_version: u32) -> (r: EscrowError)
    ensures
        r == migration_error(stored, from_version),
{
    if from_version >= SCHEMA_VERSION {
        EscrowError::AlreadyCurrentSchemaVersion
    } else if stored != from_version {
        EscrowError::MigrationVersionMismatch
    } else {
        EscrowError::NoMigrationPath
    }
}

impl LiquifactEscrow {
    /// Admin sets (`true`) or clears (`false`) the compliance hold. With a
    /// clear delay configured, clearing needs a prior
    /// [`Self::request_clear_legal_hold`] whose delay has elapsed.
    pub fn set_legal_hold(&mut self, active: bool, now: u64) -> (r: Result<EscrowEvent, EscrowError>)
        requires
            old(self).wf(),
        ensures
            final(self).wf(),
            applied(r, old(self)@, final(self)@, old(self)@.set_legal_hold(active, now)),
            r matches Ok(ev) ==> ev == (EscrowEvent::LegalHoldChanged {
                invoice_id: final(self)@.esc().invoice_id,
                active: if active {
                    1u32
                } else {
                    0u32
                },
            }),
    {
        let esc = match self.escrow {
            Some(e) => e,
            None => return Err(EscrowError::EscrowNotInitialized),
        };
        if active {
            self.legal_hold = true;
            return Ok(EscrowEvent::LegalHoldChanged { invoice_id: esc.invoice_id, active: 1 });
        }
        if self.legal_hold_clear_delay > 0 {
            match self.legal_hold_clearable_at {
                None => return Err(EscrowError::LegalHoldClearRequestMissing),
                Some(t) => {
                    if now < t {
                        return Err(EscrowError::LegalHoldClearNotReady);
                    }
                },
            }
        }
        self.legal_hold = false;
        self.legal_hold_clearable_at = None;
        Ok(EscrowEvent::LegalHoldChanged { invoice_id: esc.invoice_id, active: 0 })
    }

    /// Admin clears the compliance hold (same rules as `set_legal_hold(false)`).
    pub fn clear_legal_hold(&mut self, now: u64) -> (r: Result<EscrowEvent, EscrowError>)
        requires
            old(self).wf(),
        ensures
            final(self).wf(),
            applied(r, old(self)@, final(self)@, old(self)@.set_legal_hold(false, now)),
            r matches Ok(ev) ==> ev == (EscrowEvent::LegalHoldChanged {
                invoice_id: final(self)@.esc().invoice_id,
                active: 0u32,
            }),
    {
        self.set_legal_hold(false, now)
    }

    /// Admin starts the delayed clear: the hold may be cleared from
    /// `now + legal_hold_clear_delay` on.
    pub fn request_clear_legal_hold(&mut self, now: u64) -> (r: Result<(u64, EscrowEvent), EscrowError>)
        requires
            old(self).wf(),
        ensures
            final(self).wf(),
            applied(r, old(self)@, final(self)@, old(self)@.request_clear_legal_hold(now)),
            r matches Ok((t, ev)) ==> final(self)@.legal_hold_clearable_at == Some(t) && ev == (
            EscrowEvent::LegalHoldClearRequested {
                invoice_id: final(self)@.esc().invoice_id,
                clearable_at: t,
            }),
    {
        let esc = match self.escrow {
            Some(e) => e,
            None => return Err(EscrowError::EscrowNotInitialized),
        };
        let t = match now.checked_add(self.legal_hold_clear_delay) {
            Some(t) => t,
            None => return Err(EscrowError::LegalHoldClearDelayOverflow),
        };
        self.legal_hold_clearable_at = Some(t);
        Ok((t, EscrowEvent::LegalHoldClearRequested { invoice_id: esc.invoice_id, clearable_at: t }))
    }

    /// Admin moves the maturity timestamp while the escrow is open.
    pub fn update_maturity(&mut self, new_maturity: u64) -> (r: Result<
        (InvoiceEscrow, EscrowEvent),
        EscrowError,
    >)
        requires
            old(self).wf(),
        ensures
            final(self).wf(),
            applied(r, old(self)@, final(self)@, old(self)@.update_maturity(new_maturity)),
            r matches Ok((esc, ev)) ==> esc == final(self)@.esc() && ev == (
            EscrowEvent::MaturityUpdated {
                invoice_id: esc.invoice_id,
                old_maturity: old(self)@.esc().maturity,
                new_maturity,
            }),
    {
        let esc = match self.escrow {
            Some(e) => e,
            None => return Err(EscrowError::EscrowNotInitialized),
        };
        if esc.status != STATUS_OPEN {
            return Err(EscrowError::MaturityUpdateNotOpen);
        }
        let new_esc = InvoiceEscrow { maturity: new_maturity, ..esc };
        self.escrow = Some(new_esc);
        Ok(
            (
                new_esc,
                EscrowEvent::MaturityUpdated {
                    invoice_id: esc.invoice_id,
                    old_maturity: esc.maturity,
                    new_maturity,
                },
            ),
        )
    }

    /// Admin changes the funding target while open; it must stay positive
    /// and cover the principal already raised.
    pub fn update_funding_target(&mut self, new_target: i128) -> (r: Result<
        (InvoiceEscrow, EscrowEvent),
        EscrowError,
    >)
        requires
            old(self).wf(),
        ensures
            final(self).wf(),
            applied(r, old(self)@, final(self)@, old(self)@.update_funding_target(new_target)),
            r matches Ok((esc, ev)) ==> esc == final(self)@.esc() && ev == (
            EscrowEvent::FundingTargetUpdated {
                invoice_id: esc.invoice_id,
                old_target: old(self)@.esc().funding_target,
                new_target,
            }),
    {
        let esc = match self.escrow {
            Some(e) => e,
            None => return Err(EscrowError::EscrowNotInitialized),
        };
        if new_target <= 0 {
            return Err(EscrowError::TargetNotPositive);
        }
        if esc.status != STATUS_OPEN {
            return Err(EscrowError::TargetUpdateNotOpen);
        }
        if new_target < esc.funded_amount {
            return Err(EscrowError::TargetBelowFundedAmount);
        }
        let new_esc = InvoiceEscrow { funding_target: new_target, ..esc };
        self.escrow = Some(new_esc);
        Ok(
            (
                new_esc,
                EscrowEvent::FundingTargetUpdated {
                    invoice_id: esc.invoice_id,
                    old_target: esc.funding_target,
                    new_target,
                },
            ),
        )
    }

    /// Admin tightens the distinct-investor cap while open: strictly lower
    /// than the current cap, never below the investors already enrolled.
    pub fn lower_max_unique_investors(&mut self, new_cap: u32) -> (r: Result<
        (u32, EscrowEvent),
        EscrowError,
    >)
        requires
            old(self).wf(),
        ensures
            final(self).wf(),
            applied(r, old(self)@, final(self)@, old(self)@.lower_max_unique_investors(new_cap)),
            r matches Ok((c, ev)) ==> c == new_cap && ev == (
            EscrowEvent::MaxUniqueInvestorsCapLowered {
                invoice_id: final(self)@.esc().invoice_id,
                old_cap: old(self)@.max_unique_investors->0,
                new_cap,
            }),
    {
        let esc = match self.escrow {
            Some(e) => e,
            None => return Err(EscrowError::EscrowNotInitialized),
        };
        if esc.status != STATUS_OPEN {
            return Err(EscrowError::CapLowerNotOpen);
        }
        let old_cap = match self.max_unique_investors {
            Some(c) => c,
            None => return Err(EscrowError::NoInvestorCapConfigured),
        };
        if new_cap >= old_cap {
            return Err(EscrowError::NewCapNotLower);
        }
        if (new_cap as usize) < self.positions.len() {
            return Err(EscrowError::NewCapBelowCurrentFunderCount);
        }
        self.max_unique_investors = Some(new_cap);
        Ok(
            (
                new_cap,
                EscrowEvent::MaxUniqueInvestorsCapLowered {
                    invoice_id: esc.invoice_id,
                    old_cap,
                    new_cap,
                },
            ),
        )
    }

    /// Current admin nominates a successor; the admin does not change until
    /// the successor accepts. A later nomination replaces an earlier one.
    pub fn propose_admin(&mut self, new_admin: Address) -> (r: Result<(Address, EscrowEvent), EscrowError>)
        requires
            old(self).wf(),
        ensures
            final(self).wf(),
            applied(r, old(self)@, final(self)@, old(self)@.propose_admin(new_admin)),
            r matches Ok((a, ev)) ==> a == new_admin && ev == (EscrowEvent::AdminProposed {
                invoice_id: final(self)@.esc().invoice_id,
                current_admin: final(self)@.esc().admin,
                pending_admin: new_admin,
            }),
    {
        let esc = match self.escrow {
            Some(e) => e,
            None => return Err(EscrowError::EscrowNotInitialized),
        };
        if new_admin == esc.admin {
            return Err(EscrowError::NewAdminSameAsCurrent);
        }
        self.pending_admin = Some(new_admin);
        Ok(
            (
                new_admin,
                EscrowEvent::AdminProposed {
                    invoice_id: esc.invoice_id,
                    current_admin: esc.admin,
                    pending_admin: new_admin,
                },
            ),
        )
    }

    /// Deprecated form of [`Self::propose_admin`]: only nominates, and
    /// returns the (unchanged) escrow.
    pub fn transfer_admin(&mut self, new_admin: Address) -> (r: Result<
        (InvoiceEscrow, EscrowEvent),
        EscrowError,
    >)
        requires
            old(self).wf(),
        ensures
            final(self).wf(),
            applied(r, old(self)@, final(self)@, old(self)@.propose_admin(new_admin)),
            r matches Ok((esc, ev)) ==> esc == old(self)@.esc() && ev == (EscrowEvent::AdminProposed {
                invoice_id: esc.invoice_id,
                current_admin: esc.admin,
                pending_admin: new_admin,
            }),
    {
        match self.propose_admin(new_admin) {
            Ok((_, ev)) => Ok((self.escrow.unwrap(), ev)),
            Err(e) => Err(e),
        }
    }

    /// The nominated successor takes over as admin.
    pub fn accept_admin(&mut self) -> (r: Result<(InvoiceEscrow, EscrowEvent), EscrowError>)
        requires
            old(self).wf(),
        ensures
            final(self).wf(),
            applied(r, old(self)@, final(self)@, old(self)@.accept_admin()),
            r matches Ok((esc, ev)) ==> esc == final(self)@.esc() && ev == (EscrowEvent::AdminAccepted {
                invoice_id: esc.invoice_id,
                previous_admin: old(self)@.esc().admin,
                new_admin: esc.admin,
            }),
    {
        let esc = match self.escrow {
            Some(e) => e,
            None => return Err(EscrowError::EscrowNotInitialized),
        };
        let pending = match self.pending_admin {
            Some(a) => a,
            None => return Err(EscrowError::NoPendingAdmin),
        };
        let new_esc = InvoiceEscrow { admin: pending, ..esc };
        self.escrow = Some(new_esc);
        self.pending_admin = None;
        Ok(
            (
                new_esc,
                EscrowEvent::AdminAccepted {
                    invoice_id: esc.invoice_id,
                    previous_admin: esc.admin,
                    new_admin: pending,
                },
            ),
        )
    }

    /// Current admin retracts a pending nomination; returns the retracted
    /// address.
    pub fn cancel_pending_admin(&mut self) -> (r: Result<(Address, EscrowEvent), EscrowError>)
        requires
            old(self).wf(),
        ensures
            final(self).wf(),
            applied(r, old(self)@, final(self)@, old(self)@.cancel_pending_admin()),
            r matches Ok((a, ev)) ==> old(self)@.pending_admin == Some(a) && ev == (
            EscrowEvent::AdminProposalCancelled {
                invoice_id: final(self)@.esc().invoice_id,
                cancelled_pending: a,
            }),
    {
        let esc = match self.escrow {
            Some(e) => e,
            None => return Err(EscrowError::EscrowNotInitialized),
        };
        let pending = match self.pending_admin {
            Some(a) => a,
            None => return Err(EscrowError::NoPendingAdmin),
        };
        self.pending_admin = None;
        Ok(
            (
                pending,
                EscrowEvent::AdminProposalCancelled {
                    invoice_id: esc.invoice_id,
                    cancelled_pending: pending,
                },
            ),
        )
    }

    /// Moves the beneficiary (SME) address before settlement; needs both the
    /// admin's and the current SME's authorisation.
    pub fn rotate_beneficiary(&mut self, new_sme: Address) -> (r: Result<
        (InvoiceEscrow, EscrowEvent),
        EscrowError,
    >)
        requires
            old(self).wf(),
        ensures
            final(self).wf(),
            applied(r, old(self)@, final(self)@, old(self)@.rotate_beneficiary(new_sme)),
            r matches Ok((esc, ev)) ==> esc == final(self)@.esc() && ev == (
            EscrowEvent::BeneficiaryRotated {
                invoice_id: esc.invoice_id,
                old_sme: old(self)@.esc().sme_address,
                new_sme,
            }),
    {
        let esc = match self.escrow {
            Some(e) => e,
            None => return Err(EscrowError::EscrowNotInitialized),
        };
        if self.legal_hold {
            return Err(EscrowError::LegalHoldBlocksBeneficiaryRotation);
        }
        if esc.status != STATUS_OPEN && esc.status != STATUS_FUNDED {
            return Err(EscrowError::RotationNotOpen);
        }
        if new_sme == esc.sme_address {
            return Err(EscrowError::NewSmeSameAsCurrent);
        }
        let new_esc = InvoiceEscrow { sme_address: new_sme, ..esc };
        self.escrow = Some(new_esc);
        Ok(
            (
                new_esc,
                EscrowEvent::BeneficiaryRotated {
                    invoice_id: esc.invoice_id,
                    old_sme: esc.sme_address,
                    new_sme,
                },
            ),
        )
    }

    /// Admin turns the investor allowlist gate on or off.
    pub fn set_allowlist_active(&mut self, active: bool) -> (r: Result<EscrowEvent, EscrowError>)
        requires
            old(self).wf(),
        ensures
            final(self).wf(),
            applied(r, old(self)@, final(self)@, old(self)@.set_allowlist_active(active)),
            r matches Ok(ev) ==> ev == (EscrowEvent::AllowlistActiveChanged {
                invoice_id: final(self)@.esc().invoice_id,
                active: if active {
                    1u32
                } else {
                    0u32
                },
            }),
    {
        let esc = match self.escrow {
            Some(e) => e,
            None => return Err(EscrowError::EscrowNotInitialized),
        };
        self.allowlist_active = active;
        Ok(
            EscrowEvent::AllowlistActiveChanged {
                invoice_id: esc.invoice_id,
                active: if active {
                    1
                } else {
                    0
                },
            },
        )
    }

    /// Position of `investor` in the allowlist vector, if present.
    fn allowlist_index(&self, investor: Address) -> (r: Option<usize>)
        ensures
            match r {
                Some(k) => k < self.allowlist@.len() && self.allowlist@[k as int] == investor,
                None => !self.allowlist@.contains(investor),
            },
    {
        let mut i: usize = 0;
        while i < self.allowlist.len()
            invariant
                i <= self.allowlist@.len(),
                forall|j: int| 0 <= j < i ==> self.allowlist@[j] != investor,
            decreases self.allowlist@.len() - i,
        {
            if self.allowlist[i] == investor {
                return Some(i);
            }
            i = i + 1;
        }
        None
    }

    /// Whether the attestation-log entry at `index` has been revoked.
    pub fn is_attestation_revoked(&self, index: u32) -> (r: bool)
        ensures
            r == self@.revoked_attestations.contains(index),
    {
        let mut i: usize = 0;
        while i < self.revoked_attestations.len()
            invariant
                i <= self.revoked_attestations@.len(),
                forall|j: int| 0 <= j < i ==> self.revoked_attestations@[j] != index,
            decreases self.revoked_attestations@.len() - i,
        {
            if self.revoked_attestations[i] == index {
                assert(self.revoked_attestations@.contains(index));
                return true;
            }
            i = i + 1;
        }
        false
    }

    /// Adds `investor` to, or removes it from, the allowlist set.
    fn apply_allowlisted(&mut self, investor: Address, allowed: bool)
        requires
            old(self).wf(),
            old(self)@.initialized(),
        ensures
            final(self).wf(),
            final(self)@ == (EscrowState {
                allowlist: old(self)@.allowlist_with(investor, allowed),
                ..old(self)@
            }),
    {
        let found = self.allowlist_index(investor);
        let ghost pre = self.allowlist@;
        match found {
            Some(k) => {
                assert(pre[k as int] == investor);
                if !allowed {
                    self.allowlist.remove(k);
                    proof {
                        lemma_remove_to_set(pre, k as int);
                    }
                } else {
                    assert(pre.contains(investor));
                    assert(pre.to_set().insert(investor) =~= pre.to_set());
                }
            },
            None => {
                assert(!pre.contains(investor));
                if allowed {
                    self.allowlist.push(investor);
                    proof {
                        lemma_push_to_set(pre, investor);
                        lemma_push_no_duplicates(pre, investor);
                    }
                } else {
                    assert(pre.to_set().remove(investor) =~= pre.to_set());
                }
            },
        }
    }

    /// Admin allows or disallows one investor address.
    pub fn set_investor_allowlisted(&mut self, investor: Address, allowed: bool) -> (r: Result<
        EscrowEvent,
        EscrowError,
    >)
        requires
            old(self).wf(),
        ensures
            final(self).wf(),
            applied(
                r,
                old(self)@,
                final(self)@,
                old(self)@.set_investor_allowlisted(investor, allowed),
            ),
            r matches Ok(ev) ==> ev == (EscrowEvent::InvestorAllowlistChanged {
                invoice_id: final(self)@.esc().invoice_id,
                investor,
                allowed: if allowed {
                    1u32
                } else {
                    0u32
                },
            }),
    {
        let esc = match self.escrow {
            Some(e) => e,
            None => return Err(EscrowError::EscrowNotInitialized),
        };
        self.apply_allowlisted(investor, allowed);
        Ok(
            EscrowEvent::InvestorAllowlistChanged {
                invoice_id: esc.invoice_id,
                investor,
                allowed: if allowed {
                    1
                } else {
                    0
                },
            },
        )
    }

    /// Admin allows or disallows a batch of investor addresses (one event
    /// per address).
    pub fn set_investors_allowlisted(&mut self, investors: &Vec<Address>, allowed: bool) -> (r:
        Result<Vec<EscrowEvent>, EscrowError>)
        requires
            old(self).wf(),
        ensures
            final(self).wf(),
            applied(
                r,
                old(self)@,
                final(self)@,
                old(self)@.set_investors_allowlisted(investors@, allowed),
            ),
            r matches Ok(evs) ==> evs@.len() == investors@.len() && forall|i: int|
                0 <= i < investors@.len() ==> #[trigger] evs@[i] == (
                EscrowEvent::InvestorAllowlistChanged {
                    invoice_id: old(self)@.esc().invoice_id,
                    investor: investors@[i],
                    allowed: if allowed {
                        1u32
                    } else {
                        0u32
                    },
                }),
    {
        let esc = match self.escrow {
            Some(e) => e,
            None => return Err(EscrowError::EscrowNotInitialized),
        };
        if investors.len() == 0 {
            return Err(EscrowError::InvestorBatchEmpty);
        }
        if investors.len() > MAX_INVESTOR_ALLOWLIST_BATCH {
            return Err(EscrowError::InvestorBatchTooLarge);
        }
        let ghost pre = self@;
        let mut events: Vec<EscrowEvent> = Vec::new();
        let mut k: usize = 0;
        assert(investors@.take(0).to_set() =~= Set::<Address>::empty());
        assert(pre.allowlist.union(Set::<Address>::empty()) =~= pre.allowlist);
        assert(pre.allowlist.difference(Set::<Address>::empty()) =~= pre.allowlist);
        while k < investors.len()
            invariant
                k <= investors@.len(),
                self.wf(),
                pre.initialized(),
                self@ == (EscrowState {
                    allowlist: if allowed {
                        pre.allowlist.union(investors@.take(k as int).to_set())
                    } else {
                        pre.allowlist.difference(investors@.take(k as int).to_set())
                    },
                    ..pre
                }),
                events@.len() == k,
                esc == pre.esc(),
                forall|i: int|
                    0 <= i < k ==> #[trigger] events@[i] == (EscrowEvent::InvestorAllowlistChanged {
                        invoice_id: esc.invoice_id,
                        investor: investors@[i],
                        allowed: if allowed {
                            1u32
                        } else {
                            0u32
                        },
                    }),
            decreases investors@.len() - k,
        {
            let investor = investors[k];
            let ghost before = self@.allowlist;
            self.apply_allowlisted(investor, allowed);
            proof {
                assert(investors@.take(k + 1) =~= investors@.take(k as int).push(investor));
                lemma_push_to_set(investors@.take(k as int), investor);
                if allowed {
                    assert(before.insert(investor) =~= pre.allowlist.union(
                        investors@.take(k + 1).to_set(),
                    ));
                } else {
                    assert(before.remove(investor) =~= pre.allowlist.difference(
                        investors@.take(k + 1).to_set(),
                    ));
                }
            }
            events.push(
                EscrowEvent::InvestorAllowlistChanged {
                    invoice_id: esc.invoice_id,
                    investor,
                    allowed: if allowed {
                        1
                    } else {
                        0
                    },
                },
            );
            k = k + 1;
        }
        assert(investors@.take(investors@.len() as int) =~= investors@);
        Ok(events)
    }

    /// Admin binds the single primary attestation digest (write-once).
    pub fn bind_primary_attestation_hash(&mut self, digest: Digest) -> (r: Result<
        EscrowEvent,
        EscrowError,
    >)
        requires
            old(self).wf(),
        ensures
            final(self).wf(),
            applied(r, old(self)@, final(self)@, old(self)@.bind_primary_attestation_hash(digest)),
            r matches Ok(ev) ==> ev == (EscrowEvent::PrimaryAttestationBound {
                invoice_id: final(self)@.esc().invoice_id,
                digest,
            }),
    {
        let esc = match self.escrow {
            Some(e) => e,
            None => return Err(EscrowError::EscrowNotInitialized),
        };
        if self.primary_attestation.is_some() {
            return Err(EscrowError::PrimaryAttestationAlreadyBound);
        }
        self.primary_attestation = Some(digest);
        Ok(EscrowEvent::PrimaryAttestationBound { invoice_id: esc.invoice_id, digest })
    }

    /// Admin appends a digest to the bounded attestation log.
    pub fn append_attestation_digest(&mut self, digest: Digest) -> (r: Result<
        EscrowEvent,
        EscrowError,
    >)
        requires
            old(self).wf(),
        ensures
            final(self).wf(),
            applied(r, old(self)@, final(self)@, old(self)@.append_attestation_digest(digest)),
            r matches Ok(ev) ==> ev == (EscrowEvent::AttestationDigestAppended {
                invoice_id: final(self)@.esc().invoice_id,
                index: old(self)@.attestation_log.len() as u32,
                digest,
            }),
    {
        let esc = match self.escrow {
            Some(e) => e,
            None => return Err(EscrowError::EscrowNotInitialized),
        };
        let index = self.attestation_log.len();
        if index >= MAX_ATTESTATION_APPEND_ENTRIES {
            return Err(EscrowError::AttestationAppendLogCapacityReached);
        }
        self.attestation_log.push(digest);
        Ok(
            EscrowEvent::AttestationDigestAppended {
                invoice_id: esc.invoice_id,
                index: index as u32,
                digest,
            },
        )
    }

    /// Admin marks the attestation-log entry at `index` as revoked.
    pub fn revoke_attestation_digest(&mut self, index: u32) -> (r: Result<EscrowEvent, EscrowError>)
        requires
            old(self).wf(),
        ensures
            final(self).wf(),
            applied(r, old(self)@, final(self)@, old(self)@.revoke_attestation_digest(index)),
            r matches Ok(ev) ==> ev == (EscrowEvent::AttestationDigestRevoked {
                invoice_id: final(self)@.esc().invoice_id,
                index,
            }),
    {
        let esc = match self.escrow {
            Some(e) => e,
            None => return Err(EscrowError::EscrowNotInitialized),
        };
        let ghost pre = self.revoked_attestations@;
        if self.is_attestation_revoked(index) {
            assert(pre.to_set().insert(index) =~= pre.to_set());
        } else {
            assert(!pre.contains(index));
            self.revoked_attestations.push(index);
            proof {
                lemma_push_to_set(pre, index);
                lemma_push_no_duplicates(pre, index);
            }
        }
        Ok(EscrowEvent::AttestationDigestRevoked { invoice_id: esc.invoice_id, index })
    }

    /// SME records (or replaces) its collateral metadata, stamped with the
    /// ledger time; moves no tokens and gates nothing.
    pub fn record_sme_collateral_commitment(&mut self, asset: Symbol, amount: i128, now: u64) -> (r:
        Result<(SmeCollateralCommitment, EscrowEvent), EscrowError>)
        requires
            old(self).wf(),
        ensures
            final(self).wf(),
            applied(
                r,
                old(self)@,
                final(self)@,
                old(self)@.record_sme_collateral_commitment(asset, amount, now),
            ),
            r matches Ok((c, ev)) ==> final(self)@.collateral == Some(c) && ev == (
            EscrowEvent::CollateralRecorded {
                invoice_id: final(self)@.esc().invoice_id,
                amount,
                prior_amount: match old(self)@.collateral {
                    Some(p) => p.amount,
                    None => 0,
                },
            }),
    {
        let esc = match self.escrow {
            Some(e) => e,
            None => return Err(EscrowError::EscrowNotInitialized),
        };
        if amount <= 0 {
            return Err(EscrowError::CollateralAmountNotPositive);
        }
        if asset.is_empty() {
            return Err(EscrowError::CollateralAssetEmpty);
        }
        let prior_amount = match self.collateral {
            Some(c) => {
                if now < c.recorded_at {
                    return Err(EscrowError::CollateralTimestampBackwards);
                }
                c.amount
            },
            None => 0,
        };
        let c = SmeCollateralCommitment { asset, amount, recorded_at: now };
        self.collateral = Some(c);
        Ok((c, EscrowEvent::CollateralRecorded { invoice_id: esc.invoice_id, amount, prior_amount }))
    }

    /// Schema migration gate. No migration path exists from any earlier
    /// schema, so every call fails with a typed error and changes nothing.
    pub fn migrate(&self, from_version: u32) -> (r: Result<u32, EscrowError>)
        ensures
            r == Err::<u32, EscrowError>(migration_error(self.version, from_version)),
    {
        Err(migration_check(self.version, from_version))
    }
}

} // verus!
