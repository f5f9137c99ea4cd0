# liquifact_escrow

A verified invoice-financing escrow. Investors fund an SME's invoice up to a
target; once funded, the SME either settles at maturity (investors then claim
principal plus yield, pro rata) or withdraws the liquidity; an open escrow can
be cancelled and refunded. An admin governs caps, maturity, the allowlist, a
compliance legal hold, attestations and the admin handover.

Every transition is proved in Verus against an abstract model of the escrow.

## Layout

- `src/` — the verified library
  - `model.rs`: the abstract state (`EscrowState`), its invariant and one
    spec function per operation, in the order the checks apply
  - `escrow.rs`: the executable state (`LiquifactEscrow`), `init` and the
    funding entrypoints
  - `lifecycle.rs`: early close, settlement, withdrawal, claims,
    cancellation, refunds and the dust sweep
  - `governance.rs`: legal hold, admin handover, caps, maturity, allowlist,
    attestations, collateral metadata, schema migration
  - `queries.rs`: read-only views, including the deposit preview
  - `payout.rs`: pro-rata payout arithmetic and its conservation lemmas
  - `rules.rs`: invoice-id and yield-tier validation, tier selection
  - `token.rs`: balance checks around funding-token transfers
  - `address.rs`, `types.rs`, `error.rs`: data types and error codes
  - `invariants.rs`, `setvec.rs`: supporting lemmas
  - `laws.rs`: properties that span operations (status only moves forward,
    the close snapshot is written once, the legal hold blocks every risk
    operation, principal is conserved, payouts never exceed the pool, ...)
- `tests/` — executable tests of the library
- `app/` — the Soroban contract around the library: authorization, ledger
  time, storage, events and token transfers

## Dust sweep floor

`sweep_terminal_dust` keeps `funded_amount - distributed_principal` in the
contract only for a cancelled escrow, where that principal is owed back as
refunds. A settled or withdrawn escrow keeps no floor: once the liquidity has
been withdrawn, or settlement has closed the books, the balance left is residue
and must be sweepable (a settled escrow holding only 500 units of residue
sweeps all 500).
