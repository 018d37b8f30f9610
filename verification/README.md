# vowena

Recurring payments on a token ledger, with machine-checked contracts.

Merchants create projects, and plans inside them (name, token, amount, period, trial, grace period, maximum
number of periods, price ceiling); subscribers sign up and grant the contract an
allowance; anyone may trigger a charge once a period is due. Subscriptions move
through trial periods, payment failures, a grace period, pause, cancellation,
expiry, reactivation and migration between plans.

## Layout

- `src/types.rs`, `src/errors.rs` — plans, subscriptions, projects, errors.
- `src/storage.rs` — the ledger state (`VowenaContract`), its mathematical
  view (`LedgerView`) and the per-key storage operations.
- `src/contract.rs` — the entry points, each with its exact specification.
- `src/billing.rs` — charge processing: the stage of a charge attempt, trial
  accounting, grace period and pause transitions, allowance terms.
- `src/migration.rs` — requesting, accepting and rejecting plan migrations.
- `src/events.rs` — events and the effects (token calls, publications) that
  entry points record for the host to carry out, in order.
- `src/guards.rs` — executable tests of the inputs on which an entry point
  would overflow or miss a record.
- `src/laws.rs` — the ledger's consistency invariant (records under fresh
  nonzero ids, references that resolve, plan lists holding exactly the active
  subscriptions once each, merchant and subscriber lists in creation order),
  proved preserved by every entry point from a fresh ledger on, and the laws
  about charging, reactivation and migration.
- `app/lib.rs` — the Soroban contract around the library: storage, auth,
  ledger clock, token client calls and event publication.
- `tests/` — scenario tests against a simulated token.

A charge is settled in two steps when money may move: `charge` decides, and
where the subscriber's balance and allowance matter it returns a
`ChargeStep::NeedsFunds`; the host reads both from the token and calls
`billing::complete_charge`.
