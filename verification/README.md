# escrow

A milestone-based escrow contract between a client and a freelancer, with an
optional arbiter, deadline-driven disputes and freelancer reputation, verified
with Verus.

- `src/` is the verified library. Each contract entry point is a function of
  `escrow::Escrow` from what the contract reads (the stored contract, stored
  neighbouring schedules, counters, the ledger time) to what it writes back, or
  to the `Rejection` that aborts the call.
  - `types.rs`: the contract's data, addresses held as strkey bytes.
  - `ledger.rs`: the books of a contract and the invariant `contract_wf`.
  - `schedule.rs`: schedule validation and stamping.
  - `escrow.rs`: the entry points and their specifications.
  - `laws.rs`: properties that span calls.
  - `authorization.rs`: which party must authorize each entry point.
  - `greeting.rs`: `hello`, which carries a Soroban `Symbol` through.
- Soroban's host collections cannot hold the library's own types (their items
  need the SDK's `contracttype` derive, which verified code cannot carry), so
  the library holds milestones and inputs in std `Vec`s, strings as bytes, and
  addresses as their strkey bytes; `app/` converts.
- `app/` is the Soroban contract: host types, storage, ledger time and
  authorization, calling the library for every decision.
- `tests/` runs the library on concrete values.
