# starfund_escrow

A verified invoice-escrow state machine for StarFund, written in Verus.

- `src/` is the library. `state::StarfundEscrow` models the escrow's storage, and each
  entrypoint is a method on it. Every method has a contract stated over the spec view
  `Store`: which typed error comes, on which inputs, and in which order the guards fire,
  and otherwise what storage becomes and what is returned. Cross-entrypoint properties
  (settle once, claim once, undoing a deposit, admin handover, pause and legal-hold
  independence, payouts within the pool, ...) are public proof functions, mostly in
  `laws.rs`, with the rest beside the functions they are about.
- `tests/` runs the library on concrete scenarios.
- `app/` is the Soroban contract around the library. It loads the model from contract
  storage, has the host enforce the authorizations an entrypoint names, calls the library
  with the ledger time and token balances, then writes storage back, moves tokens and
  publishes events.
