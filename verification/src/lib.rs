//! Verified model of the StarFund invoice escrow contract.
//!
//! The contract's storage is modelled by [`state::StarfundEscrow`]; every entrypoint is a
//! transition on that model with a contract that states its typed errors, the order in which
//! its guards fire, and the storage it writes. Host services (storage I/O, authorization,
//! token transfers, events) stay at the edge: callers hand the ledger time, the set of
//! authorizing addresses, and any token balance the entrypoint needs, and receive back the
//! transfers to perform.

pub mod types;
pub mod errors;
pub mod consts;
pub mod book;
pub mod rules;
pub mod state;
pub mod funding;
pub mod settlement;
pub mod lifecycle;
pub mod controls;
pub mod governance;
pub mod params;
pub mod attest;
pub mod allowlist;
pub mod callbacks;
pub mod views;
pub mod mock_token;
pub mod laws;
pub mod transfer_checks;
