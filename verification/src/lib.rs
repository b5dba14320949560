//! A milestone-based escrow between a client and a freelancer, with an
//! optional arbiter, timeout-driven disputes and freelancer reputation.
//!
//! Every entry point is a function from the values the contract reads out of
//! its storage (and the ledger time) to the values it writes back, or to the
//! rejection that aborts the call.

pub mod types;
pub mod ledger;
pub mod schedule;
pub mod escrow;
pub mod greeting;
pub mod authorization;
pub mod laws;
pub mod acceptance;

