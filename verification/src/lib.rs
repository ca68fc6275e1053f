//! PulsarTrack settlement suite, modelled as verified state machines.
//!
//! Each module holds one contract of the suite: a state struct owned by the
//! host, mutated only through operations that validate their inputs, fail
//! closed, and carry contracts describing exactly when they succeed and what
//! they change. Host concerns stay outside the library: the embedder
//! authenticates callers (principals appear here as plain `u64` identifiers),
//! supplies the ledger clock as an argument, performs the token transfers
//! that successful operations report, and persists the state between calls.
//!
//! The escrow vault is the heart of the suite: time-locked funds released to
//! a beneficiary only once a temporal lock, an approval quorum, and an
//! oracle-reported performance score are all satisfied, with partial release
//! and refund-on-expiry. The other modules are simpler record stores.

pub mod ad_registry;
pub mod auction_engine;
pub mod escrow_vault;
pub mod governance_dao;
pub mod payout_automation;
