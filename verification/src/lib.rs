//! Core state-transition logic of two small on-chain components: a
//! fungible-token ledger and an authority-gated counter.
//!
//! The host runtime (account storage, signature checks, dispatch, event
//! delivery, commit/rollback) is out of scope; every operation here is a
//! plain function from a caller identity and parameters to a new state and
//! a typed result.

pub mod account;
pub mod counter;
pub mod entries;
pub mod token;
