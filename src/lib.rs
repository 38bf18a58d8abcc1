//! A fungible-token ledger: balances, allowances, supply accounting and an
//! admin-gated governance layer, stated and proved as a state machine over
//! plain values.

pub mod admin;
pub mod allowances;
pub mod balances;
pub mod contract;
pub mod error;
pub mod expiration;
pub mod laws;
pub mod ledger;
pub mod tax;
pub mod token;
