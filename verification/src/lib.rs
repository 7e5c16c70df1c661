//! Time-boxed, spending-capped delegation of custody from a long-lived parent
//! identity to a short-lived ephemeral identity.
//!
//! The crate holds the rules of the vault ledger, of the delegation record, of
//! the off-ledger session mirror and of the custody codec that protects the
//! ephemeral key at rest. Every function carries a contract that Verus proves.

pub mod accounts;
pub mod address;
pub mod api;
pub mod auto_deposit;
pub mod config;
pub mod custody;
pub mod delegation_manager;
pub mod encoding;
pub mod events;
pub mod invariants;
pub mod ledger;
pub mod session_manager;
pub mod vault;
pub mod vault_monitor;
