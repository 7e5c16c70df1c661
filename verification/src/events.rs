//! What the ledger announces when a transaction is applied. Each event carries
//! the values of the records after the transaction.

use crate::address::Address;
use vstd::prelude::*;

verus! {

/// A vault was opened.
#[derive(Debug, Clone, Copy, PartialEq, Eq)]
pub struct VaultCreated {
    pub parent: Address,
    pub vault: Address,
    pub ephemeral_wallet: Address,
    pub max_deposit: u64,
    pub session_start: i64,
    pub session_expiry: i64,
}

/// A delegate was bound to a vault.
#[derive(Debug, Clone, Copy, PartialEq, Eq)]
pub struct DelegateApproved {
    pub vault: Address,
    pub delegate: Address,
    pub approved_at: i64,
}

/// The parent's lamports were deposited into a vault.
#[derive(Debug, Clone, Copy, PartialEq, Eq)]
pub struct AutoDeposit {
    pub vault: Address,
    pub amount: u64,
    pub total_deposited: u64,
}

/// The delegate spent from a vault.
#[derive(Debug, Clone, Copy, PartialEq, Eq)]
pub struct TradeExecuted {
    pub vault: Address,
    pub delegate: Address,
    pub fee_paid: u64,
    pub total_spent: u64,
}

/// The parent ended the delegate's right to spend.
#[derive(Debug, Clone, Copy, PartialEq, Eq)]
pub struct AccessRevoked {
    pub vault: Address,
    pub parent: Address,
    pub revoked_at: i64,
}

/// An expired vault was destroyed and its cleaner rewarded.
#[derive(Debug, Clone, Copy, PartialEq, Eq)]
pub struct VaultCleaned {
    pub vault: Address,
    pub parent: Address,
    pub cleaner: Address,
    pub reward: u64,
}

} // verus!
