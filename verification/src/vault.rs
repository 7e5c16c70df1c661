//! The records that the ledger keeps for a delegation, and the ways in which
//! a transaction against them fails.

use crate::address::Address;
use vstd::prelude::*;

verus! {

/// Why the vault program rejects a transaction. A rejected transaction leaves
/// every record as it was.
#[derive(Debug, Clone, Copy, PartialEq, Eq, Structural)]
pub enum EphemeralVaultError {
    /// An addition or subtraction left the range of its type.
    MathOverflow,
    /// The session's expiry has passed.
    SessionExpired,
    /// The session's expiry has not been reached yet.
    SessionNotExpired,
    /// The vault was revoked or has expired.
    VaultInactive,
    /// The delegate is not the vault's ephemeral identity.
    InvalidDelegate,
    /// The delegation record belongs to another vault.
    InvalidDelegationAccount,
    /// The delegation was revoked.
    DelegationRevoked,
    /// The deposit would pass the approved cap.
    OverDeposit,
    /// The fee would pass what was deposited.
    InsufficientVaultBalance,
}

/// Why the accounts of a transaction are refused before the program's own
/// rules are asked.
#[derive(Debug, Clone, Copy, PartialEq, Eq, Structural)]
pub enum AccountError {
    /// An identity that must sign did not.
    MissingSignature,
    /// The account is not stored at the address derived for it.
    SeedsMismatch,
    /// A record already exists where one is to be created.
    AlreadyInUse,
    /// No record exists where one is needed.
    NotInitialized,
    /// The parent named is not the parent of the vault.
    ParentMismatch,
}

/// Why a transaction failed: its accounts were refused, or the program
/// rejected it.
#[derive(Debug, Clone, Copy, PartialEq, Eq, Structural)]
pub enum LedgerError {
    /// The accounts were refused.
    Account(AccountError),
    /// The program rejected the transaction.
    Program(EphemeralVaultError),
}

/// The ledger's record of a vault: the deposit cap, the running totals and the
/// window in which the ephemeral identity may spend.
#[derive(Debug, Clone, Copy, PartialEq, Eq)]
pub struct EphemeralVault {
    pub parent_wallet: Address,
    pub ephemeral_wallet: Address,
    pub session_start: i64,
    pub session_expiry: i64,
    pub is_active: bool,
    pub total_deposited: u64,
    pub total_spent: u64,
    pub max_deposit: u64,
    pub bump: u8,
}

impl EphemeralVault {
    /// Bytes that the record takes in storage.
    pub const LEN: usize = 32 + 32 + 8 + 8 + 1 + 8 + 8 + 8 + 1;

    /// The custody invariant: no more is spent than was deposited, and no more
    /// deposited than the cap allows.
    pub open spec fn totals_in_order(&self) -> bool {
        self.total_spent <= self.total_deposited <= self.max_deposit
    }

    /// Whether the ephemeral identity may still spend at `now`.
    pub open spec fn spendable_at(&self, now: i64) -> bool {
        self.is_active && now <= self.session_expiry
    }

    /// Whether the vault may be cleaned up at `now`.
    pub open spec fn expired_at(&self, now: i64) -> bool {
        now >= self.session_expiry
    }
}

/// The ledger's record that binds one delegate to one vault.
#[derive(Debug, Clone, Copy, PartialEq, Eq)]
pub struct VaultDelegation {
    pub vault: Address,
    pub delegate: Address,
    pub approved_at: i64,
    pub revoked_at: Option<i64>,
    pub bump: u8,
}

impl VaultDelegation {
    /// Bytes that the record takes in storage at most: a revoked delegation
    /// fills them, one in force leaves eight unused.
    pub const LEN: usize = 32 + 32 + 8 + 1 + 8 + 1;

    /// Whether the delegation still authorises its delegate.
    pub open spec fn in_force(&self) -> bool {
        self.revoked_at is None
    }

    /// Whether the record lets `delegate` spend from the vault at `vault`: it
    /// binds that delegate to that vault and is not revoked.
    pub fn authorises(&self, vault: &Address, delegate: &Address) -> (authorised: bool)
        ensures
            authorised == (self.vault == *vault && self.delegate == *delegate && self.in_force()),
    {
        self.vault.same_as(vault) && self.delegate.same_as(delegate) && self.revoked_at.is_none()
    }
}

} // verus!
