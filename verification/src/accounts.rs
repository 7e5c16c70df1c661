//! The accounts that each transaction names, and the checks that they must
//! pass before the vault program looks at them: who signed, which record sits
//! where, and whether each record is stored at the address derived for it.

use crate::address::delegation_address;
use crate::address::vault_address;
use crate::address::Address;
use crate::vault::AccountError;
use crate::vault::EphemeralVault;
use crate::vault::VaultDelegation;
use vstd::prelude::*;

verus! {

/// An identity named by a transaction, and whether it signed.
#[derive(Debug, Clone, Copy, PartialEq, Eq)]
pub struct Wallet {
    pub key: Address,
    pub is_signer: bool,
}

/// The storage at a vault's address: a record, or nothing where the vault was
/// never created or has been cleaned up.
#[derive(Debug, Clone, Copy, PartialEq, Eq)]
pub struct VaultAccount {
    pub key: Address,
    pub data: Option<EphemeralVault>,
}

/// The storage at a delegation's address.
#[derive(Debug, Clone, Copy, PartialEq, Eq)]
pub struct DelegationAccount {
    pub key: Address,
    pub data: Option<VaultDelegation>,
}

/// Accounts of `create_vault`. The parent signs and pays.
#[derive(Debug, Clone, Copy, PartialEq, Eq)]
pub struct CreateVault {
    pub parent: Wallet,
    pub ephemeral_wallet: Address,
    pub vault: VaultAccount,
}

/// Accounts of `approve_delegate`. The parent signs and pays.
#[derive(Debug, Clone, Copy, PartialEq, Eq)]
pub struct ApproveDelegate {
    pub vault: VaultAccount,
    pub parent: Wallet,
    pub delegation: DelegationAccount,
}

/// Accounts of `auto_deposit_for_trade`. The parent signs and pays.
#[derive(Debug, Clone, Copy, PartialEq, Eq)]
pub struct AutoDeposit {
    pub vault: VaultAccount,
    pub parent: Wallet,
}

/// Accounts of `execute_trade`. The ephemeral identity signs.
#[derive(Debug, Clone, Copy, PartialEq, Eq)]
pub struct ExecuteTrade {
    pub vault: VaultAccount,
    pub ephemeral: Wallet,
    pub delegation: DelegationAccount,
    pub parent_wallet: Address,
}

/// Accounts of `revoke_access`. The parent signs.
#[derive(Debug, Clone, Copy, PartialEq, Eq)]
pub struct RevokeAccess {
    pub vault: VaultAccount,
    pub parent: Wallet,
    pub delegation: DelegationAccount,
    pub parent_wallet: Address,
}

/// Accounts of `cleanup_vault`. Anyone may sign as the cleaner; what is left
/// goes to `parent`.
#[derive(Debug, Clone, Copy, PartialEq, Eq)]
pub struct CleanupVault {
    pub vault: VaultAccount,
    pub parent: Address,
    pub cleaner: Wallet,
    pub parent_wallet: Address,
}

/// A derived address and its bump seed, by the address's bytes.
pub open spec fn derived_view(derived: Option<(Address, u8)>) -> Option<(Seq<u8>, u8)> {
    match derived {
        Some((address, bump)) => Some((address@, bump)),
        None => None,
    }
}

/// Whether `key` is the address that was derived.
pub open spec fn is_derived_address(key: Address, derived: Option<(Seq<u8>, u8)>) -> bool {
    derived matches Some((address, _)) && address == key@
}

/// The bump seed that was derived, or 0 where no address was.
pub open spec fn derived_bump(derived: Option<(Seq<u8>, u8)>) -> u8 {
    match derived {
        Some((_, bump)) => bump,
        None => 0,
    }
}

/// `Ok` where nothing is refused, else the refusal.
pub open spec fn refusal_as_result(refusal: Option<AccountError>) -> Result<(), AccountError> {
    match refusal {
        Some(e) => Err(e),
        None => Ok(()),
    }
}

/// `Ok` with the bump seed where nothing is refused, else the refusal.
pub open spec fn bump_unless_refused(refusal: Option<AccountError>, bump: u8) -> Result<
    u8,
    AccountError,
> {
    match refusal {
        Some(e) => Err(e),
        None => Ok(bump),
    }
}

/// Whether `key` is the address that was derived, and with which bump seed.
fn match_derived(key: &Address, derived: &Option<(Address, u8)>) -> (found: Option<u8>)
    ensures
        match found {
            Some(bump) => is_derived_address(*key, derived_view(*derived)) && bump == derived_bump(
                derived_view(*derived),
            ) && derived_view(*derived) == Some((key@, bump)),
            None => !is_derived_address(*key, derived_view(*derived)),
        },
{
    match derived {
        Some((address, bump)) => {
            if address.same_as(key) {
                Some(*bump)
            } else {
                None
            }
        },
        None => None,
    }
}

impl CreateVault {
    /// The first check that these accounts fail, if any, where `derived` is
    /// the address derived for the vault: the parent signs, the vault sits at
    /// that address, and no record is there yet.
    pub open spec fn refusal_at(&self, derived: Option<(Seq<u8>, u8)>) -> Option<AccountError> {
        if !self.parent.is_signer {
            Some(AccountError::MissingSignature)
        } else if !is_derived_address(self.vault.key, derived) {
            Some(AccountError::SeedsMismatch)
        } else if self.vault.data is Some {
            Some(AccountError::AlreadyInUse)
        } else {
            None
        }
    }

    /// The address derived for the vault of these accounts.
    pub open spec fn derived(&self, program_id: Address) -> Option<(Seq<u8>, u8)> {
        vault_address(program_id, self.parent.key, self.ephemeral_wallet)
    }

    /// The first check that these accounts fail under the program, if any.
    pub open spec fn refusal(&self, program_id: Address) -> Option<AccountError> {
        self.refusal_at(self.derived(program_id))
    }

    /// Checks the accounts against the address that was derived for the vault;
    /// on success hands out the vault's bump seed.
    pub fn check(&self, derived: &Option<(Address, u8)>) -> (result: Result<u8, AccountError>)
        ensures
            result == bump_unless_refused(
                self.refusal_at(derived_view(*derived)),
                derived_bump(derived_view(*derived)),
            ),
    {
        if !self.parent.is_signer {
            return Err(AccountError::MissingSignature);
        }
        let bump: u8 = match match_derived(&self.vault.key, derived) {
            Some(bump) => bump,
            None => {
                return Err(AccountError::SeedsMismatch);
            },
        };
        if self.vault.data.is_some() {
            return Err(AccountError::AlreadyInUse);
        }
        Ok(bump)
    }

    /// Derives the vault's address and checks the accounts against it.
    pub fn validate(&self, program_id: &Address) -> (result: Result<u8, AccountError>)
        ensures
            result == bump_unless_refused(
                self.refusal(*program_id),
                derived_bump(self.derived(*program_id)),
            ),
    {
        let derived = Address::derive_vault(program_id, &self.parent.key, &self.ephemeral_wallet);
        self.check(&derived)
    }
}

impl ApproveDelegate {
    /// The first check that these accounts fail, if any, where `derived` is
    /// the address derived for the delegation: the vault exists and is the
    /// parent's, the parent signs, the delegation sits at that address, and no
    /// record is there yet.
    pub open spec fn refusal_at(&self, derived: Option<(Seq<u8>, u8)>) -> Option<AccountError> {
        if self.vault.data is None {
            Some(AccountError::NotInitialized)
        } else if self.vault.data->0.parent_wallet != self.parent.key {
            Some(AccountError::ParentMismatch)
        } else if !self.parent.is_signer {
            Some(AccountError::MissingSignature)
        } else if !is_derived_address(self.delegation.key, derived) {
            Some(AccountError::SeedsMismatch)
        } else if self.delegation.data is Some {
            Some(AccountError::AlreadyInUse)
        } else {
            None
        }
    }

    /// The address derived for the delegation of these accounts.
    pub open spec fn derived(&self, program_id: Address) -> Option<(Seq<u8>, u8)> {
        delegation_address(program_id, self.vault.key)
    }

    /// The first check that these accounts fail under the program, if any.
    pub open spec fn refusal(&self, program_id: Address) -> Option<AccountError> {
        self.refusal_at(self.derived(program_id))
    }

    /// Checks the accounts against the address that was derived for the
    /// delegation; on success hands out the delegation's bump seed.
    pub fn check(&self, derived: &Option<(Address, u8)>) -> (result: Result<u8, AccountError>)
        ensures
            result == bump_unless_refused(
                self.refusal_at(derived_view(*derived)),
                derived_bump(derived_view(*derived)),
            ),
    {
        let vault = match self.vault.data {
            Some(vault) => vault,
            None => {
                return Err(AccountError::NotInitialized);
            },
        };
        if !vault.parent_wallet.same_as(&self.parent.key) {
            return Err(AccountError::ParentMismatch);
        }
        if !self.parent.is_signer {
            return Err(AccountError::MissingSignature);
        }
        let bump: u8 = match match_derived(&self.delegation.key, derived) {
            Some(bump) => bump,
            None => {
                return Err(AccountError::SeedsMismatch);
            },
        };
        if self.delegation.data.is_some() {
            return Err(AccountError::AlreadyInUse);
        }
        Ok(bump)
    }

    /// Derives the delegation's address and checks the accounts against it.
    pub fn validate(&self, program_id: &Address) -> (result: Result<u8, AccountError>)
        ensures
            result == bump_unless_refused(
                self.refusal(*program_id),
                derived_bump(self.derived(*program_id)),
            ),
    {
        let derived = Address::derive_delegation(program_id, &self.vault.key);
        self.check(&derived)
    }
}

impl AutoDeposit {
    /// The first check that these accounts fail, if any: the vault exists and
    /// is the parent's, and the parent signs.
    pub open spec fn refusal(&self) -> Option<AccountError> {
        if self.vault.data is None {
            Some(AccountError::NotInitialized)
        } else if self.vault.data->0.parent_wallet != self.parent.key {
            Some(AccountError::ParentMismatch)
        } else if !self.parent.is_signer {
            Some(AccountError::MissingSignature)
        } else {
            None
        }
    }

    /// Checks the accounts.
    pub fn validate(&self) -> (result: Result<(), AccountError>)
        ensures
            result == refusal_as_result(self.refusal()),
    {
        let vault = match self.vault.data {
            Some(vault) => vault,
            None => {
                return Err(AccountError::NotInitialized);
            },
        };
        if !vault.parent_wallet.same_as(&self.parent.key) {
            return Err(AccountError::ParentMismatch);
        }
        if !self.parent.is_signer {
            return Err(AccountError::MissingSignature);
        }
        Ok(())
    }
}

impl ExecuteTrade {
    /// The first check that these accounts fail, if any, where `derived` is
    /// the address derived for the delegation: the vault exists and belongs to
    /// the parent named, the ephemeral identity signs, and the delegation exists
    /// at that address with that bump seed.
    pub open spec fn refusal_at(&self, derived: Option<(Seq<u8>, u8)>) -> Option<AccountError> {
        if self.vault.data is None {
            Some(AccountError::NotInitialized)
        } else if self.vault.data->0.parent_wallet != self.parent_wallet {
            Some(AccountError::ParentMismatch)
        } else if !self.ephemeral.is_signer {
            Some(AccountError::MissingSignature)
        } else if self.delegation.data is None {
            Some(AccountError::NotInitialized)
        } else if derived != Some((self.delegation.key@, self.delegation.data->0.bump)) {
            Some(AccountError::SeedsMismatch)
        } else {
            None
        }
    }

    /// The address derived for the delegation of these accounts.
    pub open spec fn derived(&self, program_id: Address) -> Option<(Seq<u8>, u8)> {
        delegation_address(program_id, self.vault.key)
    }

    /// The first check that these accounts fail under the program, if any.
    pub open spec fn refusal(&self, program_id: Address) -> Option<AccountError> {
        self.refusal_at(self.derived(program_id))
    }

    /// Checks the accounts against the address that was derived for the
    /// delegation.
    pub fn check(&self, derived: &Option<(Address, u8)>) -> (result: Result<(), AccountError>)
        ensures
            result == refusal_as_result(self.refusal_at(derived_view(*derived))),
    {
        let vault = match self.vault.data {
            Some(vault) => vault,
            None => {
                return Err(AccountError::NotInitialized);
            },
        };
        if !vault.parent_wallet.same_as(&self.parent_wallet) {
            return Err(AccountError::ParentMismatch);
        }
        if !self.ephemeral.is_signer {
            return Err(AccountError::MissingSignature);
        }
        let delegation = match self.delegation.data {
            Some(delegation) => delegation,
            None => {
                return Err(AccountError::NotInitialized);
            },
        };
        match match_derived(&self.delegation.key, derived) {
            Some(bump) => {
                if bump != delegation.bump {
                    return Err(AccountError::SeedsMismatch);
                }
            },
            None => {
                return Err(AccountError::SeedsMismatch);
            },
        }
        Ok(())
    }

    /// Derives the delegation's address and checks the accounts against it.
    pub fn validate(&self, program_id: &Address) -> (result: Result<(), AccountError>)
        ensures
            result == refusal_as_result(self.refusal(*program_id)),
    {
        let derived = Address::derive_delegation(program_id, &self.vault.key);
        self.check(&derived)
    }
}

impl RevokeAccess {
    /// The first check that these accounts fail, if any, where `derived` is
    /// the address derived for the delegation: the vault exists and belongs to
    /// the parent named, the signer is that parent, and the delegation exists at
    /// that address with that bump seed.
    pub open spec fn refusal_at(&self, derived: Option<(Seq<u8>, u8)>) -> Option<AccountError> {
        if self.vault.data is None {
            Some(AccountError::NotInitialized)
        } else if self.vault.data->0.parent_wallet != self.parent_wallet {
            Some(AccountError::ParentMismatch)
        } else if !self.parent.is_signer {
            Some(AccountError::MissingSignature)
        } else if self.parent.key != self.parent_wallet {
            Some(AccountError::ParentMismatch)
        } else if self.delegation.data is None {
            Some(AccountError::NotInitialized)
        } else if derived != Some((self.delegation.key@, self.delegation.data->0.bump)) {
            Some(AccountError::SeedsMismatch)
        } else {
            None
        }
    }

    /// The address derived for the delegation of these accounts.
    pub open spec fn derived(&self, program_id: Address) -> Option<(Seq<u8>, u8)> {
        delegation_address(program_id, self.vault.key)
    }

    /// The first check that these accounts fail under the program, if any.
    pub open spec fn refusal(&self, program_id: Address) -> Option<AccountError> {
        self.refusal_at(self.derived(program_id))
    }

    /// Checks the accounts against the address that was derived for the
    /// delegation.
    pub fn check(&self, derived: &Option<(Address, u8)>) -> (result: Result<(), AccountError>)
        ensures
            result == refusal_as_result(self.refusal_at(derived_view(*derived))),
    {
        let vault = match self.vault.data {
            Some(vault) => vault,
            None => {
                return Err(AccountError::NotInitialized);
            },
        };
        if !vault.parent_wallet.same_as(&self.parent_wallet) {
            return Err(AccountError::ParentMismatch);
        }
        if !self.parent.is_signer {
            return Err(AccountError::MissingSignature);
        }
        if !self.parent.key.same_as(&self.parent_wallet) {
            return Err(AccountError::ParentMismatch);
        }
        let delegation = match self.delegation.data {
            Some(delegation) => delegation,
            None => {
                return Err(AccountError::NotInitialized);
            },
        };
        match match_derived(&self.delegation.key, derived) {
            Some(bump) => {
                if bump != delegation.bump {
                    return Err(AccountError::SeedsMismatch);
                }
            },
            None => {
                return Err(AccountError::SeedsMismatch);
            },
        }
        Ok(())
    }

    /// Derives the delegation's address and checks the accounts against it.
    pub fn validate(&self, program_id: &Address) -> (result: Result<(), AccountError>)
        ensures
            result == refusal_as_result(self.refusal(*program_id)),
    {
        let derived = Address::derive_delegation(program_id, &self.vault.key);
        self.check(&derived)
    }
}

impl CleanupVault {
    /// The first check that these accounts fail, if any: the vault exists and
    /// belongs to the parent named, what is left goes to that parent, and the
    /// cleaner signs.
    pub open spec fn refusal(&self) -> Option<AccountError> {
        if self.vault.data is None {
            Some(AccountError::NotInitialized)
        } else if self.vault.data->0.parent_wallet != self.parent_wallet {
            Some(AccountError::ParentMismatch)
        } else if self.parent != self.parent_wallet {
            Some(AccountError::ParentMismatch)
        } else if !self.cleaner.is_signer {
            Some(AccountError::MissingSignature)
        } else {
            None
        }
    }

    /// Checks the accounts.
    pub fn validate(&self) -> (result: Result<(), AccountError>)
        ensures
            result == refusal_as_result(self.refusal()),
    {
        let vault = match self.vault.data {
            Some(vault) => vault,
            None => {
                return Err(AccountError::NotInitialized);
            },
        };
        if !vault.parent_wallet.same_as(&self.parent_wallet) {
            return Err(AccountError::ParentMismatch);
        }
        if !self.parent.same_as(&self.parent_wallet) {
            return Err(AccountError::ParentMismatch);
        }
        if !self.cleaner.is_signer {
            return Err(AccountError::MissingSignature);
        }
        Ok(())
    }
}

} // verus!
