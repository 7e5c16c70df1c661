//! The envelopes of the two ledger operations that set a delegation up: which
//! program is called, which accounts it is given and in which order, who signs
//! and what may be written.

use crate::address::base58_text;
use crate::address::delegation_address;
use crate::address::system_program;
use crate::address::vault_address;
use crate::address::Address;
use crate::config::Config;
use crate::session_manager::Session;
use crate::session_manager::SessionView;
use crate::vault::VaultDelegation;
use vstd::prelude::*;

verus! {

/// An account as an operation names it.
#[derive(Debug, Clone, Copy, PartialEq, Eq)]
pub struct AccountMeta {
    pub pubkey: Address,
    pub is_signer: bool,
    pub is_writable: bool,
}

/// The envelope of one ledger operation.
#[derive(Debug, Clone, PartialEq, Eq)]
pub struct Instruction {
    pub program_id: Address,
    pub accounts: Vec<AccountMeta>,
    pub data: Vec<u8>,
}

/// What an envelope holds.
pub struct InstructionView {
    pub program_id: Address,
    pub accounts: Seq<AccountMeta>,
    pub data: Seq<u8>,
}

impl View for Instruction {
    type V = InstructionView;

    open spec fn view(&self) -> InstructionView {
        InstructionView {
            program_id: self.program_id,
            accounts: self.accounts@,
            data: self.data@,
        }
    }
}

/// An account that the operation may write.
pub open spec fn writable(pubkey: Address, is_signer: bool) -> AccountMeta {
    AccountMeta { pubkey, is_signer, is_writable: true }
}

/// An account that the operation only reads.
pub open spec fn readonly(pubkey: Address, is_signer: bool) -> AccountMeta {
    AccountMeta { pubkey, is_signer, is_writable: false }
}

/// The envelope of `create_vault`: the parent signs and pays, the ephemeral
/// identity is only named, the vault's storage is written, and the system
/// program allocates it.
pub open spec fn create_vault_envelope(
    program_id: Address,
    parent_wallet: Address,
    ephemeral_wallet: Address,
    vault_pda: Address,
) -> InstructionView {
    InstructionView {
        program_id,
        accounts: seq![
            writable(parent_wallet, true),
            readonly(ephemeral_wallet, false),
            writable(vault_pda, false),
            readonly(system_program(), false),
        ],
        data: Seq::empty(),
    }
}

/// The envelope of `approve_delegate`: the vault is written, the parent signs
/// and pays, the delegation's storage is written, and the system program
/// allocates it.
pub open spec fn approve_delegate_envelope(
    program_id: Address,
    parent_wallet: Address,
    vault_pda: Address,
    delegation_pda: Address,
) -> InstructionView {
    InstructionView {
        program_id,
        accounts: seq![
            writable(vault_pda, false),
            writable(parent_wallet, true),
            writable(delegation_pda, false),
            readonly(system_program(), false),
        ],
        data: Seq::empty(),
    }
}

/// The envelope of `cleanup_vault`: the vault is destroyed, the parent and
/// the cleaner are paid, the cleaner signs, and the vault's parent is named.
pub open spec fn cleanup_vault_envelope(
    program_id: Address,
    vault_pda: Address,
    parent_wallet: Address,
    cleaner: Address,
) -> InstructionView {
    InstructionView {
        program_id,
        accounts: seq![
            writable(vault_pda, false),
            writable(parent_wallet, false),
            writable(cleaner, true),
            readonly(parent_wallet, false),
        ],
        data: Seq::empty(),
    }
}

/// Whether the delegation that the ledger holds serves the session: there is
/// one, it is not revoked, and it binds the session's ephemeral identity to the
/// session's vault.
pub open spec fn delegation_serves(session: SessionView, delegation: Option<VaultDelegation>) -> bool {
    &&& delegation matches Some(record)
    &&& record.revoked_at is None
    &&& session.ephemeral_wallet == base58_text(record.delegate@)
    &&& session.vault_pubkey == Some(base58_text(record.vault@))
}

/// Builds the operations that open a vault and approve its delegate, and the
/// one that cleans a vault up.
pub struct DelegationManager {
    pub cfg: Config,
}

impl DelegationManager {
    /// The builder under the given settings.
    pub fn new(cfg: Config) -> (manager: DelegationManager)
        ensures
            manager.cfg == cfg,
    {
        DelegationManager { cfg }
    }

    /// The envelope of `create_vault` for a vault stored at `vault_pda`.
    pub fn create_vault_ix_at(
        program_id: Address,
        parent_wallet: Address,
        ephemeral_wallet: Address,
        vault_pda: Address,
    ) -> (instruction: Instruction)
        ensures
            instruction@ == create_vault_envelope(
                program_id,
                parent_wallet,
                ephemeral_wallet,
                vault_pda,
            ),
    {
        let mut accounts: Vec<AccountMeta> = Vec::new();
        accounts.push(AccountMeta { pubkey: parent_wallet, is_signer: true, is_writable: true });
        accounts.push(
            AccountMeta { pubkey: ephemeral_wallet, is_signer: false, is_writable: false },
        );
        accounts.push(AccountMeta { pubkey: vault_pda, is_signer: false, is_writable: true });
        accounts.push(
            AccountMeta { pubkey: Address::system_program(), is_signer: false, is_writable: false },
        );
        let instruction = Instruction { program_id, accounts, data: Vec::new() };
        assert(instruction@.accounts =~= create_vault_envelope(
            program_id,
            parent_wallet,
            ephemeral_wallet,
            vault_pda,
        ).accounts);
        instruction
    }

    /// The envelope of `create_vault` for the vault of `(parent_wallet,
    /// ephemeral_wallet)`, at the address derived from the pair; `None` where
    /// no address can be derived.
    ///
    /// The envelope carries no arguments: the session's length and its cap
    /// are not part of it.
    pub fn build_create_vault_ix(
        &self,
        program_id: Address,
        parent_wallet: Address,
        ephemeral_wallet: Address,
        session_duration_secs: i64,
        max_deposit: u64,
    ) -> (instruction: Option<Instruction>)
        ensures
            match instruction {
                Some(ix) => {
                    &&& ix@.accounts.len() == 4
                    &&& vault_address(program_id, parent_wallet, ephemeral_wallet) matches Some(
                        (address, _),
                    ) && address == ix@.accounts[2].pubkey@
                    &&& ix@ == create_vault_envelope(
                        program_id,
                        parent_wallet,
                        ephemeral_wallet,
                        ix@.accounts[2].pubkey,
                    )
                },
                None => vault_address(program_id, parent_wallet, ephemeral_wallet) is None,
            },
    {
        match Address::derive_vault(&program_id, &parent_wallet, &ephemeral_wallet) {
            Some((vault_pda, _)) => Some(
                Self::create_vault_ix_at(program_id, parent_wallet, ephemeral_wallet, vault_pda),
            ),
            None => None,
        }
    }

    /// Whether the delegation that was read from the ledger (`None` where the
    /// ledger holds none) lets the session's ephemeral identity spend from the
    /// session's vault.
    pub fn verify_delegation_onchain(&self, session: &Session, delegation: &Option<VaultDelegation>) -> (serves:
        bool)
        ensures
            serves == delegation_serves(session@, *delegation),
    {
        let record = match delegation {
            Some(record) => record,
            None => {
                return false;
            },
        };
        if record.revoked_at.is_some() {
            return false;
        }
        let vault = match &session.vault_pubkey {
            Some(vault) => vault,
            None => {
                return false;
            },
        };
        let delegate_text: String = record.delegate.to_base58();
        let vault_text: String = record.vault.to_base58();
        session.ephemeral_wallet == delegate_text && *vault == vault_text
    }

    /// The envelope of `cleanup_vault` for the vault at `vault_pda`, sent by
    /// `cleaner`.
    pub fn build_cleanup_vault_ix(
        &self,
        program_id: Address,
        vault_pda: Address,
        parent_wallet: Address,
        cleaner: Address,
    ) -> (instruction: Instruction)
        ensures
            instruction@ == cleanup_vault_envelope(program_id, vault_pda, parent_wallet, cleaner),
    {
        let mut accounts: Vec<AccountMeta> = Vec::new();
        accounts.push(AccountMeta { pubkey: vault_pda, is_signer: false, is_writable: true });
        accounts.push(AccountMeta { pubkey: parent_wallet, is_signer: false, is_writable: true });
        accounts.push(AccountMeta { pubkey: cleaner, is_signer: true, is_writable: true });
        accounts.push(AccountMeta { pubkey: parent_wallet, is_signer: false, is_writable: false });
        let instruction = Instruction { program_id, accounts, data: Vec::new() };
        assert(instruction@.accounts =~= cleanup_vault_envelope(
            program_id,
            vault_pda,
            parent_wallet,
            cleaner,
        ).accounts);
        instruction
    }

    /// The envelope of `approve_delegate` for a delegation stored at
    /// `delegation_pda`.
    pub fn approve_delegate_ix_at(
        program_id: Address,
        parent_wallet: Address,
        vault_pda: Address,
        delegation_pda: Address,
    ) -> (instruction: Instruction)
        ensures
            instruction@ == approve_delegate_envelope(
                program_id,
                parent_wallet,
                vault_pda,
                delegation_pda,
            ),
    {
        let mut accounts: Vec<AccountMeta> = Vec::new();
        accounts.push(AccountMeta { pubkey: vault_pda, is_signer: false, is_writable: true });
        accounts.push(AccountMeta { pubkey: parent_wallet, is_signer: true, is_writable: true });
        accounts.push(AccountMeta { pubkey: delegation_pda, is_signer: false, is_writable: true });
        accounts.push(
            AccountMeta { pubkey: Address::system_program(), is_signer: false, is_writable: false },
        );
        let instruction = Instruction { program_id, accounts, data: Vec::new() };
        assert(instruction@.accounts =~= approve_delegate_envelope(
            program_id,
            parent_wallet,
            vault_pda,
            delegation_pda,
        ).accounts);
        instruction
    }

    /// The envelope of `approve_delegate` for the vault at `vault_pda`, with
    /// the delegation at the address derived from the vault's; `None` where no
    /// address can be derived.
    ///
    /// The envelope carries no arguments: the delegate is not part of it.
    pub fn build_approve_delegate_ix(
        &self,
        program_id: Address,
        parent_wallet: Address,
        vault_pda: Address,
        delegate: Address,
    ) -> (instruction: Option<Instruction>)
        ensures
            match instruction {
                Some(ix) => {
                    &&& ix@.accounts.len() == 4
                    &&& delegation_address(program_id, vault_pda) matches Some((address, _))
                        && address == ix@.accounts[2].pubkey@
                    &&& ix@ == approve_delegate_envelope(
                        program_id,
                        parent_wallet,
                        vault_pda,
                        ix@.accounts[2].pubkey,
                    )
                },
                None => delegation_address(program_id, vault_pda) is None,
            },
    {
        match Address::derive_delegation(&program_id, &vault_pda) {
            Some((delegation_pda, _)) => Some(
                Self::approve_delegate_ix_at(program_id, parent_wallet, vault_pda, delegation_pda),
            ),
            None => None,
        }
    }
}

} // verus!
