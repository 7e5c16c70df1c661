use ephemeral_vault::accounts::ApproveDelegate;
use ephemeral_vault::accounts::AutoDeposit;
use ephemeral_vault::accounts::CleanupVault;
use ephemeral_vault::accounts::CreateVault;
use ephemeral_vault::accounts::DelegationAccount;
use ephemeral_vault::accounts::ExecuteTrade;
use ephemeral_vault::accounts::RevokeAccess;
use ephemeral_vault::accounts::VaultAccount;
use ephemeral_vault::accounts::Wallet;
use ephemeral_vault::address::Address;
use ephemeral_vault::events;
use ephemeral_vault::events::AccessRevoked;
use ephemeral_vault::events::DelegateApproved;
use ephemeral_vault::events::TradeExecuted;
use ephemeral_vault::events::VaultCleaned;
use ephemeral_vault::events::VaultCreated;
use ephemeral_vault::ledger::approve_delegate;
use ephemeral_vault::ledger::approve_delegate_at;
use ephemeral_vault::ledger::auto_deposit_for_trade;
use ephemeral_vault::ledger::cleanup_vault;
use ephemeral_vault::ledger::create_vault;
use ephemeral_vault::ledger::create_vault_at;
use ephemeral_vault::ledger::ensure_vault_active_and_not_expired;
use ephemeral_vault::ledger::ensure_vault_not_already_inactive;
use ephemeral_vault::ledger::execute_trade;
use ephemeral_vault::ledger::execute_trade_at;
use ephemeral_vault::ledger::revoke_access;
use ephemeral_vault::ledger::revoke_access_at;
use ephemeral_vault::ledger::MAX_CLEANUP_REWARD_LAMPORTS;
use ephemeral_vault::vault::AccountError;
use ephemeral_vault::vault::EphemeralVault;
use ephemeral_vault::vault::EphemeralVaultError;
use ephemeral_vault::vault::LedgerError;
use ephemeral_vault::vault::VaultDelegation;

const NOW: i64 = 1_700_000_000;

fn program() -> Address {
    Address::new([42u8; 32])
}

fn parent() -> Address {
    Address::new([1u8; 32])
}

fn ephemeral() -> Address {
    Address::new([2u8; 32])
}

fn stranger() -> Address {
    Address::new([3u8; 32])
}

fn signer(key: Address) -> Wallet {
    Wallet { key, is_signer: true }
}

fn vault_key() -> Address {
    Address::derive_vault(&program(), &parent(), &ephemeral()).unwrap().0
}

fn delegation_key() -> Address {
    Address::derive_delegation(&program(), &vault_key()).unwrap().0
}

fn program_error(e: EphemeralVaultError) -> LedgerError {
    LedgerError::Program(e)
}

fn account_error(e: AccountError) -> LedgerError {
    LedgerError::Account(e)
}

/// A vault opened at `NOW` for an hour with the given cap.
fn opened(max_deposit: u64) -> VaultAccount {
    let mut ctx = CreateVault {
        parent: signer(parent()),
        ephemeral_wallet: ephemeral(),
        vault: VaultAccount { key: vault_key(), data: None },
    };
    create_vault(&mut ctx, &program(), NOW, 3600, max_deposit).unwrap();
    ctx.vault
}

fn approved(vault: VaultAccount) -> DelegationAccount {
    let mut ctx = ApproveDelegate {
        vault,
        parent: signer(parent()),
        delegation: DelegationAccount { key: delegation_key(), data: None },
    };
    approve_delegate(&mut ctx, &program(), NOW + 1, ephemeral()).unwrap();
    ctx.delegation
}

fn deposit(vault: &mut VaultAccount, now: i64, amount: u64) -> Result<events::AutoDeposit, LedgerError> {
    let mut ctx = AutoDeposit { vault: *vault, parent: signer(parent()) };
    let result = auto_deposit_for_trade(&mut ctx, now, amount);
    *vault = ctx.vault;
    result
}

fn trade(
    vault: &mut VaultAccount,
    delegation: DelegationAccount,
    now: i64,
    fee: u64,
) -> Result<TradeExecuted, LedgerError> {
    let mut ctx = ExecuteTrade {
        vault: *vault,
        ephemeral: signer(ephemeral()),
        delegation,
        parent_wallet: parent(),
    };
    let result = execute_trade(&mut ctx, &program(), now, fee);
    *vault = ctx.vault;
    result
}

#[test]
fn record_sizes() {
    assert_eq!(EphemeralVault::LEN, 106);
    assert_eq!(VaultDelegation::LEN, 82);
    assert_eq!(MAX_CLEANUP_REWARD_LAMPORTS, 10_000);
}

#[test]
fn create_vault_writes_an_active_empty_vault() {
    let mut ctx = CreateVault {
        parent: signer(parent()),
        ephemeral_wallet: ephemeral(),
        vault: VaultAccount { key: vault_key(), data: None },
    };
    let event = create_vault(&mut ctx, &program(), NOW, 3600, 100_000).unwrap();
    let bump = Address::derive_vault(&program(), &parent(), &ephemeral()).unwrap().1;
    assert_eq!(
        ctx.vault.data,
        Some(EphemeralVault {
            parent_wallet: parent(),
            ephemeral_wallet: ephemeral(),
            session_start: NOW,
            session_expiry: NOW + 3600,
            is_active: true,
            total_deposited: 0,
            total_spent: 0,
            max_deposit: 100_000,
            bump,
        })
    );
    assert_eq!(
        event,
        VaultCreated {
            parent: parent(),
            vault: vault_key(),
            ephemeral_wallet: ephemeral(),
            max_deposit: 100_000,
            session_start: NOW,
            session_expiry: NOW + 3600,
        }
    );
}

#[test]
fn create_vault_again_finds_the_vault() {
    let vault = opened(100_000);
    let mut ctx = CreateVault { parent: signer(parent()), ephemeral_wallet: ephemeral(), vault };
    let before = ctx;
    assert_eq!(
        create_vault(&mut ctx, &program(), NOW + 5, 10, 1),
        Err(account_error(AccountError::AlreadyInUse))
    );
    assert_eq!(ctx, before);
}

#[test]
fn create_vault_overflowing_expiry_fails() {
    let mut ctx = CreateVault {
        parent: signer(parent()),
        ephemeral_wallet: ephemeral(),
        vault: VaultAccount { key: vault_key(), data: None },
    };
    let before = ctx;
    assert_eq!(
        create_vault(&mut ctx, &program(), i64::MAX, 1, 100_000),
        Err(program_error(EphemeralVaultError::MathOverflow))
    );
    assert_eq!(
        create_vault(&mut ctx, &program(), i64::MIN, -1, 100_000),
        Err(program_error(EphemeralVaultError::MathOverflow))
    );
    assert_eq!(ctx, before);
    assert!(create_vault(&mut ctx, &program(), i64::MAX - 1, 1, 100_000).is_ok());
    assert_eq!(ctx.vault.data.unwrap().session_expiry, i64::MAX);
}

#[test]
fn create_vault_needs_the_parent_to_sign() {
    let mut ctx = CreateVault {
        parent: Wallet { key: parent(), is_signer: false },
        ephemeral_wallet: ephemeral(),
        vault: VaultAccount { key: vault_key(), data: None },
    };
    assert_eq!(
        create_vault(&mut ctx, &program(), NOW, 3600, 100_000),
        Err(account_error(AccountError::MissingSignature))
    );
    assert_eq!(ctx.vault.data, None);
}

#[test]
fn create_vault_at_another_address_fails() {
    let mut ctx = CreateVault {
        parent: signer(parent()),
        ephemeral_wallet: ephemeral(),
        vault: VaultAccount { key: stranger(), data: None },
    };
    assert_eq!(
        create_vault(&mut ctx, &program(), NOW, 3600, 100_000),
        Err(account_error(AccountError::SeedsMismatch))
    );
    assert_eq!(
        create_vault_at(&mut ctx, &None, NOW, 3600, 100_000),
        Err(account_error(AccountError::SeedsMismatch))
    );
    assert!(create_vault_at(&mut ctx, &Some((stranger(), 9)), NOW, 3600, 100_000).is_ok());
    assert_eq!(ctx.vault.data.unwrap().bump, 9);
}

#[test]
fn approve_delegate_writes_the_delegation() {
    let vault = opened(100_000);
    let mut ctx = ApproveDelegate {
        vault,
        parent: signer(parent()),
        delegation: DelegationAccount { key: delegation_key(), data: None },
    };
    let event = approve_delegate(&mut ctx, &program(), NOW + 1, ephemeral()).unwrap();
    let bump = Address::derive_delegation(&program(), &vault_key()).unwrap().1;
    assert_eq!(
        ctx.delegation.data,
        Some(VaultDelegation {
            vault: vault_key(),
            delegate: ephemeral(),
            approved_at: NOW + 1,
            revoked_at: None,
            bump,
        })
    );
    assert_eq!(ctx.vault, vault);
    assert_eq!(event, DelegateApproved { vault: vault_key(), delegate: ephemeral(), approved_at: NOW + 1 });
}

#[test]
fn approve_delegate_refuses_another_delegate() {
    let vault = opened(100_000);
    let mut ctx = ApproveDelegate {
        vault,
        parent: signer(parent()),
        delegation: DelegationAccount { key: delegation_key(), data: None },
    };
    assert_eq!(
        approve_delegate(&mut ctx, &program(), NOW + 1, stranger()),
        Err(program_error(EphemeralVaultError::InvalidDelegate))
    );
    assert_eq!(ctx.delegation.data, None);
}

#[test]
fn approve_delegate_account_checks() {
    let vault = opened(100_000);
    let fresh = DelegationAccount { key: delegation_key(), data: None };
    let mut missing = ApproveDelegate {
        vault: VaultAccount { key: vault_key(), data: None },
        parent: signer(parent()),
        delegation: fresh,
    };
    assert_eq!(
        approve_delegate(&mut missing, &program(), NOW, ephemeral()),
        Err(account_error(AccountError::NotInitialized))
    );
    let mut other_parent = ApproveDelegate { vault, parent: signer(stranger()), delegation: fresh };
    assert_eq!(
        approve_delegate(&mut other_parent, &program(), NOW, ephemeral()),
        Err(account_error(AccountError::ParentMismatch))
    );
    let mut unsigned = ApproveDelegate {
        vault,
        parent: Wallet { key: parent(), is_signer: false },
        delegation: fresh,
    };
    assert_eq!(
        approve_delegate(&mut unsigned, &program(), NOW, ephemeral()),
        Err(account_error(AccountError::MissingSignature))
    );
    let mut elsewhere = ApproveDelegate {
        vault,
        parent: signer(parent()),
        delegation: DelegationAccount { key: stranger(), data: None },
    };
    assert_eq!(
        approve_delegate(&mut elsewhere, &program(), NOW, ephemeral()),
        Err(account_error(AccountError::SeedsMismatch))
    );
    let mut twice = ApproveDelegate { vault, parent: signer(parent()), delegation: approved(vault) };
    assert_eq!(
        approve_delegate(&mut twice, &program(), NOW, ephemeral()),
        Err(account_error(AccountError::AlreadyInUse))
    );
    let mut given = ApproveDelegate {
        vault,
        parent: signer(parent()),
        delegation: DelegationAccount { key: stranger(), data: None },
    };
    assert!(approve_delegate_at(&mut given, &Some((stranger(), 200)), NOW, ephemeral()).is_ok());
    assert_eq!(given.delegation.data.unwrap().bump, 200);
}

#[test]
fn deposits_and_trades_within_the_cap() {
    let mut vault = opened(100_000);
    let delegation = approved(vault);

    let event = deposit(&mut vault, NOW + 10, 60_000).unwrap();
    assert_eq!(event, events::AutoDeposit { vault: vault_key(), amount: 60_000, total_deposited: 60_000 });
    assert_eq!(vault.data.unwrap().total_deposited, 60_000);

    assert_eq!(
        deposit(&mut vault, NOW + 11, 50_000),
        Err(program_error(EphemeralVaultError::OverDeposit))
    );
    assert_eq!(vault.data.unwrap().total_deposited, 60_000);

    let event = trade(&mut vault, delegation, NOW + 12, 40_000).unwrap();
    assert_eq!(
        event,
        TradeExecuted { vault: vault_key(), delegate: ephemeral(), fee_paid: 40_000, total_spent: 40_000 }
    );
    assert_eq!(vault.data.unwrap().total_spent, 40_000);

    assert_eq!(
        trade(&mut vault, delegation, NOW + 13, 25_000),
        Err(program_error(EphemeralVaultError::InsufficientVaultBalance))
    );
    assert_eq!(vault.data.unwrap().total_spent, 40_000);
    assert_eq!(vault.data.unwrap().total_deposited, 60_000);
}

#[test]
fn deposit_up_to_the_cap_exactly() {
    let mut vault = opened(100_000);
    assert!(deposit(&mut vault, NOW, 100_000).is_ok());
    assert_eq!(
        deposit(&mut vault, NOW, 1),
        Err(program_error(EphemeralVaultError::OverDeposit))
    );
    assert!(deposit(&mut vault, NOW, 0).is_ok());
    assert_eq!(vault.data.unwrap().total_deposited, 100_000);
}

#[test]
fn deposit_sum_that_overflows_fails() {
    let mut vault = opened(u64::MAX);
    assert!(deposit(&mut vault, NOW, u64::MAX - 1).is_ok());
    assert_eq!(
        deposit(&mut vault, NOW, 2),
        Err(program_error(EphemeralVaultError::MathOverflow))
    );
    assert_eq!(vault.data.unwrap().total_deposited, u64::MAX - 1);
    assert!(deposit(&mut vault, NOW, 1).is_ok());
    assert_eq!(vault.data.unwrap().total_deposited, u64::MAX);
}

#[test]
fn deposit_after_expiry_fails() {
    let mut vault = opened(100_000);
    assert!(deposit(&mut vault, NOW + 3600, 1).is_ok());
    assert_eq!(
        deposit(&mut vault, NOW + 3601, 1),
        Err(program_error(EphemeralVaultError::SessionExpired))
    );
    assert_eq!(vault.data.unwrap().total_deposited, 1);
}

#[test]
fn deposit_account_checks() {
    let vault = opened(100_000);
    let mut missing = AutoDeposit {
        vault: VaultAccount { key: vault_key(), data: None },
        parent: signer(parent()),
    };
    assert_eq!(
        auto_deposit_for_trade(&mut missing, NOW, 1),
        Err(account_error(AccountError::NotInitialized))
    );
    let mut other = AutoDeposit { vault, parent: signer(stranger()) };
    assert_eq!(
        auto_deposit_for_trade(&mut other, NOW, 1),
        Err(account_error(AccountError::ParentMismatch))
    );
    let mut unsigned = AutoDeposit { vault, parent: Wallet { key: parent(), is_signer: false } };
    assert_eq!(
        auto_deposit_for_trade(&mut unsigned, NOW, 1),
        Err(account_error(AccountError::MissingSignature))
    );
    assert_eq!(unsigned.vault, vault);
}

#[test]
fn trade_up_to_the_deposits_exactly() {
    let mut vault = opened(100_000);
    let delegation = approved(vault);
    deposit(&mut vault, NOW, 500).unwrap();
    assert!(trade(&mut vault, delegation, NOW, 500).is_ok());
    assert_eq!(
        trade(&mut vault, delegation, NOW, 1),
        Err(program_error(EphemeralVaultError::InsufficientVaultBalance))
    );
    assert!(trade(&mut vault, delegation, NOW, 0).is_ok());
}

#[test]
fn trade_sum_that_overflows_fails() {
    let mut vault = opened(u64::MAX);
    let delegation = approved(vault);
    deposit(&mut vault, NOW, u64::MAX).unwrap();
    assert!(trade(&mut vault, delegation, NOW, u64::MAX - 1).is_ok());
    assert_eq!(
        trade(&mut vault, delegation, NOW, 2),
        Err(program_error(EphemeralVaultError::MathOverflow))
    );
    assert_eq!(vault.data.unwrap().total_spent, u64::MAX - 1);
}

#[test]
fn trade_after_expiry_fails() {
    let mut vault = opened(100_000);
    let delegation = approved(vault);
    deposit(&mut vault, NOW, 500).unwrap();
    assert!(trade(&mut vault, delegation, NOW + 3600, 1).is_ok());
    assert_eq!(
        trade(&mut vault, delegation, NOW + 3601, 1),
        Err(program_error(EphemeralVaultError::SessionExpired))
    );
}

#[test]
fn trade_by_another_signer_fails() {
    let mut vault = opened(100_000);
    let delegation = approved(vault);
    deposit(&mut vault, NOW, 500).unwrap();
    let mut ctx = ExecuteTrade {
        vault,
        ephemeral: signer(stranger()),
        delegation,
        parent_wallet: parent(),
    };
    assert_eq!(
        execute_trade(&mut ctx, &program(), NOW, 1),
        Err(program_error(EphemeralVaultError::InvalidDelegate))
    );
    assert_eq!(ctx.vault, vault);
    let mut unsigned = ExecuteTrade {
        vault,
        ephemeral: Wallet { key: ephemeral(), is_signer: false },
        delegation,
        parent_wallet: parent(),
    };
    assert_eq!(
        execute_trade(&mut unsigned, &program(), NOW, 1),
        Err(account_error(AccountError::MissingSignature))
    );
}

#[test]
fn trade_with_a_delegation_of_another_vault_fails() {
    let mut vault = opened(100_000);
    let mut delegation = approved(vault);
    deposit(&mut vault, NOW, 500).unwrap();
    let mut record = delegation.data.unwrap();
    record.vault = stranger();
    delegation.data = Some(record);
    assert_eq!(
        trade(&mut vault, delegation, NOW, 1),
        Err(program_error(EphemeralVaultError::InvalidDelegationAccount))
    );
}

#[test]
fn trade_with_a_revoked_delegation_fails() {
    let mut vault = opened(100_000);
    let mut delegation = approved(vault);
    deposit(&mut vault, NOW, 500).unwrap();
    let mut record = delegation.data.unwrap();
    record.revoked_at = Some(NOW);
    delegation.data = Some(record);
    assert_eq!(
        trade(&mut vault, delegation, NOW, 1),
        Err(program_error(EphemeralVaultError::DelegationRevoked))
    );
}

#[test]
fn trade_account_checks() {
    let mut vault = opened(100_000);
    let delegation = approved(vault);
    deposit(&mut vault, NOW, 500).unwrap();
    let mut no_vault = ExecuteTrade {
        vault: VaultAccount { key: vault_key(), data: None },
        ephemeral: signer(ephemeral()),
        delegation,
        parent_wallet: parent(),
    };
    assert_eq!(
        execute_trade(&mut no_vault, &program(), NOW, 1),
        Err(account_error(AccountError::NotInitialized))
    );
    let mut other_parent =
        ExecuteTrade { vault, ephemeral: signer(ephemeral()), delegation, parent_wallet: stranger() };
    assert_eq!(
        execute_trade(&mut other_parent, &program(), NOW, 1),
        Err(account_error(AccountError::ParentMismatch))
    );
    let mut no_delegation = ExecuteTrade {
        vault,
        ephemeral: signer(ephemeral()),
        delegation: DelegationAccount { key: delegation_key(), data: None },
        parent_wallet: parent(),
    };
    assert_eq!(
        execute_trade(&mut no_delegation, &program(), NOW, 1),
        Err(account_error(AccountError::NotInitialized))
    );
    let mut elsewhere = ExecuteTrade {
        vault,
        ephemeral: signer(ephemeral()),
        delegation: DelegationAccount { key: stranger(), data: delegation.data },
        parent_wallet: parent(),
    };
    assert_eq!(
        execute_trade(&mut elsewhere, &program(), NOW, 1),
        Err(account_error(AccountError::SeedsMismatch))
    );
    let mut wrong_bump = delegation;
    let mut record = wrong_bump.data.unwrap();
    record.bump = record.bump.wrapping_sub(1);
    wrong_bump.data = Some(record);
    let mut bumped =
        ExecuteTrade { vault, ephemeral: signer(ephemeral()), delegation: wrong_bump, parent_wallet: parent() };
    assert_eq!(
        execute_trade(&mut bumped, &program(), NOW, 1),
        Err(account_error(AccountError::SeedsMismatch))
    );
    let derived = Some((delegation_key(), record.bump));
    assert!(execute_trade_at(&mut bumped, &derived, NOW, 1).is_ok());
    assert_eq!(bumped.vault.data.unwrap().total_spent, 1);
}

#[test]
fn revoke_access_returns_the_balance_above_the_rent_floor() {
    let mut vault = opened(100_000);
    let delegation = approved(vault);
    deposit(&mut vault, NOW, 58_000).unwrap();
    let mut ctx = RevokeAccess {
        vault,
        parent: signer(parent()),
        delegation,
        parent_wallet: parent(),
    };
    let receipt = revoke_access(&mut ctx, &program(), NOW + 20, 60_000, 2_000).unwrap();
    assert_eq!(receipt.returned_to_parent, 58_000);
    assert_eq!(
        receipt.event,
        AccessRevoked { vault: vault_key(), parent: parent(), revoked_at: NOW + 20 }
    );
    assert!(!ctx.vault.data.unwrap().is_active);
    assert_eq!(ctx.delegation.data.unwrap().revoked_at, Some(NOW + 20));
    assert_eq!(ctx.vault.data.unwrap().total_deposited, 58_000);

    let mut after = ctx.vault;
    assert_eq!(
        trade(&mut after, ctx.delegation, NOW + 21, 1),
        Err(program_error(EphemeralVaultError::VaultInactive))
    );
    assert_eq!(
        deposit(&mut after, NOW + 21, 1),
        Err(program_error(EphemeralVaultError::VaultInactive))
    );
    assert_eq!(after, ctx.vault);
}

#[test]
fn revoke_access_with_nothing_above_the_floor_returns_nothing() {
    let vault = opened(100_000);
    let delegation = approved(vault);
    let mut ctx = RevokeAccess { vault, parent: signer(parent()), delegation, parent_wallet: parent() };
    assert_eq!(revoke_access(&mut ctx, &program(), NOW, 2_000, 2_000).unwrap().returned_to_parent, 0);
    let mut ctx = RevokeAccess { vault, parent: signer(parent()), delegation, parent_wallet: parent() };
    assert_eq!(revoke_access(&mut ctx, &program(), NOW, 1_000, 2_000).unwrap().returned_to_parent, 0);
    let mut ctx = RevokeAccess { vault, parent: signer(parent()), delegation, parent_wallet: parent() };
    assert_eq!(revoke_access(&mut ctx, &program(), NOW, 2_001, 2_000).unwrap().returned_to_parent, 1);
}

#[test]
fn revoke_access_twice_fails() {
    let vault = opened(100_000);
    let delegation = approved(vault);
    let mut ctx = RevokeAccess { vault, parent: signer(parent()), delegation, parent_wallet: parent() };
    revoke_access(&mut ctx, &program(), NOW + 20, 60_000, 2_000).unwrap();
    let before = ctx;
    assert_eq!(
        revoke_access(&mut ctx, &program(), NOW + 30, 60_000, 2_000),
        Err(program_error(EphemeralVaultError::VaultInactive))
    );
    assert_eq!(ctx, before);
    assert_eq!(ctx.delegation.data.unwrap().revoked_at, Some(NOW + 20));
}

#[test]
fn revoke_access_is_the_parents_alone() {
    let vault = opened(100_000);
    let delegation = approved(vault);
    let mut by_stranger =
        RevokeAccess { vault, parent: signer(stranger()), delegation, parent_wallet: parent() };
    assert_eq!(
        revoke_access(&mut by_stranger, &program(), NOW, 60_000, 2_000),
        Err(account_error(AccountError::ParentMismatch))
    );
    assert!(by_stranger.vault.data.unwrap().is_active);
    let mut by_delegate =
        RevokeAccess { vault, parent: signer(ephemeral()), delegation, parent_wallet: ephemeral() };
    assert_eq!(
        revoke_access(&mut by_delegate, &program(), NOW, 60_000, 2_000),
        Err(account_error(AccountError::ParentMismatch))
    );
    let mut unsigned = RevokeAccess {
        vault,
        parent: Wallet { key: parent(), is_signer: false },
        delegation,
        parent_wallet: parent(),
    };
    assert_eq!(
        revoke_access(&mut unsigned, &program(), NOW, 60_000, 2_000),
        Err(account_error(AccountError::MissingSignature))
    );
    let mut no_delegation = RevokeAccess {
        vault,
        parent: signer(parent()),
        delegation: DelegationAccount { key: delegation_key(), data: None },
        parent_wallet: parent(),
    };
    assert_eq!(
        revoke_access(&mut no_delegation, &program(), NOW, 60_000, 2_000),
        Err(account_error(AccountError::NotInitialized))
    );
    let mut given = RevokeAccess {
        vault,
        parent: signer(parent()),
        delegation: DelegationAccount { key: stranger(), data: delegation.data },
        parent_wallet: parent(),
    };
    assert_eq!(
        revoke_access(&mut given, &program(), NOW, 60_000, 2_000),
        Err(account_error(AccountError::SeedsMismatch))
    );
    let derived = Some((stranger(), delegation.data.unwrap().bump));
    assert!(revoke_access_at(&mut given, &derived, NOW, 60_000, 2_000).is_ok());
}

#[test]
fn cleanup_before_expiry_fails_and_after_it_pays_out() {
    let vault = opened(100_000);
    let mut ctx = CleanupVault {
        vault,
        parent: parent(),
        cleaner: signer(stranger()),
        parent_wallet: parent(),
    };
    assert_eq!(
        cleanup_vault(&mut ctx, NOW + 3599, 14_000, 2_000),
        Err(program_error(EphemeralVaultError::SessionNotExpired))
    );
    assert_eq!(ctx.vault, vault);

    let receipt = cleanup_vault(&mut ctx, NOW + 3600, 14_000, 2_000).unwrap();
    assert_eq!(receipt.reward, 10_000);
    assert_eq!(receipt.returned_to_parent, 2_000);
    assert_eq!(receipt.reclaimed_rent, 2_000);
    assert_eq!(
        receipt.event,
        Some(VaultCleaned { vault: vault_key(), parent: parent(), cleaner: stranger(), reward: 10_000 })
    );
    assert!(!receipt.closed.is_active);
    assert_eq!(receipt.closed.parent_wallet, parent());
    assert_eq!(ctx.vault.data, None);

    assert_eq!(
        cleanup_vault(&mut ctx, NOW + 3601, 0, 2_000),
        Err(account_error(AccountError::NotInitialized))
    );
}

#[test]
fn cleanup_reward_is_capped() {
    let vault = opened(100_000);
    for (balance, floor, reward, rest, rent) in [
        (2_000u64, 2_000u64, 0u64, 0u64, 2_000u64),
        (1_500, 2_000, 0, 0, 1_500),
        (2_001, 2_000, 1, 0, 2_000),
        (12_000, 2_000, 10_000, 0, 2_000),
        (12_001, 2_000, 10_000, 1, 2_000),
        (u64::MAX, 0, 10_000, u64::MAX - 10_000, 0),
        (0, 0, 0, 0, 0),
    ] {
        let mut ctx = CleanupVault {
            vault,
            parent: parent(),
            cleaner: signer(stranger()),
            parent_wallet: parent(),
        };
        let receipt = cleanup_vault(&mut ctx, NOW + 4000, balance, floor).unwrap();
        assert_eq!(receipt.reward, reward);
        assert_eq!(receipt.returned_to_parent, rest);
        assert_eq!(receipt.reclaimed_rent, rent);
        assert_eq!(receipt.event.is_some(), balance > floor);
        assert_eq!(ctx.vault.data, None);
    }
}

#[test]
fn cleanup_of_a_revoked_vault() {
    let vault = opened(100_000);
    let delegation = approved(vault);
    let mut revoke = RevokeAccess { vault, parent: signer(parent()), delegation, parent_wallet: parent() };
    revoke_access(&mut revoke, &program(), NOW + 20, 60_000, 2_000).unwrap();
    let mut ctx = CleanupVault {
        vault: revoke.vault,
        parent: parent(),
        cleaner: signer(parent()),
        parent_wallet: parent(),
    };
    assert_eq!(
        cleanup_vault(&mut ctx, NOW + 100, 2_000, 2_000),
        Err(program_error(EphemeralVaultError::SessionNotExpired))
    );
    let receipt = cleanup_vault(&mut ctx, NOW + 3600, 2_000, 2_000).unwrap();
    assert_eq!(receipt.reward, 0);
    assert_eq!(receipt.event, None);
    assert_eq!(ctx.vault.data, None);
}

#[test]
fn cleanup_account_checks() {
    let vault = opened(100_000);
    let mut unsigned = CleanupVault {
        vault,
        parent: parent(),
        cleaner: Wallet { key: stranger(), is_signer: false },
        parent_wallet: parent(),
    };
    assert_eq!(
        cleanup_vault(&mut unsigned, NOW + 4000, 14_000, 2_000),
        Err(account_error(AccountError::MissingSignature))
    );
    let mut other_recipient = CleanupVault {
        vault,
        parent: stranger(),
        cleaner: signer(stranger()),
        parent_wallet: parent(),
    };
    assert_eq!(
        cleanup_vault(&mut other_recipient, NOW + 4000, 14_000, 2_000),
        Err(account_error(AccountError::ParentMismatch))
    );
    let mut other_parent = CleanupVault {
        vault,
        parent: stranger(),
        cleaner: signer(stranger()),
        parent_wallet: stranger(),
    };
    assert_eq!(
        cleanup_vault(&mut other_parent, NOW + 4000, 14_000, 2_000),
        Err(account_error(AccountError::ParentMismatch))
    );
    assert_eq!(other_parent.vault, vault);
}

#[test]
fn vault_guards() {
    let vault = opened(100_000).data.unwrap();
    assert_eq!(ensure_vault_active_and_not_expired(&vault, NOW + 3600), Ok(()));
    assert_eq!(
        ensure_vault_active_and_not_expired(&vault, NOW + 3601),
        Err(EphemeralVaultError::SessionExpired)
    );
    assert_eq!(ensure_vault_not_already_inactive(&vault), Ok(()));
    let inactive = EphemeralVault { is_active: false, ..vault };
    assert_eq!(
        ensure_vault_active_and_not_expired(&inactive, NOW),
        Err(EphemeralVaultError::VaultInactive)
    );
    assert_eq!(
        ensure_vault_active_and_not_expired(&inactive, NOW + 9999),
        Err(EphemeralVaultError::VaultInactive)
    );
    assert_eq!(
        ensure_vault_not_already_inactive(&inactive),
        Err(EphemeralVaultError::VaultInactive)
    );
}

#[test]
fn totals_stay_in_order_along_a_history() {
    let mut vault = opened(1_000);
    let delegation = approved(vault);
    let steps: [(bool, u64); 12] = [
        (true, 400),
        (false, 300),
        (false, 200),
        (true, 700),
        (true, 600),
        (false, 500),
        (false, 101),
        (true, 1),
        (false, 100),
        (true, u64::MAX),
        (false, u64::MAX),
        (false, 1),
    ];
    for (i, (is_deposit, amount)) in steps.into_iter().enumerate() {
        let before = vault;
        let ok = if is_deposit {
            deposit(&mut vault, NOW + i as i64, amount).is_ok()
        } else {
            trade(&mut vault, delegation, NOW + i as i64, amount).is_ok()
        };
        let record = vault.data.unwrap();
        assert!(record.total_spent <= record.total_deposited);
        assert!(record.total_deposited <= record.max_deposit);
        if !ok {
            assert_eq!(vault, before);
        }
    }
    let record = vault.data.unwrap();
    assert_eq!(record.total_deposited, 1_000);
    assert_eq!(record.total_spent, 902);
}
