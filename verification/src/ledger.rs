//! The vault ledger's state machine.
//!
//! A vault goes from nothing to active, from active to inactive by revocation
//! or expiry, and from there to nothing again by cleanup. Each transaction is
//! one function: it checks the accounts, then the program's rules, and either
//! changes the records and reports an event or changes nothing and reports
//! why. The clock and the balances are the ledger's and come in as arguments;
//! transfers to identities go out as amounts.

use crate::accounts::derived_bump;
use crate::accounts::derived_view;
use crate::accounts::ApproveDelegate;
use crate::accounts::AutoDeposit;
use crate::accounts::CleanupVault;
use crate::accounts::CreateVault;
use crate::accounts::DelegationAccount;
use crate::accounts::ExecuteTrade;
use crate::accounts::RevokeAccess;
use crate::accounts::VaultAccount;
use crate::address::Address;
use crate::events;
use crate::events::AccessRevoked;
use crate::events::DelegateApproved;
use crate::events::TradeExecuted;
use crate::events::VaultCleaned;
use crate::events::VaultCreated;
use crate::vault::AccountError;
use crate::vault::EphemeralVault;
use crate::vault::EphemeralVaultError;
use crate::vault::LedgerError;
use crate::vault::VaultDelegation;
use vstd::prelude::*;

verus! {

/// The most that cleaning up a vault pays its caller, whatever the vault
/// holds.
pub const MAX_CLEANUP_REWARD_LAMPORTS: u64 = 10_000;

/// What `revoke_access` did.
#[derive(Debug, Clone, Copy, PartialEq, Eq)]
pub struct RevokeReceipt {
    pub event: AccessRevoked,
    /// Lamports moved from the vault to the parent.
    pub returned_to_parent: u64,
}

/// What `cleanup_vault` did.
#[derive(Debug, Clone, Copy, PartialEq, Eq)]
pub struct CleanupReceipt {
    /// Announced only where the vault held more than its rent floor.
    pub event: Option<VaultCleaned>,
    /// The record as it was destroyed: inactive.
    pub closed: EphemeralVault,
    /// Lamports paid to the cleaner.
    pub reward: u64,
    /// Lamports above the rent floor that went back to the parent.
    pub returned_to_parent: u64,
    /// Lamports of the rent floor, which go to the parent with the storage.
    pub reclaimed_rent: u64,
}

/// An account refusal as a transaction's failure.
pub open spec fn account_refusal(refusal: Option<AccountError>) -> Option<LedgerError> {
    match refusal {
        Some(e) => Some(LedgerError::Account(e)),
        None => None,
    }
}

/// A program rejection as a transaction's failure.
pub open spec fn program_refusal(refusal: Option<EphemeralVaultError>) -> Option<LedgerError> {
    match refusal {
        Some(e) => Some(LedgerError::Program(e)),
        None => None,
    }
}

/// `Ok` with the report where nothing is refused, else the refusal.
pub open spec fn report_unless_refused<T>(refusal: Option<LedgerError>, report: T) -> Result<
    T,
    LedgerError,
> {
    match refusal {
        Some(e) => Err(e),
        None => Ok(report),
    }
}

/// The first of two refusals that is one.
pub open spec fn first_refusal(first: Option<LedgerError>, second: Option<LedgerError>) -> Option<
    LedgerError,
> {
    if first is Some {
        first
    } else {
        second
    }
}

/// Why a vault may not be spent from or deposited into at `now`: it is
/// inactive, or its expiry has passed.
pub open spec fn spend_refusal(vault: EphemeralVault, now: i64) -> Option<EphemeralVaultError> {
    if !vault.is_active {
        Some(EphemeralVaultError::VaultInactive)
    } else if now > vault.session_expiry {
        Some(EphemeralVaultError::SessionExpired)
    } else {
        None
    }
}

/// What a vault holds above its rent floor.
pub open spec fn available_balance(vault_balance: u64, min_balance: u64) -> u64 {
    if vault_balance > min_balance {
        (vault_balance - min_balance) as u64
    } else {
        0
    }
}

/// What cleaning up pays the cleaner: the available balance, capped.
pub open spec fn cleanup_reward(vault_balance: u64, min_balance: u64) -> u64 {
    if available_balance(vault_balance, min_balance) <= MAX_CLEANUP_REWARD_LAMPORTS {
        available_balance(vault_balance, min_balance)
    } else {
        MAX_CLEANUP_REWARD_LAMPORTS
    }
}

/// Refuses a vault that is inactive or past its expiry.
pub fn ensure_vault_active_and_not_expired(vault: &EphemeralVault, now: i64) -> (result: Result<
    (),
    EphemeralVaultError,
>)
    ensures
        match result {
            Ok(_) => spend_refusal(*vault, now) is None && vault.spendable_at(now),
            Err(e) => spend_refusal(*vault, now) == Some(e),
        },
{
    if !vault.is_active {
        return Err(EphemeralVaultError::VaultInactive);
    }
    if now > vault.session_expiry {
        return Err(EphemeralVaultError::SessionExpired);
    }
    Ok(())
}

/// Refuses a vault that is inactive already.
pub fn ensure_vault_not_already_inactive(vault: &EphemeralVault) -> (result: Result<
    (),
    EphemeralVaultError,
>)
    ensures
        match result {
            Ok(_) => vault.is_active,
            Err(e) => !vault.is_active && e == EphemeralVaultError::VaultInactive,
        },
{
    if !vault.is_active {
        return Err(EphemeralVaultError::VaultInactive);
    }
    Ok(())
}

/// Why `create_vault` fails, if it does, where `derived` is the address
/// derived for the vault: the accounts are refused, or the expiry does not fit
/// a timestamp.
pub open spec fn create_vault_refusal_at(
    ctx: CreateVault,
    derived: Option<(Seq<u8>, u8)>,
    now: i64,
    session_duration: i64,
) -> Option<LedgerError> {
    first_refusal(
        account_refusal(ctx.refusal_at(derived)),
        if i64::MIN <= now + session_duration <= i64::MAX {
            None
        } else {
            Some(LedgerError::Program(EphemeralVaultError::MathOverflow))
        },
    )
}

/// The record that `create_vault` writes.
pub open spec fn created_vault(
    ctx: CreateVault,
    bump: u8,
    now: i64,
    session_duration: i64,
    max_deposit: u64,
) -> EphemeralVault {
    EphemeralVault {
        parent_wallet: ctx.parent.key,
        ephemeral_wallet: ctx.ephemeral_wallet,
        session_start: now,
        session_expiry: (now + session_duration) as i64,
        is_active: true,
        total_deposited: 0,
        total_spent: 0,
        max_deposit,
        bump,
    }
}

/// The accounts after `create_vault`: the record written where it succeeds,
/// untouched where it fails.
pub open spec fn create_vault_outcome_at(
    ctx: CreateVault,
    derived: Option<(Seq<u8>, u8)>,
    now: i64,
    session_duration: i64,
    max_deposit: u64,
) -> CreateVault {
    if create_vault_refusal_at(ctx, derived, now, session_duration) is None {
        CreateVault {
            parent: ctx.parent,
            ephemeral_wallet: ctx.ephemeral_wallet,
            vault: VaultAccount {
                key: ctx.vault.key,
                data: Some(
                    created_vault(ctx, derived_bump(derived), now, session_duration, max_deposit),
                ),
            },
        }
    } else {
        ctx
    }
}

/// What `create_vault` announces.
pub open spec fn create_vault_report(
    ctx: CreateVault,
    now: i64,
    session_duration: i64,
    max_deposit: u64,
) -> VaultCreated {
    VaultCreated {
        parent: ctx.parent.key,
        vault: ctx.vault.key,
        ephemeral_wallet: ctx.ephemeral_wallet,
        max_deposit,
        session_start: now,
        session_expiry: (now + session_duration) as i64,
    }
}

/// Why `create_vault` fails under the program, if it does.
pub open spec fn create_vault_refusal(
    ctx: CreateVault,
    program_id: Address,
    now: i64,
    session_duration: i64,
) -> Option<LedgerError> {
    create_vault_refusal_at(ctx, ctx.derived(program_id), now, session_duration)
}

/// The accounts after `create_vault` under the program.
pub open spec fn create_vault_outcome(
    ctx: CreateVault,
    program_id: Address,
    now: i64,
    session_duration: i64,
    max_deposit: u64,
) -> CreateVault {
    create_vault_outcome_at(ctx, ctx.derived(program_id), now, session_duration, max_deposit)
}

/// Opens the vault of `(parent, ephemeral_wallet)`, given the address that
/// was derived for it: active, with nothing deposited and nothing spent,
/// expiring `session_duration` seconds after `now`.
///
/// A second attempt for the same pair finds the record at the same address and
/// fails with `AlreadyInUse`: the vault is there.
pub fn create_vault_at(
    ctx: &mut CreateVault,
    derived: &Option<(Address, u8)>,
    now: i64,
    session_duration: i64,
    max_deposit: u64,
) -> (result: Result<VaultCreated, LedgerError>)
    ensures
        result == report_unless_refused(
            create_vault_refusal_at(*old(ctx), derived_view(*derived), now, session_duration),
            create_vault_report(*old(ctx), now, session_duration, max_deposit),
        ),
        *final(ctx) == create_vault_outcome_at(
            *old(ctx),
            derived_view(*derived),
            now,
            session_duration,
            max_deposit,
        ),
{
    let bump: u8 = match ctx.check(derived) {
        Ok(bump) => bump,
        Err(e) => {
            return Err(LedgerError::Account(e));
        },
    };
    let session_expiry: i64 = match now.checked_add(session_duration) {
        Some(expiry) => expiry,
        None => {
            return Err(LedgerError::Program(EphemeralVaultError::MathOverflow));
        },
    };
    ctx.vault.data = Some(
        EphemeralVault {
            parent_wallet: ctx.parent.key,
            ephemeral_wallet: ctx.ephemeral_wallet,
            session_start: now,
            session_expiry,
            is_active: true,
            total_deposited: 0,
            total_spent: 0,
            max_deposit,
            bump,
        },
    );
    Ok(
        VaultCreated {
            parent: ctx.parent.key,
            vault: ctx.vault.key,
            ephemeral_wallet: ctx.ephemeral_wallet,
            max_deposit,
            session_start: now,
            session_expiry,
        },
    )
}

/// Opens the vault of `(parent, ephemeral_wallet)` under the program
/// `program_id`.
///
/// The vault's address is derived from the pair, so a retried creation fails
/// with `AlreadyInUse` and creates no second vault.
pub fn create_vault(
    ctx: &mut CreateVault,
    program_id: &Address,
    now: i64,
    session_duration: i64,
    max_deposit: u64,
) -> (result: Result<VaultCreated, LedgerError>)
    ensures
        result == report_unless_refused(
            create_vault_refusal(*old(ctx), *program_id, now, session_duration),
            create_vault_report(*old(ctx), now, session_duration, max_deposit),
        ),
        *final(ctx) == create_vault_outcome(
            *old(ctx),
            *program_id,
            now,
            session_duration,
            max_deposit,
        ),
{
    let derived = Address::derive_vault(program_id, &ctx.parent.key, &ctx.ephemeral_wallet);
    create_vault_at(ctx, &derived, now, session_duration, max_deposit)
}

/// Why `approve_delegate` fails, if it does, where `derived` is the address
/// derived for the delegation: the accounts are refused, or the delegate is not
/// the vault's ephemeral identity.
pub open spec fn approve_delegate_refusal_at(
    ctx: ApproveDelegate,
    derived: Option<(Seq<u8>, u8)>,
    delegate: Address,
) -> Option<LedgerError> {
    first_refusal(
        account_refusal(ctx.refusal_at(derived)),
        if delegate != ctx.vault.data->0.ephemeral_wallet {
            Some(LedgerError::Program(EphemeralVaultError::InvalidDelegate))
        } else {
            None
        },
    )
}

/// The accounts after `approve_delegate`: the delegation written where it
/// succeeds, untouched where it fails.
pub open spec fn approve_delegate_outcome_at(
    ctx: ApproveDelegate,
    derived: Option<(Seq<u8>, u8)>,
    now: i64,
    delegate: Address,
) -> ApproveDelegate {
    if approve_delegate_refusal_at(ctx, derived, delegate) is None {
        ApproveDelegate {
            vault: ctx.vault,
            parent: ctx.parent,
            delegation: DelegationAccount {
                key: ctx.delegation.key,
                data: Some(
                    VaultDelegation {
                        vault: ctx.vault.key,
                        delegate,
                        approved_at: now,
                        revoked_at: None,
                        bump: derived_bump(derived),
                    },
                ),
            },
        }
    } else {
        ctx
    }
}

/// What `approve_delegate` announces.
pub open spec fn approve_delegate_report(ctx: ApproveDelegate, now: i64, delegate: Address) -> DelegateApproved {
    DelegateApproved { vault: ctx.vault.key, delegate, approved_at: now }
}

/// Why `approve_delegate` fails under the program, if it does.
pub open spec fn approve_delegate_refusal(
    ctx: ApproveDelegate,
    program_id: Address,
    delegate: Address,
) -> Option<LedgerError> {
    approve_delegate_refusal_at(ctx, ctx.derived(program_id), delegate)
}

/// The accounts after `approve_delegate` under the program.
pub open spec fn approve_delegate_outcome(
    ctx: ApproveDelegate,
    program_id: Address,
    now: i64,
    delegate: Address,
) -> ApproveDelegate {
    approve_delegate_outcome_at(ctx, ctx.derived(program_id), now, delegate)
}

/// Binds `delegate` to the vault as its one authorised spender, given the
/// address that was derived for the delegation record.
pub fn approve_delegate_at(
    ctx: &mut ApproveDelegate,
    derived: &Option<(Address, u8)>,
    now: i64,
    delegate: Address,
) -> (result: Result<DelegateApproved, LedgerError>)
    ensures
        result == report_unless_refused(
            approve_delegate_refusal_at(*old(ctx), derived_view(*derived), delegate),
            approve_delegate_report(*old(ctx), now, delegate),
        ),
        *final(ctx) == approve_delegate_outcome_at(
            *old(ctx),
            derived_view(*derived),
            now,
            delegate,
        ),
{
    let bump: u8 = match ctx.check(derived) {
        Ok(bump) => bump,
        Err(e) => {
            return Err(LedgerError::Account(e));
        },
    };
    let vault = match ctx.vault.data {
        Some(vault) => vault,
        None => {
            return Err(LedgerError::Account(AccountError::NotInitialized));
        },
    };
    if !delegate.same_as(&vault.ephemeral_wallet) {
        return Err(LedgerError::Program(EphemeralVaultError::InvalidDelegate));
    }
    ctx.delegation.data = Some(
        VaultDelegation {
            vault: ctx.vault.key,
            delegate,
            approved_at: now,
            revoked_at: None,
            bump,
        },
    );
    Ok(DelegateApproved { vault: ctx.vault.key, delegate, approved_at: now })
}

/// Binds `delegate` to the vault as its one authorised spender.
///
/// The record's address is derived from the vault's address alone, so a vault
/// never has a second delegation.
pub fn approve_delegate(
    ctx: &mut ApproveDelegate,
    program_id: &Address,
    now: i64,
    delegate: Address,
) -> (result: Result<DelegateApproved, LedgerError>)
    ensures
        result == report_unless_refused(
            approve_delegate_refusal(*old(ctx), *program_id, delegate),
            approve_delegate_report(*old(ctx), now, delegate),
        ),
        *final(ctx) == approve_delegate_outcome(*old(ctx), *program_id, now, delegate),
{
    let derived = Address::derive_delegation(program_id, &ctx.vault.key);
    approve_delegate_at(ctx, &derived, now, delegate)
}

/// Why a deposit of `amount` into `vault` is rejected at `now`, if it is.
pub open spec fn deposit_rejection(vault: EphemeralVault, now: i64, amount: u64) -> Option<
    EphemeralVaultError,
> {
    if spend_refusal(vault, now) is Some {
        spend_refusal(vault, now)
    } else if vault.total_deposited + amount > u64::MAX {
        Some(EphemeralVaultError::MathOverflow)
    } else if vault.total_deposited + amount > vault.max_deposit {
        Some(EphemeralVaultError::OverDeposit)
    } else {
        None
    }
}

/// Why `auto_deposit_for_trade` fails, if it does.
pub open spec fn auto_deposit_refusal(ctx: AutoDeposit, now: i64, amount: u64) -> Option<
    LedgerError,
> {
    first_refusal(
        account_refusal(ctx.refusal()),
        program_refusal(deposit_rejection(ctx.vault.data->0, now, amount)),
    )
}

/// The vault after a deposit of `amount`.
pub open spec fn vault_after_deposit(vault: EphemeralVault, amount: u64) -> EphemeralVault {
    EphemeralVault { total_deposited: (vault.total_deposited + amount) as u64, ..vault }
}

/// The accounts after `auto_deposit_for_trade`: changed where it succeeds,
/// untouched where it fails.
pub open spec fn auto_deposit_outcome(ctx: AutoDeposit, now: i64, amount: u64) -> AutoDeposit {
    if auto_deposit_refusal(ctx, now, amount) is None {
        AutoDeposit {
            vault: VaultAccount {
                key: ctx.vault.key,
                data: Some(vault_after_deposit(ctx.vault.data->0, amount)),
            },
            parent: ctx.parent,
        }
    } else {
        ctx
    }
}

/// What `auto_deposit_for_trade` announces: the amount that the ledger moves
/// from the parent to the vault, and the new total.
pub open spec fn auto_deposit_report(ctx: AutoDeposit, amount: u64) -> events::AutoDeposit {
    events::AutoDeposit {
        vault: ctx.vault.key,
        amount,
        total_deposited: (ctx.vault.data->0.total_deposited + amount) as u64,
    }
}

/// Deposits `trade_fee_estimate` lamports of the parent into the vault.
///
/// Rejected while the vault is inactive or expired, and where the deposits
/// would pass the cap; the sum is checked, never wrapped. A rejected deposit
/// leaves the totals as they were. After every call, accepted or not, a vault
/// whose deposits were within the cap has them within the cap.
pub fn auto_deposit_for_trade(ctx: &mut AutoDeposit, now: i64, trade_fee_estimate: u64) -> (result:
    Result<events::AutoDeposit, LedgerError>)
    ensures
        result == report_unless_refused(
            auto_deposit_refusal(*old(ctx), now, trade_fee_estimate),
            auto_deposit_report(*old(ctx), trade_fee_estimate),
        ),
        *final(ctx) == auto_deposit_outcome(*old(ctx), now, trade_fee_estimate),
        result is Ok ==> final(ctx).vault.data->0.total_deposited <= final(
            ctx
        ).vault.data->0.max_deposit,
        result is Err ==> *final(ctx) == *old(ctx),
{
    match ctx.validate() {
        Ok(_) => {},
        Err(e) => {
            return Err(LedgerError::Account(e));
        },
    }
    let vault = match ctx.vault.data {
        Some(vault) => vault,
        None => {
            return Err(LedgerError::Account(AccountError::NotInitialized));
        },
    };
    match ensure_vault_active_and_not_expired(&vault, now) {
        Ok(_) => {},
        Err(e) => {
            return Err(LedgerError::Program(e));
        },
    }
    let new_total: u64 = match vault.total_deposited.checked_add(trade_fee_estimate) {
        Some(total) => total,
        None => {
            return Err(LedgerError::Program(EphemeralVaultError::MathOverflow));
        },
    };
    if new_total > vault.max_deposit {
        return Err(LedgerError::Program(EphemeralVaultError::OverDeposit));
    }
    ctx.vault.data = Some(EphemeralVault { total_deposited: new_total, ..vault });
    Ok(
        events::AutoDeposit {
            vault: ctx.vault.key,
            amount: trade_fee_estimate,
            total_deposited: new_total,
        },
    )
}

/// Why a trade that costs `fee_paid` is rejected at `now`, if it is: the vault
/// cannot be spent from, the delegation is another vault's or revoked or names
/// another delegate than the signer, or the fee passes what was deposited.
pub open spec fn trade_rejection(
    vault: EphemeralVault,
    vault_key: Address,
    delegation: VaultDelegation,
    signer: Address,
    now: i64,
    fee_paid: u64,
) -> Option<EphemeralVaultError> {
    if spend_refusal(vault, now) is Some {
        spend_refusal(vault, now)
    } else if delegation.vault != vault_key {
        Some(EphemeralVaultError::InvalidDelegationAccount)
    } else if delegation.revoked_at is Some {
        Some(EphemeralVaultError::DelegationRevoked)
    } else if delegation.delegate != signer {
        Some(EphemeralVaultError::InvalidDelegate)
    } else if vault.total_spent + fee_paid > u64::MAX {
        Some(EphemeralVaultError::MathOverflow)
    } else if vault.total_spent + fee_paid > vault.total_deposited {
        Some(EphemeralVaultError::InsufficientVaultBalance)
    } else {
        None
    }
}

/// Why `execute_trade` fails, if it does, where `derived` is the address
/// derived for the delegation.
pub open spec fn execute_trade_refusal_at(
    ctx: ExecuteTrade,
    derived: Option<(Seq<u8>, u8)>,
    now: i64,
    fee_paid: u64,
) -> Option<LedgerError> {
    first_refusal(
        account_refusal(ctx.refusal_at(derived)),
        program_refusal(
            trade_rejection(
                ctx.vault.data->0,
                ctx.vault.key,
                ctx.delegation.data->0,
                ctx.ephemeral.key,
                now,
                fee_paid,
            ),
        ),
    )
}

/// The vault after a trade that cost `fee_paid`.
pub open spec fn vault_after_trade(vault: EphemeralVault, fee_paid: u64) -> EphemeralVault {
    EphemeralVault { total_spent: (vault.total_spent + fee_paid) as u64, ..vault }
}

/// The accounts after `execute_trade`: changed where it succeeds, untouched
/// where it fails.
pub open spec fn execute_trade_outcome_at(
    ctx: ExecuteTrade,
    derived: Option<(Seq<u8>, u8)>,
    now: i64,
    fee_paid: u64,
) -> ExecuteTrade {
    if execute_trade_refusal_at(ctx, derived, now, fee_paid) is None {
        ExecuteTrade {
            vault: VaultAccount {
                key: ctx.vault.key,
                data: Some(vault_after_trade(ctx.vault.data->0, fee_paid)),
            },
            ephemeral: ctx.ephemeral,
            delegation: ctx.delegation,
            parent_wallet: ctx.parent_wallet,
        }
    } else {
        ctx
    }
}

/// What `execute_trade` announces.
pub open spec fn execute_trade_report(ctx: ExecuteTrade, fee_paid: u64) -> TradeExecuted {
    TradeExecuted {
        vault: ctx.vault.key,
        delegate: ctx.ephemeral.key,
        fee_paid,
        total_spent: (ctx.vault.data->0.total_spent + fee_paid) as u64,
    }
}

/// Why `execute_trade` fails under the program, if it does.
pub open spec fn execute_trade_refusal(
    ctx: ExecuteTrade,
    program_id: Address,
    now: i64,
    fee_paid: u64,
) -> Option<LedgerError> {
    execute_trade_refusal_at(ctx, ctx.derived(program_id), now, fee_paid)
}

/// The accounts after `execute_trade` under the program.
pub open spec fn execute_trade_outcome(
    ctx: ExecuteTrade,
    program_id: Address,
    now: i64,
    fee_paid: u64,
) -> ExecuteTrade {
    execute_trade_outcome_at(ctx, ctx.derived(program_id), now, fee_paid)
}

/// Spends `fee_paid` lamports of the vault on a trade of the delegate, given
/// the address that was derived for the delegation record.
///
/// The ceiling is what was deposited, not the cap: the vault never owes more
/// than it was given. The sum is checked, never wrapped. A trade succeeds only
/// for the delegate of a delegation that is not revoked, signing itself.
pub fn execute_trade_at(
    ctx: &mut ExecuteTrade,
    derived: &Option<(Address, u8)>,
    now: i64,
    fee_paid: u64,
) -> (result: Result<TradeExecuted, LedgerError>)
    ensures
        result == report_unless_refused(
            execute_trade_refusal_at(*old(ctx), derived_view(*derived), now, fee_paid),
            execute_trade_report(*old(ctx), fee_paid),
        ),
        *final(ctx) == execute_trade_outcome_at(*old(ctx), derived_view(*derived), now, fee_paid),
        result is Ok ==> final(ctx).vault.data->0.total_spent <= final(
            ctx
        ).vault.data->0.total_deposited,
        result is Ok ==> old(ctx).ephemeral.is_signer && old(ctx).delegation.data->0.revoked_at
            is None && old(ctx).delegation.data->0.delegate == old(ctx).ephemeral.key,
        result is Err ==> *final(ctx) == *old(ctx),
{
    match ctx.check(derived) {
        Ok(_) => {},
        Err(e) => {
            return Err(LedgerError::Account(e));
        },
    }
    let vault = match ctx.vault.data {
        Some(vault) => vault,
        None => {
            return Err(LedgerError::Account(AccountError::NotInitialized));
        },
    };
    let delegation = match ctx.delegation.data {
        Some(delegation) => delegation,
        None => {
            return Err(LedgerError::Account(AccountError::NotInitialized));
        },
    };
    match ensure_vault_active_and_not_expired(&vault, now) {
        Ok(_) => {},
        Err(e) => {
            return Err(LedgerError::Program(e));
        },
    }
    if !delegation.vault.same_as(&ctx.vault.key) {
        return Err(LedgerError::Program(EphemeralVaultError::InvalidDelegationAccount));
    }
    if delegation.revoked_at.is_some() {
        return Err(LedgerError::Program(EphemeralVaultError::DelegationRevoked));
    }
    if !delegation.delegate.same_as(&ctx.ephemeral.key) {
        return Err(LedgerError::Program(EphemeralVaultError::InvalidDelegate));
    }
    let new_spent: u64 = match vault.total_spent.checked_add(fee_paid) {
        Some(spent) => spent,
        None => {
            return Err(LedgerError::Program(EphemeralVaultError::MathOverflow));
        },
    };
    if new_spent > vault.total_deposited {
        return Err(LedgerError::Program(EphemeralVaultError::InsufficientVaultBalance));
    }
    ctx.vault.data = Some(EphemeralVault { total_spent: new_spent, ..vault });
    Ok(
        TradeExecuted {
            vault: ctx.vault.key,
            delegate: ctx.ephemeral.key,
            fee_paid,
            total_spent: new_spent,
        },
    )
}

/// Spends `fee_paid` lamports of the vault on a trade of the delegate.
pub fn execute_trade(ctx: &mut ExecuteTrade, program_id: &Address, now: i64, fee_paid: u64) -> (result:
    Result<TradeExecuted, LedgerError>)
    ensures
        result == report_unless_refused(
            execute_trade_refusal(*old(ctx), *program_id, now, fee_paid),
            execute_trade_report(*old(ctx), fee_paid),
        ),
        *final(ctx) == execute_trade_outcome(*old(ctx), *program_id, now, fee_paid),
        result is Ok ==> final(ctx).vault.data->0.total_spent <= final(
            ctx
        ).vault.data->0.total_deposited,
        result is Ok ==> old(ctx).ephemeral.is_signer && old(ctx).delegation.data->0.revoked_at
            is None && old(ctx).delegation.data->0.delegate == old(ctx).ephemeral.key,
        result is Err ==> *final(ctx) == *old(ctx),
{
    let derived = Address::derive_delegation(program_id, &ctx.vault.key);
    execute_trade_at(ctx, &derived, now, fee_paid)
}

/// Why `revoke_access` fails, if it does, where `derived` is the address
/// derived for the delegation: the accounts are refused, which includes every
/// signer but the parent, or the vault is inactive already.
pub open spec fn revoke_access_refusal_at(ctx: RevokeAccess, derived: Option<(Seq<u8>, u8)>) -> Option<
    LedgerError,
> {
    first_refusal(
        account_refusal(ctx.refusal_at(derived)),
        if ctx.vault.data->0.is_active {
            None
        } else {
            Some(LedgerError::Program(EphemeralVaultError::VaultInactive))
        },
    )
}

/// The accounts after `revoke_access`: changed where it succeeds, untouched
/// where it fails.
pub open spec fn revoke_access_outcome_at(
    ctx: RevokeAccess,
    derived: Option<(Seq<u8>, u8)>,
    now: i64,
) -> RevokeAccess {
    if revoke_access_refusal_at(ctx, derived) is None {
        RevokeAccess {
            vault: VaultAccount {
                key: ctx.vault.key,
                data: Some(EphemeralVault { is_active: false, ..ctx.vault.data->0 }),
            },
            parent: ctx.parent,
            delegation: DelegationAccount {
                key: ctx.delegation.key,
                data: Some(VaultDelegation { revoked_at: Some(now), ..ctx.delegation.data->0 }),
            },
            parent_wallet: ctx.parent_wallet,
        }
    } else {
        ctx
    }
}

/// What `revoke_access` reports: the event, and what the vault held above its
/// rent floor, which goes back to the parent.
pub open spec fn revoke_access_report(
    ctx: RevokeAccess,
    now: i64,
    vault_balance: u64,
    min_balance: u64,
) -> RevokeReceipt {
    RevokeReceipt {
        event: AccessRevoked { vault: ctx.vault.key, parent: ctx.parent.key, revoked_at: now },
        returned_to_parent: available_balance(vault_balance, min_balance),
    }
}

/// Why `revoke_access` fails under the program, if it does.
pub open spec fn revoke_access_refusal(ctx: RevokeAccess, program_id: Address) -> Option<
    LedgerError,
> {
    revoke_access_refusal_at(ctx, ctx.derived(program_id))
}

/// The accounts after `revoke_access` under the program.
pub open spec fn revoke_access_outcome(ctx: RevokeAccess, program_id: Address, now: i64) -> RevokeAccess {
    revoke_access_outcome_at(ctx, ctx.derived(program_id), now)
}

/// Ends the delegate's right to spend, given the address that was derived for
/// the delegation record.
///
/// Only the vault's parent can do it, and only once. The vault becomes
/// inactive, the delegation is marked revoked at `now`, and all that the vault
/// holds above `min_balance`, its rent floor, goes back to the parent. The
/// record stays until it is cleaned up.
pub fn revoke_access_at(
    ctx: &mut RevokeAccess,
    derived: &Option<(Address, u8)>,
    now: i64,
    vault_balance: u64,
    min_balance: u64,
) -> (result: Result<RevokeReceipt, LedgerError>)
    ensures
        result == report_unless_refused(
            revoke_access_refusal_at(*old(ctx), derived_view(*derived)),
            revoke_access_report(*old(ctx), now, vault_balance, min_balance),
        ),
        *final(ctx) == revoke_access_outcome_at(*old(ctx), derived_view(*derived), now),
        result is Ok ==> old(ctx).parent.is_signer && old(ctx).parent.key == old(
            ctx
        ).vault.data->0.parent_wallet,
        result is Err ==> *final(ctx) == *old(ctx),
{
    match ctx.check(derived) {
        Ok(_) => {},
        Err(e) => {
            return Err(LedgerError::Account(e));
        },
    }
    let vault = match ctx.vault.data {
        Some(vault) => vault,
        None => {
            return Err(LedgerError::Account(AccountError::NotInitialized));
        },
    };
    let delegation = match ctx.delegation.data {
        Some(delegation) => delegation,
        None => {
            return Err(LedgerError::Account(AccountError::NotInitialized));
        },
    };
    match ensure_vault_not_already_inactive(&vault) {
        Ok(_) => {},
        Err(e) => {
            return Err(LedgerError::Program(e));
        },
    }
    let mut returned_to_parent: u64 = 0;
    if vault_balance > min_balance {
        returned_to_parent = vault_balance - min_balance;
    }
    ctx.vault.data = Some(EphemeralVault { is_active: false, ..vault });
    ctx.delegation.data = Some(VaultDelegation { revoked_at: Some(now), ..delegation });
    Ok(
        RevokeReceipt {
            event: AccessRevoked { vault: ctx.vault.key, parent: ctx.parent.key, revoked_at: now },
            returned_to_parent,
        },
    )
}

/// Ends the delegate's right to spend.
pub fn revoke_access(
    ctx: &mut RevokeAccess,
    program_id: &Address,
    now: i64,
    vault_balance: u64,
    min_balance: u64,
) -> (result: Result<RevokeReceipt, LedgerError>)
    ensures
        result == report_unless_refused(
            revoke_access_refusal(*old(ctx), *program_id),
            revoke_access_report(*old(ctx), now, vault_balance, min_balance),
        ),
        *final(ctx) == revoke_access_outcome(*old(ctx), *program_id, now),
        result is Ok ==> old(ctx).parent.is_signer && old(ctx).parent.key == old(
            ctx
        ).vault.data->0.parent_wallet,
        result is Err ==> *final(ctx) == *old(ctx),
{
    let derived = Address::derive_delegation(program_id, &ctx.vault.key);
    revoke_access_at(ctx, &derived, now, vault_balance, min_balance)
}

/// Why `cleanup_vault` fails, if it does: the accounts are refused, or the
/// session's expiry has not been reached.
pub open spec fn cleanup_vault_refusal(ctx: CleanupVault, now: i64) -> Option<LedgerError> {
    first_refusal(
        account_refusal(ctx.refusal()),
        if ctx.vault.data->0.expired_at(now) {
            None
        } else {
            Some(LedgerError::Program(EphemeralVaultError::SessionNotExpired))
        },
    )
}

/// The accounts after `cleanup_vault`: the record gone where it succeeds,
/// untouched where it fails.
pub open spec fn cleanup_vault_outcome(ctx: CleanupVault, now: i64) -> CleanupVault {
    if cleanup_vault_refusal(ctx, now) is None {
        CleanupVault {
            vault: VaultAccount { key: ctx.vault.key, data: None },
            parent: ctx.parent,
            cleaner: ctx.cleaner,
            parent_wallet: ctx.parent_wallet,
        }
    } else {
        ctx
    }
}

/// What `cleanup_vault` reports: who gets what of the vault's balance.
pub open spec fn cleanup_vault_report(ctx: CleanupVault, vault_balance: u64, min_balance: u64) -> CleanupReceipt {
    CleanupReceipt {
        event: if vault_balance > min_balance {
            Some(
                VaultCleaned {
                    vault: ctx.vault.key,
                    parent: ctx.parent,
                    cleaner: ctx.cleaner.key,
                    reward: cleanup_reward(vault_balance, min_balance),
                },
            )
        } else {
            None
        },
        closed: EphemeralVault { is_active: false, ..ctx.vault.data->0 },
        reward: cleanup_reward(vault_balance, min_balance),
        returned_to_parent: (available_balance(vault_balance, min_balance) - cleanup_reward(
            vault_balance,
            min_balance,
        )) as u64,
        reclaimed_rent: (vault_balance - available_balance(vault_balance, min_balance)) as u64,
    }
}

/// Destroys an expired vault and hands out what it holds.
///
/// Anyone may call it once `now` has reached the expiry, never before; an
/// early call fails and leaves the record as it was. The caller is paid what
/// the vault holds above `min_balance`, its rent floor, but no more than
/// `MAX_CLEANUP_REWARD_LAMPORTS`; the rest goes to the parent, and so does the
/// rent floor when the storage is given up.
pub fn cleanup_vault(ctx: &mut CleanupVault, now: i64, vault_balance: u64, min_balance: u64) -> (result:
    Result<CleanupReceipt, LedgerError>)
    ensures
        result == report_unless_refused(
            cleanup_vault_refusal(*old(ctx), now),
            cleanup_vault_report(*old(ctx), vault_balance, min_balance),
        ),
        *final(ctx) == cleanup_vault_outcome(*old(ctx), now),
        result is Ok ==> now >= old(ctx).vault.data->0.session_expiry && final(ctx).vault.data
            is None,
        result matches Ok(receipt) ==> receipt.reward <= MAX_CLEANUP_REWARD_LAMPORTS
            && receipt.reward + receipt.returned_to_parent + receipt.reclaimed_rent
            == vault_balance,
        result is Err ==> *final(ctx) == *old(ctx),
{
    match ctx.validate() {
        Ok(_) => {},
        Err(e) => {
            return Err(LedgerError::Account(e));
        },
    }
    let vault = match ctx.vault.data {
        Some(vault) => vault,
        None => {
            return Err(LedgerError::Account(AccountError::NotInitialized));
        },
    };
    if now < vault.session_expiry {
        return Err(LedgerError::Program(EphemeralVaultError::SessionNotExpired));
    }
    let closed = EphemeralVault { is_active: false, ..vault };
    let mut reward: u64 = 0;
    let mut returned_to_parent: u64 = 0;
    let mut reclaimed_rent: u64 = vault_balance;
    let mut event: Option<VaultCleaned> = None;
    if vault_balance > min_balance {
        let available: u64 = vault_balance - min_balance;
        reward =
        if available <= MAX_CLEANUP_REWARD_LAMPORTS {
            available
        } else {
            MAX_CLEANUP_REWARD_LAMPORTS
        };
        returned_to_parent = available - reward;
        reclaimed_rent = min_balance;
        event =
        Some(
            VaultCleaned { vault: ctx.vault.key, parent: ctx.parent, cleaner: ctx.cleaner.key, reward },
        );
    }
    ctx.vault.data = None;
    Ok(CleanupReceipt { event, closed, reward, returned_to_parent, reclaimed_rent })
}

} // verus!
