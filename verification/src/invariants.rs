//! What holds of a vault along every history of transactions.
//!
//! A history is a sequence of calls against one vault and its delegation, by
//! any signers, at any times, with any amounts. Each call is applied as its
//! function in `ledger` applies it: a call that fails changes nothing.

use crate::accounts::ApproveDelegate;
use crate::accounts::AutoDeposit;
use crate::accounts::CleanupVault;
use crate::accounts::DelegationAccount;
use crate::accounts::ExecuteTrade;
use crate::accounts::RevokeAccess;
use crate::accounts::VaultAccount;
use crate::accounts::Wallet;
use crate::address::Address;
use crate::accounts::CreateVault;
use crate::ledger::approve_delegate_outcome;
use crate::ledger::approve_delegate_refusal;
use crate::ledger::create_vault_outcome;
use crate::ledger::create_vault_refusal;
use crate::ledger::auto_deposit_outcome;
use crate::ledger::cleanup_vault_outcome;
use crate::ledger::cleanup_vault_refusal;
use crate::ledger::execute_trade_outcome;
use crate::ledger::execute_trade_refusal;
use crate::ledger::revoke_access_outcome;
use crate::ledger::revoke_access_refusal;
use crate::vault::AccountError;
use crate::vault::EphemeralVaultError;
use crate::vault::LedgerError;
use vstd::prelude::*;

verus! {

/// What the ledger stores for one vault: its record and its delegation.
pub struct LedgerState {
    pub vault: VaultAccount,
    pub delegation: DelegationAccount,
}

/// One transaction against an existing vault, with the identities it names
/// and the time at which the ledger applies it.
pub enum Call {
    ApproveDelegate { parent: Wallet, now: i64, delegate: Address },
    AutoDeposit { parent: Wallet, now: i64, amount: u64 },
    ExecuteTrade { ephemeral: Wallet, parent_wallet: Address, now: i64, fee_paid: u64 },
    RevokeAccess { parent: Wallet, parent_wallet: Address, now: i64 },
    CleanupVault { recipient: Address, cleaner: Wallet, parent_wallet: Address, now: i64 },
}

/// The accounts of a trade against `state`.
pub open spec fn trade_accounts(state: LedgerState, ephemeral: Wallet, parent_wallet: Address) -> ExecuteTrade {
    ExecuteTrade { vault: state.vault, ephemeral, delegation: state.delegation, parent_wallet }
}

/// The accounts of an approval against `state`.
pub open spec fn approve_accounts(state: LedgerState, parent: Wallet) -> ApproveDelegate {
    ApproveDelegate { vault: state.vault, parent, delegation: state.delegation }
}

/// The accounts of a creation, as they were before any record was there.
pub open spec fn before_creation(ctx: CreateVault) -> CreateVault {
    CreateVault {
        parent: ctx.parent,
        ephemeral_wallet: ctx.ephemeral_wallet,
        vault: VaultAccount { key: ctx.vault.key, data: None },
    }
}

/// The accounts of a revocation against `state`.
pub open spec fn revoke_accounts(state: LedgerState, parent: Wallet, parent_wallet: Address) -> RevokeAccess {
    RevokeAccess { vault: state.vault, parent, delegation: state.delegation, parent_wallet }
}

/// The state after one call.
pub open spec fn step(state: LedgerState, program_id: Address, call: Call) -> LedgerState {
    match call {
        Call::ApproveDelegate { parent, now, delegate } => {
            let after = approve_delegate_outcome(
                approve_accounts(state, parent),
                program_id,
                now,
                delegate,
            );
            LedgerState { vault: after.vault, delegation: after.delegation }
        },
        Call::AutoDeposit { parent, now, amount } => {
            let after = auto_deposit_outcome(AutoDeposit { vault: state.vault, parent }, now, amount);
            LedgerState { vault: after.vault, delegation: state.delegation }
        },
        Call::ExecuteTrade { ephemeral, parent_wallet, now, fee_paid } => {
            let after = execute_trade_outcome(
                trade_accounts(state, ephemeral, parent_wallet),
                program_id,
                now,
                fee_paid,
            );
            LedgerState { vault: after.vault, delegation: after.delegation }
        },
        Call::RevokeAccess { parent, parent_wallet, now } => {
            let after = revoke_access_outcome(
                revoke_accounts(state, parent, parent_wallet),
                program_id,
                now,
            );
            LedgerState { vault: after.vault, delegation: after.delegation }
        },
        Call::CleanupVault { recipient, cleaner, parent_wallet, now } => {
            let after = cleanup_vault_outcome(
                CleanupVault { vault: state.vault, parent: recipient, cleaner, parent_wallet },
                now,
            );
            LedgerState { vault: after.vault, delegation: state.delegation }
        },
    }
}

/// The state after a history of calls, applied in order.
pub open spec fn replay(state: LedgerState, program_id: Address, calls: Seq<Call>) -> LedgerState
    decreases calls.len(),
{
    if calls.len() == 0 {
        state
    } else {
        step(replay(state, program_id, calls.drop_last()), program_id, calls.last())
    }
}

/// While the record exists, no more is spent than was deposited and no more
/// deposited than the cap allows.
pub open spec fn totals_in_order(state: LedgerState) -> bool {
    state.vault.data matches Some(vault) ==> vault.totals_in_order()
}

/// The vault cannot be spent from: it is inactive, or its record is gone.
pub open spec fn closed_for_spending(state: LedgerState) -> bool {
    state.vault.data matches Some(vault) ==> !vault.is_active
}

/// The delegation exists and is marked revoked.
pub open spec fn delegation_revoked(state: LedgerState) -> bool {
    state.delegation.data matches Some(delegation) && delegation.revoked_at is Some
}

/// The custody invariant holds after every history: `total_spent <=
/// total_deposited <= max_deposit`.
pub proof fn lemma_totals_stay_in_order(state: LedgerState, program_id: Address, calls: Seq<Call>)
    requires
        totals_in_order(state),
    ensures
        totals_in_order(replay(state, program_id, calls)),
    decreases calls.len(),
{
    if calls.len() > 0 {
        lemma_totals_stay_in_order(state, program_id, calls.drop_last());
    }
}

/// Along every history of deposits, `total_deposited` stays within
/// `max_deposit`.
pub proof fn lemma_deposits_never_pass_the_cap(
    state: LedgerState,
    program_id: Address,
    calls: Seq<Call>,
)
    requires
        state.vault.data matches Some(vault) ==> vault.total_deposited <= vault.max_deposit,
        forall|i: int| 0 <= i < calls.len() ==> #[trigger] calls[i] is AutoDeposit,
    ensures
        replay(state, program_id, calls).vault.data matches Some(vault) ==> vault.total_deposited
            <= vault.max_deposit,
    decreases calls.len(),
{
    if calls.len() > 0 {
        assert forall|i: int| 0 <= i < calls.drop_last().len() implies #[trigger] calls.drop_last()[i] is AutoDeposit by {
            assert(calls.drop_last()[i] == calls[i]);
        }
        lemma_deposits_never_pass_the_cap(state, program_id, calls.drop_last());
        assert(calls.last() == calls[calls.len() - 1]);
    }
}

/// Along every history of trades, `total_spent` stays within
/// `total_deposited`.
pub proof fn lemma_trades_never_pass_the_deposits(
    state: LedgerState,
    program_id: Address,
    calls: Seq<Call>,
)
    requires
        state.vault.data matches Some(vault) ==> vault.total_spent <= vault.total_deposited,
        forall|i: int| 0 <= i < calls.len() ==> #[trigger] calls[i] is ExecuteTrade,
    ensures
        replay(state, program_id, calls).vault.data matches Some(vault) ==> vault.total_spent
            <= vault.total_deposited,
    decreases calls.len(),
{
    if calls.len() > 0 {
        assert forall|i: int| 0 <= i < calls.drop_last().len() implies #[trigger] calls.drop_last()[i] is ExecuteTrade by {
            assert(calls.drop_last()[i] == calls[i]);
        }
        lemma_trades_never_pass_the_deposits(state, program_id, calls.drop_last());
        assert(calls.last() == calls[calls.len() - 1]);
    }
}

/// A vault that is inactive never becomes active again, whatever is called.
pub proof fn lemma_inactive_vault_stays_inactive(
    state: LedgerState,
    program_id: Address,
    calls: Seq<Call>,
)
    requires
        closed_for_spending(state),
    ensures
        closed_for_spending(replay(state, program_id, calls)),
    decreases calls.len(),
{
    if calls.len() > 0 {
        lemma_inactive_vault_stays_inactive(state, program_id, calls.drop_last());
    }
}

/// A delegation that was revoked stays revoked, whatever is called.
pub proof fn lemma_revocation_is_permanent(state: LedgerState, program_id: Address, calls: Seq<Call>)
    requires
        delegation_revoked(state),
    ensures
        delegation_revoked(replay(state, program_id, calls)),
    decreases calls.len(),
{
    if calls.len() > 0 {
        lemma_revocation_is_permanent(state, program_id, calls.drop_last());
    }
}

/// A trade against a vault that is closed for spending fails.
pub proof fn lemma_closed_vault_refuses_trades(
    state: LedgerState,
    program_id: Address,
    ephemeral: Wallet,
    parent_wallet: Address,
    now: i64,
    fee_paid: u64,
)
    requires
        closed_for_spending(state),
    ensures
        execute_trade_refusal(
            trade_accounts(state, ephemeral, parent_wallet),
            program_id,
            now,
            fee_paid,
        ) is Some,
        state.vault.data is Some && trade_accounts(state, ephemeral, parent_wallet).refusal(
            program_id,
        ) is None ==> execute_trade_refusal(
            trade_accounts(state, ephemeral, parent_wallet),
            program_id,
            now,
            fee_paid,
        ) == Some(LedgerError::Program(EphemeralVaultError::VaultInactive)),
{
}

/// Once `revoke_access` has succeeded, every trade fails, by whomever and
/// whenever it is attempted and whatever was called in between.
pub proof fn lemma_no_trade_after_revocation(
    state: LedgerState,
    program_id: Address,
    parent: Wallet,
    parent_wallet: Address,
    revoked_at: i64,
    later_calls: Seq<Call>,
    ephemeral: Wallet,
    named_parent: Address,
    now: i64,
    fee_paid: u64,
)
    requires
        revoke_access_refusal(revoke_accounts(state, parent, parent_wallet), program_id) is None,
    ensures
        execute_trade_refusal(
            trade_accounts(
                replay(
                    step(
                        state,
                        program_id,
                        Call::RevokeAccess { parent, parent_wallet, now: revoked_at },
                    ),
                    program_id,
                    later_calls,
                ),
                ephemeral,
                named_parent,
            ),
            program_id,
            now,
            fee_paid,
        ) is Some,
{
    let revoked = step(
        state,
        program_id,
        Call::RevokeAccess { parent, parent_wallet, now: revoked_at },
    );
    assert(closed_for_spending(revoked));
    lemma_inactive_vault_stays_inactive(revoked, program_id, later_calls);
    lemma_closed_vault_refuses_trades(
        replay(revoked, program_id, later_calls),
        program_id,
        ephemeral,
        named_parent,
        now,
        fee_paid,
    );
}

/// Creating a vault where one exists fails and creates no second one: with
/// accounts that are otherwise in order the failure is `AlreadyInUse`, which
/// tells the caller that the vault is there.
pub proof fn lemma_vault_is_created_once(
    ctx: CreateVault,
    program_id: Address,
    now: i64,
    session_duration: i64,
    max_deposit: u64,
)
    requires
        ctx.vault.data is Some,
    ensures
        create_vault_refusal(ctx, program_id, now, session_duration) is Some,
        create_vault_outcome(ctx, program_id, now, session_duration, max_deposit) == ctx,
        before_creation(ctx).refusal(program_id) is None ==> create_vault_refusal(
            ctx,
            program_id,
            now,
            session_duration,
        ) == Some(LedgerError::Account(AccountError::AlreadyInUse)),
{
}

/// A vault has at most one delegation: once one exists it stays, whatever is
/// called, and every further approval fails.
pub proof fn lemma_delegation_is_created_once(
    state: LedgerState,
    program_id: Address,
    calls: Seq<Call>,
    parent: Wallet,
    delegate: Address,
)
    requires
        state.delegation.data is Some,
    ensures
        replay(state, program_id, calls).delegation.data is Some,
        approve_delegate_refusal(
            approve_accounts(replay(state, program_id, calls), parent),
            program_id,
            delegate,
        ) is Some,
    decreases calls.len(),
{
    if calls.len() > 0 {
        lemma_delegation_is_created_once(state, program_id, calls.drop_last(), parent, delegate);
    }
}

/// A trade succeeds only while the delegation is not revoked and its delegate
/// is the identity that signed.
pub proof fn lemma_trade_needs_delegate_in_force(
    ctx: ExecuteTrade,
    program_id: Address,
    now: i64,
    fee_paid: u64,
)
    requires
        execute_trade_refusal(ctx, program_id, now, fee_paid) is None,
    ensures
        ctx.delegation.data is Some,
        ctx.delegation.data->0.revoked_at is None,
        ctx.delegation.data->0.delegate == ctx.ephemeral.key,
        ctx.ephemeral.is_signer,
        ctx.vault.data is Some,
        ctx.vault.data->0.spendable_at(now),
{
}

/// Before the session's expiry `cleanup_vault` always fails, and leaves the
/// accounts as they were.
pub proof fn lemma_cleanup_waits_for_expiry(ctx: CleanupVault, now: i64)
    requires
        ctx.vault.data matches Some(vault) && now < vault.session_expiry,
    ensures
        cleanup_vault_refusal(ctx, now) is Some,
        cleanup_vault_outcome(ctx, now) == ctx,
        ctx.refusal() is None ==> cleanup_vault_refusal(ctx, now) == Some(
            LedgerError::Program(EphemeralVaultError::SessionNotExpired),
        ),
{
}

} // verus!
