//! Sizing of the deposit that covers a number of future trades.

use vstd::prelude::*;

verus! {

/// How urgently a trade should land; a higher tier pays a higher fee.
#[derive(Debug, Clone, Copy, PartialEq, Eq, Structural)]
pub enum PriorityLevel {
    Low,
    Medium,
    High,
}

/// Why a deposit could not be sized.
#[derive(Debug, Clone, Copy, PartialEq, Eq, Structural)]
pub enum DepositError {
    /// `trade_count * fee` does not fit in 64 bits.
    FeeOverflow,
}

/// Fee of one trade at the given tier, in lamports.
pub open spec fn fee_per_trade(priority: PriorityLevel) -> nat {
    match priority {
        PriorityLevel::Low => 5_000,
        PriorityLevel::Medium => 10_000,
        PriorityLevel::High => 25_000,
    }
}

/// Deposit that covers `num_trades` trades at the given tier, as a
/// mathematical integer.
pub open spec fn deposit_for_trades(num_trades: nat, priority: PriorityLevel) -> nat {
    num_trades * fee_per_trade(priority)
}

/// Sizes deposits from fee estimates.
pub struct AutoDepositCalculator;

impl AutoDepositCalculator {
    /// Fee of one trade at the given tier.
    pub fn estimate_fee_per_trade(priority: PriorityLevel) -> (fee: u64)
        ensures
            fee == fee_per_trade(priority),
    {
        match priority {
            PriorityLevel::Low => 5_000,
            PriorityLevel::Medium => 10_000,
            PriorityLevel::High => 25_000,
        }
    }

    /// Deposit for `num_trades` trades; rejected when the product leaves the
    /// 64-bit range, never clamped.
    pub fn compute_deposit_for_trades(num_trades: u64, priority: PriorityLevel) -> (result: Result<
        u64,
        DepositError,
    >)
        ensures
            deposit_for_trades(num_trades as nat, priority) <= u64::MAX ==> result == Ok::<
                u64,
                DepositError,
            >(deposit_for_trades(num_trades as nat, priority) as u64),
            deposit_for_trades(num_trades as nat, priority) > u64::MAX ==> result == Err::<
                u64,
                DepositError,
            >(DepositError::FeeOverflow),
    {
        let per_trade: u64 = Self::estimate_fee_per_trade(priority);
        match num_trades.checked_mul(per_trade) {
            Some(total) => Ok(total),
            None => Err(DepositError::FeeOverflow),
        }
    }
}

/// The tiers are strictly ordered by fee: `Low < Medium < High`.
pub proof fn lemma_fee_tiers_are_ordered()
    ensures
        fee_per_trade(PriorityLevel::Low) < fee_per_trade(PriorityLevel::Medium),
        fee_per_trade(PriorityLevel::Medium) < fee_per_trade(PriorityLevel::High),
{
}

/// A deposit never shrinks when more trades are covered or the tier rises by
/// fee.
pub proof fn lemma_deposit_is_monotonic(
    fewer: nat,
    more: nat,
    cheaper: PriorityLevel,
    dearer: PriorityLevel,
)
    requires
        fewer <= more,
        fee_per_trade(cheaper) <= fee_per_trade(dearer),
    ensures
        deposit_for_trades(fewer, cheaper) <= deposit_for_trades(more, dearer),
{
    assert(fewer * fee_per_trade(cheaper) <= more * fee_per_trade(dearer)) by (nonlinear_arith)
        requires
            fewer <= more,
            fee_per_trade(cheaper) <= fee_per_trade(dearer),
    ;
}

} // verus!
