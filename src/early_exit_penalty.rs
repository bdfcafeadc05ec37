//! Penalties on withdrawals made before the lock-up ends.
use vstd::prelude::*;

use crate::errors::BondError;
use crate::principal::Principal;

verus! {

/// Rates are in basis points: 10000 is the whole amount.
pub const BPS_DENOMINATOR: i128 = 10_000;

/// Where early-exit penalties go, and how large they are.
#[derive(Clone, Debug)]
pub struct EarlyExitConfig {
    pub treasury: Principal,
    pub penalty_bps: u32,
}

impl EarlyExitConfig {
    /// An identical copy.
    pub fn copied(&self) -> (r: EarlyExitConfig)
        ensures
            r == *self,
    {
        EarlyExitConfig { treasury: self.treasury.copied(), penalty_bps: self.penalty_bps }
    }
}

/// Integer division that rounds toward zero, as Rust's `/` does on signed integers.
pub open spec fn div_toward_zero(a: int, b: int) -> int {
    if a >= 0 {
        a / b
    } else {
        -((-a) / b)
    }
}

/// The penalty rate applied to the amount: `amount * penalty_bps / 10000`.
pub open spec fn rated_amount(amount: int, penalty_bps: int) -> int {
    div_toward_zero(amount * penalty_bps, BPS_DENOMINATOR as int)
}

/// The penalty for withdrawing `amount` with `time_remaining` of `total_duration` left:
/// `amount * penalty_bps / 10000 * time_remaining / total_duration`.
pub open spec fn penalty_for(
    amount: int,
    time_remaining: int,
    total_duration: int,
    penalty_bps: int,
) -> int {
    div_toward_zero(rated_amount(amount, penalty_bps) * time_remaining, total_duration)
}

/// Whether one of the two multiplications of the penalty leaves the range of `i128`.
pub open spec fn penalty_overflows(amount: int, time_remaining: int, penalty_bps: int) -> bool {
    ||| amount * penalty_bps > i128::MAX
    ||| amount * penalty_bps < i128::MIN
    ||| rated_amount(amount, penalty_bps) * time_remaining > i128::MAX
    ||| rated_amount(amount, penalty_bps) * time_remaining < i128::MIN
}

/// Computes the penalty for an early withdrawal, proportional to the fraction of the
/// lock-up that remains. Fails with `ArithmeticOverflow` exactly when a step overflows.
pub fn calculate_penalty(
    amount: i128,
    time_remaining: u64,
    total_duration: u64,
    penalty_bps: u32,
) -> (r: Result<i128, BondError>)
    requires
        total_duration > 0,
    ensures
        penalty_overflows(amount as int, time_remaining as int, penalty_bps as int)
            ==> r == Err::<i128, BondError>(BondError::ArithmeticOverflow),
        !penalty_overflows(amount as int, time_remaining as int, penalty_bps as int) ==> r
            == Ok::<i128, BondError>(
            penalty_for(
                amount as int,
                time_remaining as int,
                total_duration as int,
                penalty_bps as int,
            ) as i128,
        ),
{
    let scaled = match amount.checked_mul(penalty_bps as i128) {
        Some(v) => v,
        None => return Err(BondError::ArithmeticOverflow),
    };
    let rated = scaled / BPS_DENOMINATOR;
    assert(rated as int == rated_amount(amount as int, penalty_bps as int));
    let weighted = match rated.checked_mul(time_remaining as i128) {
        Some(v) => v,
        None => return Err(BondError::ArithmeticOverflow),
    };
    Ok(weighted / (total_duration as i128))
}

} // verus!
