//! Notifications that operations publish.
use vstd::prelude::*;

use crate::principal::Principal;
use crate::tiered_bond::BondTier;

verus! {

/// One published notification, with its payload.
#[derive(Clone, Debug)]
pub enum BondEvent {
    /// The bond moved from one tier to another.
    TierChanged { identity: Principal, old_tier: BondTier, new_tier: BondTier, timestamp: u64 },
    /// An early withdrawal was charged a penalty, routed to the treasury.
    PenaltyApplied { identity: Principal, amount: i128, penalty: i128, treasury: Principal },
    /// The holder of a rolling bond asked to withdraw.
    WithdrawalRequested { identity: Principal, requested_at: u64 },
    /// A rolling bond started a new period.
    BondRenewed { identity: Principal, bond_start: u64, bond_duration: u64 },
    /// The admin slashed the bond; `total_slashed` is the new cumulative amount.
    Slashed { identity: Principal, amount: i128, total_slashed: i128 },
    /// Emergency mode was switched on or off.
    EmergencyMode { enabled: bool, admin: Principal, governance: Principal, timestamp: u64 },
    /// An emergency withdrawal was executed and recorded under `record_id`.
    EmergencyWithdrawal {
        record_id: u64,
        identity: Principal,
        gross_amount: i128,
        fee_amount: i128,
        net_amount: i128,
        reason: String,
        timestamp: u64,
    },
}

} // verus!
