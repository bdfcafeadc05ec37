//! Periods of rolling bonds: when a period ends, when a notice has run out, renewal.
use vstd::prelude::*;

use crate::IdentityBond;

verus! {

/// Whether the period that began at `bond_start` and lasts `bond_duration` has ended at
/// `now`. A period whose end lies beyond the range of `u64` never ends.
pub fn is_period_ended(now: u64, bond_start: u64, bond_duration: u64) -> (r: bool)
    ensures
        r == (now >= bond_start + bond_duration),
{
    match bond_start.checked_add(bond_duration) {
        Some(end) => now >= end,
        None => false,
    }
}

/// Whether a withdrawal was requested (`requested_at != 0`) and its notice period has run
/// out at `now`. A notice whose end lies beyond the range of `u64` never runs out.
pub fn can_withdraw_after_notice(now: u64, requested_at: u64, notice_period: u64) -> (r: bool)
    ensures
        r == (requested_at != 0 && now >= requested_at + notice_period),
{
    if requested_at == 0 {
        return false;
    }
    match requested_at.checked_add(notice_period) {
        Some(end) => now >= end,
        None => false,
    }
}

/// The bond after a renewal at `now`: a new period starts and any pending request is cleared.
pub open spec fn renewal_of(bond: IdentityBond, now: u64) -> IdentityBond {
    IdentityBond { bond_start: now, withdrawal_requested_at: 0, ..bond }
}

/// Starts a new period at `now` and clears the pending withdrawal request; amounts are kept.
pub fn apply_renewal(bond: &mut IdentityBond, now: u64)
    ensures
        *final(bond) == renewal_of(*old(bond), now),
{
    bond.bond_start = now;
    bond.withdrawal_requested_at = 0;
}

} // verus!
