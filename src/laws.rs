//! Properties that hold across operations, proved from the operations' contracts.
use vstd::prelude::*;

use crate::early_exit_penalty::{penalty_for, rated_amount};
use crate::events::BondEvent;
use crate::principal::Principal;
use crate::rolling_bond::renewal_of;
use crate::tiered_bond::{BondTier, tier_change_events};
use crate::{CredenceBond, IdentityBond, renewed};

verus! {

/// In every state that the operations keep well formed, the slashed amount lies between
/// zero and the bonded amount.
pub proof fn lemma_slashed_within_bonded(s: CredenceBond)
    requires
        s.wf(),
    ensures
        match s.bond {
            Some(b) => 0 <= b.slashed_amount <= b.bonded_amount,
            None => true,
        },
{
}

/// Renewing twice at the same time gives the same bond as renewing once.
pub proof fn lemma_renew_idempotent(b: IdentityBond, now: u64)
    ensures
        renewed(renewed(b, now), now) == renewed(b, now),
{
    if b.is_rolling && now >= b.bond_start + b.bond_duration {
        let once = renewal_of(b, now);
        assert(renewal_of(once, now) == once);
    }
}

/// Along any run of operations on an existing bond, each of which keeps the slashed
/// amount, the slashed amount never decreases.
pub proof fn lemma_slashed_never_decreases(states: Seq<CredenceBond>, i: int, j: int)
    requires
        forall|k: int| 0 <= k < states.len() - 1 ==> #[trigger] states[k].keeps_slashed(&states[k + 1]),
        0 <= i <= j < states.len(),
        states[i].bond is Some,
    ensures
        states[j].bond is Some,
        states[j].bond.unwrap().slashed_amount >= states[i].bond.unwrap().slashed_amount,
    decreases j - i,
{
    if i < j {
        lemma_slashed_never_decreases(states, i, j - 1);
        let k = j - 1;
        assert(states[k].keeps_slashed(&states[k + 1]));
    }
}

/// A tier change is published exactly when the tier differs: one notification then, none
/// otherwise.
pub proof fn lemma_tier_event_iff_changed(
    identity: Principal,
    old_tier: BondTier,
    new_tier: BondTier,
    timestamp: u64,
)
    ensures
        old_tier != new_tier <==> tier_change_events(identity, old_tier, new_tier, timestamp).len() == 1,
        old_tier == new_tier <==> tier_change_events(identity, old_tier, new_tier, timestamp).len() == 0,
        old_tier != new_tier ==> tier_change_events(identity, old_tier, new_tier, timestamp)[0] == (
        BondEvent::TierChanged { identity, old_tier, new_tier, timestamp }),
{
}

/// For a non-negative amount, a rate of at most 10000 basis points and a remaining time
/// within the total, the early-exit penalty lies between zero and the amount.
pub proof fn lemma_penalty_bounded(
    amount: int,
    time_remaining: int,
    total_duration: int,
    penalty_bps: int,
)
    requires
        0 <= amount,
        0 <= time_remaining <= total_duration,
        0 < total_duration,
        0 <= penalty_bps <= 10000,
    ensures
        0 <= penalty_for(amount, time_remaining, total_duration, penalty_bps) <= amount,
{
    let rated = rated_amount(amount, penalty_bps);
    assert(0 <= amount * penalty_bps <= amount * 10000) by (nonlinear_arith)
        requires
            0 <= amount,
            0 <= penalty_bps <= 10000,
    ;
    assert(0 <= rated <= amount) by (nonlinear_arith)
        requires
            rated == (amount * penalty_bps) / 10000,
            0 <= amount * penalty_bps <= amount * 10000,
    ;
    assert(0 <= rated * time_remaining <= rated * total_duration) by (nonlinear_arith)
        requires
            0 <= rated,
            0 <= time_remaining <= total_duration,
    ;
    let p = (rated * time_remaining) / total_duration;
    assert(0 <= p <= rated) by (nonlinear_arith)
        requires
            p == (rated * time_remaining) / total_duration,
            0 <= rated * time_remaining <= rated * total_duration,
            0 < total_duration,
    ;
}

/// Along any run of operations, each of which keeps the records, the latest record id
/// never decreases and every record already written reads the same afterwards.
pub proof fn lemma_records_never_change(states: Seq<CredenceBond>, i: int, j: int, id: int)
    requires
        forall|k: int| 0 <= k < states.len() - 1 ==> #[trigger] states[k].keeps_records(&states[k + 1]),
        0 <= i <= j < states.len(),
        1 <= id <= states[i].emergency.records@.len(),
    ensures
        states[j].emergency.records@.len() >= states[i].emergency.records@.len(),
        states[j].emergency.records@[id - 1] == states[i].emergency.records@[id - 1],
    decreases j - i,
{
    if i < j {
        lemma_records_never_change(states, i, j - 1, id);
        let k = j - 1;
        assert(states[k].keeps_records(&states[k + 1]));
    }
}

} // verus!
