//! Tier classification of a bonded amount.
use vstd::prelude::*;

use crate::events::BondEvent;
use crate::principal::Principal;

verus! {

/// Smallest bonded amount classified as Silver.
pub const SILVER_THRESHOLD: i128 = 1_000_000_000;

/// Smallest bonded amount classified as Gold.
pub const GOLD_THRESHOLD: i128 = 5_000_000_000;

/// Smallest bonded amount classified as Platinum.
pub const PLATINUM_THRESHOLD: i128 = 20_000_000_000;

/// Identity tier based on bonded amount (Bronze < Silver < Gold < Platinum).
#[derive(Clone, Copy, Debug, PartialEq, Eq, Structural)]
pub enum BondTier {
    Bronze,
    Silver,
    Gold,
    Platinum,
}

/// The tier that a bonded amount falls into.
pub open spec fn tier_for_amount(amount: int) -> BondTier {
    if amount >= PLATINUM_THRESHOLD {
        BondTier::Platinum
    } else if amount >= GOLD_THRESHOLD {
        BondTier::Gold
    } else if amount >= SILVER_THRESHOLD {
        BondTier::Silver
    } else {
        BondTier::Bronze
    }
}

/// Classifies a bonded amount into its tier.
pub fn get_tier_for_amount(amount: i128) -> (r: BondTier)
    ensures
        r == tier_for_amount(amount as int),
{
    if amount >= PLATINUM_THRESHOLD {
        BondTier::Platinum
    } else if amount >= GOLD_THRESHOLD {
        BondTier::Gold
    } else if amount >= SILVER_THRESHOLD {
        BondTier::Silver
    } else {
        BondTier::Bronze
    }
}

/// The notifications owed for a move from `old_tier` to `new_tier`: one `TierChanged`
/// when the tiers differ, none when they are equal.
pub open spec fn tier_change_events(
    identity: Principal,
    old_tier: BondTier,
    new_tier: BondTier,
    timestamp: u64,
) -> Seq<BondEvent> {
    if old_tier != new_tier {
        seq![BondEvent::TierChanged { identity, old_tier, new_tier, timestamp }]
    } else {
        Seq::empty()
    }
}

/// Publishes a `TierChanged` notification when the tier actually changed.
pub fn emit_tier_change_if_needed(
    events: &mut Vec<BondEvent>,
    identity: &Principal,
    old_tier: BondTier,
    new_tier: BondTier,
    timestamp: u64,
)
    ensures
        final(events)@ == old(events)@ + tier_change_events(*identity, old_tier, new_tier, timestamp),
{
    if old_tier != new_tier {
        events.push(BondEvent::TierChanged { identity: identity.copied(), old_tier, new_tier, timestamp });
    }
}

} // verus!
