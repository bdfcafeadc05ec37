//! A single identity's bond over its lifetime: creation, top-up, tiers, timed and
//! notice-based withdrawal, early-exit penalties, emergency withdrawals and slashing.
//!
//! The whole state lives in [`CredenceBond`]. Each operation takes the current time as
//! an argument, checks everything before it changes anything, and either returns an
//! error with the state untouched or applies its effect and queues the notifications
//! that it owes.
use vstd::prelude::*;

pub mod early_exit_penalty;
pub mod emergency;
pub mod errors;
pub mod events;
pub mod laws;
pub mod principal;
pub mod rolling_bond;
pub mod tiered_bond;

use crate::early_exit_penalty::{EarlyExitConfig, calculate_penalty, penalty_for, penalty_overflows};
use crate::emergency::{
    EmergencyConfig,
    EmergencyState,
    EmergencyWithdrawalRecord,
    MAX_FEE_BPS,
    fee_for,
    fee_overflows,
    record_of,
};
use crate::errors::BondError;
use crate::events::BondEvent;
use crate::principal::Principal;
use crate::rolling_bond::{can_withdraw_after_notice, is_period_ended, renewal_of};
use crate::tiered_bond::{
    BondTier,
    emit_tier_change_if_needed,
    get_tier_for_amount,
    tier_change_events,
    tier_for_amount,
};

verus! {

/// The state of the single bond that this contract manages.
#[derive(Clone, Debug)]
pub struct IdentityBond {
    pub identity: Principal,
    pub bonded_amount: i128,
    pub bond_start: u64,
    pub bond_duration: u64,
    pub slashed_amount: i128,
    pub active: bool,
    /// If true, the bond renews at period end unless a withdrawal was requested.
    pub is_rolling: bool,
    /// When a withdrawal was requested (0 = not requested).
    pub withdrawal_requested_at: u64,
    /// Notice period for rolling bonds, in seconds.
    pub notice_period_duration: u64,
}

impl IdentityBond {
    /// An identical copy.
    pub fn copied(&self) -> (r: IdentityBond)
        ensures
            r == *self,
    {
        IdentityBond {
            identity: self.identity.copied(),
            bonded_amount: self.bonded_amount,
            bond_start: self.bond_start,
            bond_duration: self.bond_duration,
            slashed_amount: self.slashed_amount,
            active: self.active,
            is_rolling: self.is_rolling,
            withdrawal_requested_at: self.withdrawal_requested_at,
            notice_period_duration: self.notice_period_duration,
        }
    }
}

/// What can still be withdrawn: bonded minus slashed.
pub open spec fn available(b: IdentityBond) -> int {
    b.bonded_amount - b.slashed_amount
}

/// The end of the lock-up, saturated at the largest `u64`.
pub open spec fn lockup_end(b: IdentityBond) -> int {
    if b.bond_start + b.bond_duration > u64::MAX {
        u64::MAX as int
    } else {
        b.bond_start + b.bond_duration
    }
}

/// The time left until the lock-up ends at `now`, or 0 once it has ended.
pub open spec fn time_remaining(b: IdentityBond, now: u64) -> int {
    if lockup_end(b) > now {
        lockup_end(b) - now
    } else {
        0
    }
}

/// A bond as `create_bond` makes it.
pub open spec fn new_bond(
    identity: Principal,
    amount: i128,
    duration: u64,
    is_rolling: bool,
    notice_period_duration: u64,
    now: u64,
) -> IdentityBond {
    IdentityBond {
        identity,
        bonded_amount: amount,
        bond_start: now,
        bond_duration: duration,
        slashed_amount: 0,
        active: true,
        is_rolling,
        withdrawal_requested_at: 0,
        notice_period_duration,
    }
}

/// The bond with its bonded amount reduced by `amount`.
pub open spec fn withdrawn(b: IdentityBond, amount: i128) -> IdentityBond {
    IdentityBond { bonded_amount: (b.bonded_amount - amount) as i128, ..b }
}

/// The bond as `renew_if_rolling` leaves it at `now`: renewed when it is rolling and its
/// period has ended, unchanged otherwise.
pub open spec fn renewed(b: IdentityBond, now: u64) -> IdentityBond {
    if b.is_rolling && now >= b.bond_start + b.bond_duration {
        renewal_of(b, now)
    } else {
        b
    }
}

/// The cumulative slashed amount after slashing `amount` more, capped at the bonded amount.
pub open spec fn slashed_after(b: IdentityBond, amount: i128) -> i128 {
    if b.slashed_amount + amount > b.bonded_amount {
        b.bonded_amount
    } else {
        (b.slashed_amount + amount) as i128
    }
}

/// The whole state: the admin, the bond, both configurations, the emergency records and
/// the notifications published and not yet taken.
pub struct CredenceBond {
    pub admin: Option<Principal>,
    pub bond: Option<IdentityBond>,
    pub early_exit: Option<EarlyExitConfig>,
    pub emergency: EmergencyState,
    pub events: Vec<BondEvent>,
}

impl CredenceBond {
    /// The invariant that every operation keeps: `0 <= slashed_amount <= bonded_amount`,
    /// rates of at most 10000 basis points, and records numbered from 1 in order.
    pub open spec fn wf(&self) -> bool {
        &&& match self.bond {
            Some(b) => 0 <= b.slashed_amount <= b.bonded_amount,
            None => true,
        }
        &&& match self.early_exit {
            Some(c) => c.penalty_bps <= MAX_FEE_BPS,
            None => true,
        }
        &&& self.emergency.wf()
    }

    /// Why `admin` may not act as the admin, if it may not.
    pub open spec fn admin_refusal(&self, admin: Principal) -> Option<BondError> {
        match self.admin {
            None => Some(BondError::NotInitialized),
            Some(a) => if a@ == admin@ {
                None
            } else {
                Some(BondError::Unauthorized)
            },
        }
    }

    /// What stays from one state to the next under every operation: the records written
    /// so far, each as it was written.
    pub open spec fn keeps_records(&self, next: &CredenceBond) -> bool {
        self.emergency.records@.is_prefix_of(next.emergency.records@)
    }

    /// What every operation on an existing bond keeps: the bond, and a slashed amount that
    /// does not decrease.
    pub open spec fn keeps_slashed(&self, next: &CredenceBond) -> bool {
        match self.bond {
            Some(b) => match next.bond {
                Some(nb) => nb.slashed_amount >= b.slashed_amount,
                None => false,
            },
            None => true,
        }
    }

    /// Same admin, configurations and records.
    pub open spec fn same_settings(&self, next: &CredenceBond) -> bool {
        &&& next.admin == self.admin
        &&& next.early_exit == self.early_exit
        &&& next.emergency == self.emergency
    }

    /// A state with nothing set: no admin, no bond, no configuration, no records.
    pub fn new() -> (r: CredenceBond)
        ensures
            r.wf(),
            r.admin is None,
            r.bond is None,
            r.early_exit is None,
            r.emergency.config is None,
            r.emergency.records@.len() == 0,
            r.events@.len() == 0,
    {
        CredenceBond {
            admin: None,
            bond: None,
            early_exit: None,
            emergency: EmergencyState::new(),
            events: Vec::new(),
        }
    }

    fn check_admin(&self, admin: &Principal) -> (r: Result<(), BondError>)
        ensures
            match self.admin_refusal(*admin) {
                Some(e) => r == Err::<(), BondError>(e),
                None => r is Ok,
            },
    {
        match &self.admin {
            None => Err(BondError::NotInitialized),
            Some(a) => if a.same_as(admin) {
                Ok(())
            } else {
                Err(BondError::Unauthorized)
            },
        }
    }

    /// Hands out the notifications queued so far, leaving none.
    pub fn take_events(&mut self) -> (r: Vec<BondEvent>)
        ensures
            r@ == old(self).events@,
            final(self).events@.len() == 0,
            final(self).admin == old(self).admin,
            final(self).bond == old(self).bond,
            final(self).early_exit == old(self).early_exit,
            final(self).emergency == old(self).emergency,
    {
        let mut out: Vec<BondEvent> = Vec::new();
        core::mem::swap(&mut out, &mut self.events);
        out
    }

    /// Why `emergency_withdraw` is refused, checked in this order: the admin, the
    /// configuration and its governance, emergency mode, the amount, the bond, the
    /// balance, the fee's arithmetic and the next record id.
    pub open spec fn emergency_withdraw_refusal(
        &self,
        admin: Principal,
        governance: Principal,
        amount: i128,
    ) -> Option<BondError> {
        if self.admin_refusal(admin) is Some {
            self.admin_refusal(admin)
        } else {
            match self.emergency.config {
                None => Some(BondError::NotInitialized),
                Some(c) => if c.governance@ != governance@ {
                    Some(BondError::Unauthorized)
                } else if !c.enabled {
                    Some(BondError::Unauthorized)
                } else if amount <= 0 {
                    Some(BondError::InvalidAmount)
                } else {
                    match self.bond {
                        None => Some(BondError::NotFound),
                        Some(b) => if amount > available(b) {
                            Some(BondError::InsufficientBalance)
                        } else if fee_overflows(amount as int, c.emergency_fee_bps as int) {
                            Some(BondError::ArithmeticOverflow)
                        } else if self.emergency.records@.len() >= u64::MAX {
                            Some(BondError::ArithmeticOverflow)
                        } else {
                            None
                        },
                    }
                },
            }
        }
    }

    /// Executes an emergency withdrawal approved by the admin and governance.
    ///
    /// The fee is `amount * fee_bps / 10000` and the net amount `amount - fee`; the bond
    /// loses the gross `amount`. A record is appended under the next id, and the tier
    /// change (if any) and the withdrawal are published, in that order.
    pub fn emergency_withdraw(
        &mut self,
        admin: Principal,
        governance: Principal,
        amount: i128,
        reason: String,
        now: u64,
    ) -> (r: Result<IdentityBond, BondError>)
        requires
            old(self).wf(),
        ensures
            final(self).wf(),
            old(self).keeps_records(final(self)),
            old(self).keeps_slashed(final(self)),
            match old(self).emergency_withdraw_refusal(admin, governance, amount) {
                Some(e) => r == Err::<IdentityBond, BondError>(e) && *final(self) == *old(self),
                None => {
                    let b = old(self).bond.unwrap();
                    let c = old(self).emergency.config.unwrap();
                    let nb = withdrawn(b, amount);
                    let id = (old(self).emergency.records@.len() + 1) as u64;
                    let fee = fee_for(amount as int, c.emergency_fee_bps as int) as i128;
                    let net = (amount - fee) as i128;
                    &&& r == Ok::<IdentityBond, BondError>(nb)
                    &&& final(self).bond == Some(nb)
                    &&& final(self).admin == old(self).admin
                    &&& final(self).early_exit == old(self).early_exit
                    &&& final(self).emergency.config == old(self).emergency.config
                    &&& final(self).emergency.records@ == old(self).emergency.records@.push(
                        record_of(
                            id,
                            b.identity,
                            amount,
                            fee,
                            net,
                            c.treasury,
                            admin,
                            governance,
                            reason,
                            now,
                        ),
                    )
                    &&& final(self).events@ == old(self).events@ + tier_change_events(
                        b.identity,
                        tier_for_amount(b.bonded_amount as int),
                        tier_for_amount(nb.bonded_amount as int),
                        now,
                    ).push(
                        BondEvent::EmergencyWithdrawal {
                            record_id: id,
                            identity: b.identity,
                            gross_amount: amount,
                            fee_amount: fee,
                            net_amount: net,
                            reason,
                            timestamp: now,
                        },
                    )
                },
            },
    {
        self.check_admin(&admin)?;
        let cfg = match emergency::get_config(&self.emergency) {
            Ok(c) => c,
            Err(e) => return Err(e),
        };
        if !governance.same_as(&cfg.governance) {
            return Err(BondError::Unauthorized);
        }
        if !cfg.enabled {
            return Err(BondError::Unauthorized);
        }
        if amount <= 0 {
            return Err(BondError::InvalidAmount);
        }
        let mut bond = match &self.bond {
            Some(b) => b.copied(),
            None => return Err(BondError::NotFound),
        };
        let available = bond.bonded_amount - bond.slashed_amount;
        if amount > available {
            return Err(BondError::InsufficientBalance);
        }
        if cfg.emergency_fee_bps != 0 && amount.checked_mul(cfg.emergency_fee_bps as i128).is_none() {
            return Err(BondError::ArithmeticOverflow);
        }
        if emergency::latest_record_id(&self.emergency) == u64::MAX {
            return Err(BondError::ArithmeticOverflow);
        }
        let fee_amount = emergency::calculate_fee(amount, cfg.emergency_fee_bps);
        assert(0 <= fee_amount <= amount) by (nonlinear_arith)
            requires
                fee_amount == fee_for(amount as int, cfg.emergency_fee_bps as int),
                amount > 0,
                cfg.emergency_fee_bps <= 10000,
        ;
        let net_amount = amount - fee_amount;

        let old_tier = get_tier_for_amount(bond.bonded_amount);
        bond.bonded_amount = bond.bonded_amount - amount;
        let new_tier = get_tier_for_amount(bond.bonded_amount);
        emit_tier_change_if_needed(&mut self.events, &bond.identity, old_tier, new_tier, now);

        let stored = emergency::store_record(
            &mut self.emergency,
            bond.identity.copied(),
            amount,
            fee_amount,
            net_amount,
            cfg.treasury.copied(),
            admin,
            governance,
            reason.clone(),
            now,
        );
        let record_id = match stored {
            Ok(id) => id,
            Err(e) => return Err(e),
        };
        emergency::emit_emergency_withdrawal_event(
            &mut self.events,
            record_id,
            &bond.identity,
            amount,
            fee_amount,
            net_amount,
            &reason,
            now,
        );
        self.bond = Some(bond.copied());
        Ok(bond)
    }

    /// Why `withdraw_early` is refused, checked in this order: the bond, the balance, the
    /// lock-up (which must not have ended), the early-exit configuration, a lock-up of no
    /// length, and the arithmetic of the penalty and of the new bonded amount.
    pub open spec fn withdraw_early_refusal(&self, amount: i128, now: u64) -> Option<BondError> {
        match self.bond {
            None => Some(BondError::NotFound),
            Some(b) => if amount > available(b) {
                Some(BondError::InsufficientBalance)
            } else if now >= b.bond_start + b.bond_duration {
                Some(BondError::InvalidTiming)
            } else {
                match self.early_exit {
                    None => Some(BondError::NotInitialized),
                    Some(c) => if b.bond_duration == 0 {
                        Some(BondError::InvalidTiming)
                    } else if penalty_overflows(
                        amount as int,
                        time_remaining(b, now),
                        c.penalty_bps as int,
                    ) {
                        Some(BondError::ArithmeticOverflow)
                    } else if b.bonded_amount - amount > i128::MAX {
                        Some(BondError::ArithmeticOverflow)
                    } else {
                        None
                    },
                }
            },
        }
    }

    /// Withdraws before the lock-up ends. The penalty is proportional to the share of the
    /// lock-up that remains and is published for the treasury; the bond loses the gross
    /// `amount`, and a tier change, if any, is published after the penalty.
    pub fn withdraw_early(&mut self, amount: i128, now: u64) -> (r: Result<IdentityBond, BondError>)
        requires
            old(self).wf(),
        ensures
            final(self).wf(),
            old(self).keeps_records(final(self)),
            old(self).keeps_slashed(final(self)),
            match old(self).withdraw_early_refusal(amount, now) {
                Some(e) => r == Err::<IdentityBond, BondError>(e) && *final(self) == *old(self),
                None => {
                    let b = old(self).bond.unwrap();
                    let c = old(self).early_exit.unwrap();
                    let nb = withdrawn(b, amount);
                    let penalty = penalty_for(
                        amount as int,
                        time_remaining(b, now),
                        b.bond_duration as int,
                        c.penalty_bps as int,
                    ) as i128;
                    &&& r == Ok::<IdentityBond, BondError>(nb)
                    &&& final(self).bond == Some(nb)
                    &&& old(self).same_settings(final(self))
                    &&& final(self).events@ == old(self).events@.push(
                        BondEvent::PenaltyApplied {
                            identity: b.identity,
                            amount,
                            penalty,
                            treasury: c.treasury,
                        },
                    ) + tier_change_events(
                        b.identity,
                        tier_for_amount(b.bonded_amount as int),
                        tier_for_amount(nb.bonded_amount as int),
                        now,
                    )
                },
            },
    {
        let mut bond = match &self.bond {
            Some(b) => b.copied(),
            None => return Err(BondError::NotFound),
        };
        let available = bond.bonded_amount - bond.slashed_amount;
        if amount > available {
            return Err(BondError::InsufficientBalance);
        }
        if is_period_ended(now, bond.bond_start, bond.bond_duration) {
            return Err(BondError::InvalidTiming);
        }
        let cfg = match &self.early_exit {
            Some(c) => c.copied(),
            None => return Err(BondError::NotInitialized),
        };
        if bond.bond_duration == 0 {
            return Err(BondError::InvalidTiming);
        }
        let end = bond.bond_start.saturating_add(bond.bond_duration);
        let remaining = end.saturating_sub(now);
        let penalty = match calculate_penalty(amount, remaining, bond.bond_duration, cfg.penalty_bps) {
            Ok(p) => p,
            Err(e) => return Err(e),
        };
        let new_bonded = match bond.bonded_amount.checked_sub(amount) {
            Some(v) => v,
            None => return Err(BondError::ArithmeticOverflow),
        };
        self.events.push(
            BondEvent::PenaltyApplied {
                identity: bond.identity.copied(),
                amount,
                penalty,
                treasury: cfg.treasury,
            },
        );
        let old_tier = get_tier_for_amount(bond.bonded_amount);
        bond.bonded_amount = new_bonded;
        let new_tier = get_tier_for_amount(bond.bonded_amount);
        emit_tier_change_if_needed(&mut self.events, &bond.identity, old_tier, new_tier, now);
        self.bond = Some(bond.copied());
        Ok(bond)
    }

    /// Why `slash` is refused, checked in this order: the admin, the bond, a negative
    /// amount, and the addition to the slashed amount.
    pub open spec fn slash_refusal(&self, admin: Principal, amount: i128) -> Option<BondError> {
        if self.admin_refusal(admin) is Some {
            self.admin_refusal(admin)
        } else {
            match self.bond {
                None => Some(BondError::NotFound),
                Some(b) => if amount < 0 {
                    Some(BondError::InvalidAmount)
                } else if b.slashed_amount + amount > i128::MAX {
                    Some(BondError::ArithmeticOverflow)
                } else {
                    None
                },
            }
        }
    }

    /// Slashes `amount` more of the bond (admin only). The slashed amount grows by
    /// `amount`, capped at the bonded amount, and the slash is published.
    pub fn slash(&mut self, admin: Principal, amount: i128) -> (r: Result<IdentityBond, BondError>)
        requires
            old(self).wf(),
        ensures
            final(self).wf(),
            old(self).keeps_records(final(self)),
            old(self).keeps_slashed(final(self)),
            match old(self).slash_refusal(admin, amount) {
                Some(e) => r == Err::<IdentityBond, BondError>(e) && *final(self) == *old(self),
                None => {
                    let b = old(self).bond.unwrap();
                    let nb = IdentityBond { slashed_amount: slashed_after(b, amount), ..b };
                    &&& r == Ok::<IdentityBond, BondError>(nb)
                    &&& final(self).bond == Some(nb)
                    &&& old(self).same_settings(final(self))
                    &&& final(self).events@ == old(self).events@.push(
                        BondEvent::Slashed {
                            identity: b.identity,
                            amount,
                            total_slashed: nb.slashed_amount,
                        },
                    )
                },
            },
    {
        self.check_admin(&admin)?;
        let mut bond = match &self.bond {
            Some(b) => b.copied(),
            None => return Err(BondError::NotFound),
        };
        if amount < 0 {
            return Err(BondError::InvalidAmount);
        }
        let new_slashed = match bond.slashed_amount.checked_add(amount) {
            Some(v) => v,
            None => return Err(BondError::ArithmeticOverflow),
        };
        bond.slashed_amount = if new_slashed > bond.bonded_amount {
            bond.bonded_amount
        } else {
            new_slashed
        };
        self.events.push(
            BondEvent::Slashed {
                identity: bond.identity.copied(),
                amount,
                total_slashed: bond.slashed_amount,
            },
        );
        self.bond = Some(bond.copied());
        Ok(bond)
    }

    /// Why `withdraw` is refused, checked in this order: the bond, the balance, the timing
    /// (a rolling bond needs a request whose notice has run out, any other bond an ended
    /// lock-up), and the subtraction.
    pub open spec fn withdraw_refusal(&self, amount: i128, now: u64) -> Option<BondError> {
        match self.bond {
            None => Some(BondError::NotFound),
            Some(b) => if amount > available(b) {
                Some(BondError::InsufficientBalance)
            } else if b.is_rolling && !(b.withdrawal_requested_at != 0 && now
                >= b.withdrawal_requested_at + b.notice_period_duration) {
                Some(BondError::InvalidTiming)
            } else if !b.is_rolling && now < b.bond_start + b.bond_duration {
                Some(BondError::InvalidTiming)
            } else if b.bonded_amount - amount > i128::MAX {
                Some(BondError::ArithmeticOverflow)
            } else {
                None
            },
        }
    }

    /// Withdraws `amount` without penalty, once the lock-up has ended or, for a rolling
    /// bond, once the notice period of a request has run out. The bond loses `amount`,
    /// and a tier change, if any, is published.
    pub fn withdraw(&mut self, amount: i128, now: u64) -> (r: Result<IdentityBond, BondError>)
        requires
            old(self).wf(),
        ensures
            final(self).wf(),
            old(self).keeps_records(final(self)),
            old(self).keeps_slashed(final(self)),
            match old(self).withdraw_refusal(amount, now) {
                Some(e) => r == Err::<IdentityBond, BondError>(e) && *final(self) == *old(self),
                None => {
                    let b = old(self).bond.unwrap();
                    let nb = withdrawn(b, amount);
                    &&& r == Ok::<IdentityBond, BondError>(nb)
                    &&& final(self).bond == Some(nb)
                    &&& old(self).same_settings(final(self))
                    &&& final(self).events@ == old(self).events@ + tier_change_events(
                        b.identity,
                        tier_for_amount(b.bonded_amount as int),
                        tier_for_amount(nb.bonded_amount as int),
                        now,
                    )
                },
            },
    {
        let mut bond = match &self.bond {
            Some(b) => b.copied(),
            None => return Err(BondError::NotFound),
        };
        let available = bond.bonded_amount - bond.slashed_amount;
        if amount > available {
            return Err(BondError::InsufficientBalance);
        }
        if bond.is_rolling {
            if !can_withdraw_after_notice(now, bond.withdrawal_requested_at, bond.notice_period_duration) {
                return Err(BondError::InvalidTiming);
            }
        } else if !is_period_ended(now, bond.bond_start, bond.bond_duration) {
            return Err(BondError::InvalidTiming);
        }
        let new_bonded = match bond.bonded_amount.checked_sub(amount) {
            Some(v) => v,
            None => return Err(BondError::ArithmeticOverflow),
        };
        let old_tier = get_tier_for_amount(bond.bonded_amount);
        bond.bonded_amount = new_bonded;
        let new_tier = get_tier_for_amount(bond.bonded_amount);
        emit_tier_change_if_needed(&mut self.events, &bond.identity, old_tier, new_tier, now);
        self.bond = Some(bond.copied());
        Ok(bond)
    }

    /// Why `create_bond` is refused: a lock-up end beyond `u64`, then a negative amount.
    pub open spec fn create_bond_refusal(amount: i128, duration: u64, now: u64) -> Option<BondError> {
        if now + duration > u64::MAX {
            Some(BondError::ArithmeticOverflow)
        } else if amount < 0 {
            Some(BondError::InvalidAmount)
        } else {
            None
        }
    }

    /// Creates the bond, starting now, replacing any earlier one. The tier of `amount` is
    /// published as a change from Bronze when it differs from Bronze.
    pub fn create_bond(
        &mut self,
        identity: Principal,
        amount: i128,
        duration: u64,
        is_rolling: bool,
        notice_period_duration: u64,
        now: u64,
    ) -> (r: Result<IdentityBond, BondError>)
        requires
            old(self).wf(),
        ensures
            final(self).wf(),
            old(self).keeps_records(final(self)),
            match Self::create_bond_refusal(amount, duration, now) {
                Some(e) => r == Err::<IdentityBond, BondError>(e) && *final(self) == *old(self),
                None => {
                    let nb = new_bond(identity, amount, duration, is_rolling, notice_period_duration, now);
                    &&& r == Ok::<IdentityBond, BondError>(nb)
                    &&& final(self).bond == Some(nb)
                    &&& old(self).same_settings(final(self))
                    &&& final(self).events@ == old(self).events@ + tier_change_events(
                        identity,
                        BondTier::Bronze,
                        tier_for_amount(amount as int),
                        now,
                    )
                },
            },
    {
        if now.checked_add(duration).is_none() {
            return Err(BondError::ArithmeticOverflow);
        }
        if amount < 0 {
            return Err(BondError::InvalidAmount);
        }
        let bond = IdentityBond {
            identity,
            bonded_amount: amount,
            bond_start: now,
            bond_duration: duration,
            slashed_amount: 0,
            active: true,
            is_rolling,
            withdrawal_requested_at: 0,
            notice_period_duration,
        };
        let tier = get_tier_for_amount(amount);
        emit_tier_change_if_needed(&mut self.events, &bond.identity, BondTier::Bronze, tier, now);
        self.bond = Some(bond.copied());
        Ok(bond)
    }

    /// Renews a rolling bond whose period has ended: a new period starts now, the pending
    /// request is cleared, and the renewal is published. Any other bond is returned as it
    /// is, with nothing published.
    pub fn renew_if_rolling(&mut self, now: u64) -> (r: Result<IdentityBond, BondError>)
        requires
            old(self).wf(),
        ensures
            final(self).wf(),
            old(self).keeps_records(final(self)),
            old(self).keeps_slashed(final(self)),
            match old(self).bond {
                None => r == Err::<IdentityBond, BondError>(BondError::NotFound) && *final(self)
                    == *old(self),
                Some(b) => {
                    let nb = renewed(b, now);
                    &&& r == Ok::<IdentityBond, BondError>(nb)
                    &&& final(self).bond == Some(nb)
                    &&& old(self).same_settings(final(self))
                    &&& final(self).events@ == if b.is_rolling && now >= b.bond_start
                        + b.bond_duration {
                        old(self).events@.push(
                            BondEvent::BondRenewed {
                                identity: b.identity,
                                bond_start: now,
                                bond_duration: b.bond_duration,
                            },
                        )
                    } else {
                        old(self).events@
                    }
                },
            },
    {
        let mut bond = match &self.bond {
            Some(b) => b.copied(),
            None => return Err(BondError::NotFound),
        };
        if !bond.is_rolling {
            return Ok(bond);
        }
        if !is_period_ended(now, bond.bond_start, bond.bond_duration) {
            return Ok(bond);
        }
        rolling_bond::apply_renewal(&mut bond, now);
        self.events.push(
            BondEvent::BondRenewed {
                identity: bond.identity.copied(),
                bond_start: bond.bond_start,
                bond_duration: bond.bond_duration,
            },
        );
        self.bond = Some(bond.copied());
        Ok(bond)
    }

    /// Why `request_withdrawal` is refused: no bond, a bond that is not rolling, or a
    /// request already pending.
    pub open spec fn request_withdrawal_refusal(&self) -> Option<BondError> {
        match self.bond {
            None => Some(BondError::NotFound),
            Some(b) => if !b.is_rolling {
                Some(BondError::InvalidTiming)
            } else if b.withdrawal_requested_at != 0 {
                Some(BondError::InvalidTiming)
            } else {
                None
            },
        }
    }

    /// Requests withdrawal from a rolling bond at `now`; withdrawal is allowed once the
    /// notice period has run out. The request is published.
    pub fn request_withdrawal(&mut self, now: u64) -> (r: Result<IdentityBond, BondError>)
        requires
            old(self).wf(),
        ensures
            final(self).wf(),
            old(self).keeps_records(final(self)),
            old(self).keeps_slashed(final(self)),
            match old(self).request_withdrawal_refusal() {
                Some(e) => r == Err::<IdentityBond, BondError>(e) && *final(self) == *old(self),
                None => {
                    let b = old(self).bond.unwrap();
                    let nb = IdentityBond { withdrawal_requested_at: now, ..b };
                    &&& r == Ok::<IdentityBond, BondError>(nb)
                    &&& final(self).bond == Some(nb)
                    &&& old(self).same_settings(final(self))
                    &&& final(self).events@ == old(self).events@.push(
                        BondEvent::WithdrawalRequested { identity: b.identity, requested_at: now },
                    )
                },
            },
    {
        let mut bond = match &self.bond {
            Some(b) => b.copied(),
            None => return Err(BondError::NotFound),
        };
        if !bond.is_rolling {
            return Err(BondError::InvalidTiming);
        }
        if bond.withdrawal_requested_at != 0 {
            return Err(BondError::InvalidTiming);
        }
        bond.withdrawal_requested_at = now;
        self.events.push(
            BondEvent::WithdrawalRequested {
                identity: bond.identity.copied(),
                requested_at: bond.withdrawal_requested_at,
            },
        );
        self.bond = Some(bond.copied());
        Ok(bond)
    }

    /// Why `set_emergency_mode` is refused: the admin, a missing configuration, then a
    /// governance principal other than the configured one.
    pub open spec fn emergency_mode_refusal(&self, admin: Principal, governance: Principal) -> Option<BondError> {
        if self.admin_refusal(admin) is Some {
            self.admin_refusal(admin)
        } else {
            match self.emergency.config {
                None => Some(BondError::NotInitialized),
                Some(c) => if c.governance@ != governance@ {
                    Some(BondError::Unauthorized)
                } else {
                    None
                },
            }
        }
    }

    /// Switches emergency mode on or off with the approval of both the admin and the
    /// configured governance, and publishes the switch.
    pub fn set_emergency_mode(
        &mut self,
        admin: Principal,
        governance: Principal,
        enabled: bool,
        now: u64,
    ) -> (r: Result<(), BondError>)
        requires
            old(self).wf(),
        ensures
            final(self).wf(),
            old(self).keeps_records(final(self)),
            old(self).keeps_slashed(final(self)),
            match old(self).emergency_mode_refusal(admin, governance) {
                Some(e) => r == Err::<(), BondError>(e) && *final(self) == *old(self),
                None => {
                    let c = old(self).emergency.config.unwrap();
                    &&& r is Ok
                    &&& final(self).emergency.config == Some(EmergencyConfig { enabled, ..c })
                    &&& final(self).emergency.records == old(self).emergency.records
                    &&& final(self).admin == old(self).admin
                    &&& final(self).bond == old(self).bond
                    &&& final(self).early_exit == old(self).early_exit
                    &&& final(self).events@ == old(self).events@.push(
                        BondEvent::EmergencyMode { enabled, admin, governance, timestamp: now },
                    )
                },
            },
    {
        self.check_admin(&admin)?;
        let cfg = match emergency::get_config(&self.emergency) {
            Ok(c) => c,
            Err(e) => return Err(e),
        };
        if !governance.same_as(&cfg.governance) {
            return Err(BondError::Unauthorized);
        }
        match emergency::set_enabled(&mut self.emergency, enabled) {
            Ok(()) => {},
            Err(e) => return Err(e),
        }
        emergency::emit_emergency_mode_event(&mut self.events, enabled, &admin, &governance, now);
        Ok(())
    }

    /// Why `extend_duration` is refused: no bond, then a duration or a lock-up end beyond
    /// `u64`.
    pub open spec fn extend_duration_refusal(&self, additional_duration: u64) -> Option<BondError> {
        match self.bond {
            None => Some(BondError::NotFound),
            Some(b) => if b.bond_duration + additional_duration > u64::MAX {
                Some(BondError::ArithmeticOverflow)
            } else if b.bond_start + b.bond_duration + additional_duration > u64::MAX {
                Some(BondError::ArithmeticOverflow)
            } else {
                None
            },
        }
    }

    /// Lengthens the lock-up by `additional_duration`.
    pub fn extend_duration(&mut self, additional_duration: u64) -> (r: Result<IdentityBond, BondError>)
        requires
            old(self).wf(),
        ensures
            final(self).wf(),
            old(self).keeps_records(final(self)),
            old(self).keeps_slashed(final(self)),
            match old(self).extend_duration_refusal(additional_duration) {
                Some(e) => r == Err::<IdentityBond, BondError>(e) && *final(self) == *old(self),
                None => {
                    let b = old(self).bond.unwrap();
                    let nb = IdentityBond {
                        bond_duration: (b.bond_duration + additional_duration) as u64,
                        ..b
                    };
                    &&& r == Ok::<IdentityBond, BondError>(nb)
                    &&& final(self).bond == Some(nb)
                    &&& old(self).same_settings(final(self))
                    &&& final(self).events == old(self).events
                },
            },
    {
        let mut bond = match &self.bond {
            Some(b) => b.copied(),
            None => return Err(BondError::NotFound),
        };
        bond.bond_duration = match bond.bond_duration.checked_add(additional_duration) {
            Some(v) => v,
            None => return Err(BondError::ArithmeticOverflow),
        };
        if bond.bond_start.checked_add(bond.bond_duration).is_none() {
            return Err(BondError::ArithmeticOverflow);
        }
        self.bond = Some(bond.copied());
        Ok(bond)
    }

    /// Why `top_up` is refused: no bond, a sum beyond `i128`, or a sum below the slashed
    /// amount.
    pub open spec fn top_up_refusal(&self, amount: i128) -> Option<BondError> {
        match self.bond {
            None => Some(BondError::NotFound),
            Some(b) => if b.bonded_amount + amount > i128::MAX || b.bonded_amount + amount
                < i128::MIN {
                Some(BondError::ArithmeticOverflow)
            } else if b.bonded_amount + amount < b.slashed_amount {
                Some(BondError::InsufficientBalance)
            } else {
                None
            },
        }
    }

    /// Adds `amount` to the bonded amount, and publishes a tier change, if any.
    pub fn top_up(&mut self, amount: i128, now: u64) -> (r: Result<IdentityBond, BondError>)
        requires
            old(self).wf(),
        ensures
            final(self).wf(),
            old(self).keeps_records(final(self)),
            old(self).keeps_slashed(final(self)),
            match old(self).top_up_refusal(amount) {
                Some(e) => r == Err::<IdentityBond, BondError>(e) && *final(self) == *old(self),
                None => {
                    let b = old(self).bond.unwrap();
                    let nb = IdentityBond { bonded_amount: (b.bonded_amount + amount) as i128, ..b };
                    &&& r == Ok::<IdentityBond, BondError>(nb)
                    &&& final(self).bond == Some(nb)
                    &&& old(self).same_settings(final(self))
                    &&& final(self).events@ == old(self).events@ + tier_change_events(
                        b.identity,
                        tier_for_amount(b.bonded_amount as int),
                        tier_for_amount(nb.bonded_amount as int),
                        now,
                    )
                },
            },
    {
        let mut bond = match &self.bond {
            Some(b) => b.copied(),
            None => return Err(BondError::NotFound),
        };
        let new_bonded = match bond.bonded_amount.checked_add(amount) {
            Some(v) => v,
            None => return Err(BondError::ArithmeticOverflow),
        };
        if new_bonded < bond.slashed_amount {
            return Err(BondError::InsufficientBalance);
        }
        let old_tier = get_tier_for_amount(bond.bonded_amount);
        bond.bonded_amount = new_bonded;
        let new_tier = get_tier_for_amount(bond.bonded_amount);
        emit_tier_change_if_needed(&mut self.events, &bond.identity, old_tier, new_tier, now);
        self.bond = Some(bond.copied());
        Ok(bond)
    }

    /// Configures emergency withdrawals (admin only): the governance approver, the
    /// treasury, the fee in basis points (at most 10000) and whether emergency mode is on.
    pub fn set_emergency_config(
        &mut self,
        admin: Principal,
        governance: Principal,
        treasury: Principal,
        emergency_fee_bps: u32,
        enabled: bool,
    ) -> (r: Result<(), BondError>)
        requires
            old(self).wf(),
        ensures
            final(self).wf(),
            old(self).keeps_records(final(self)),
            old(self).keeps_slashed(final(self)),
            old(self).admin_refusal(admin) is Some ==> r == Err::<(), BondError>(
                old(self).admin_refusal(admin).unwrap(),
            ) && *final(self) == *old(self),
            old(self).admin_refusal(admin) is None && emergency_fee_bps > MAX_FEE_BPS ==> r
                == Err::<(), BondError>(BondError::InvalidConfig) && *final(self) == *old(self),
            old(self).admin_refusal(admin) is None && emergency_fee_bps <= MAX_FEE_BPS ==> {
                &&& r is Ok
                &&& final(self).emergency.config == Some(
                    EmergencyConfig { governance, treasury, emergency_fee_bps, enabled },
                )
                &&& final(self).emergency.records == old(self).emergency.records
                &&& final(self).admin == old(self).admin
                &&& final(self).bond == old(self).bond
                &&& final(self).early_exit == old(self).early_exit
                &&& final(self).events == old(self).events
            },
    {
        self.check_admin(&admin)?;
        emergency::set_config(&mut self.emergency, governance, treasury, emergency_fee_bps, enabled)
    }

    /// Configures early-exit penalties (admin only): the treasury and the penalty in basis
    /// points (at most 10000).
    pub fn set_early_exit_config(
        &mut self,
        admin: Principal,
        treasury: Principal,
        penalty_bps: u32,
    ) -> (r: Result<(), BondError>)
        requires
            old(self).wf(),
        ensures
            final(self).wf(),
            old(self).keeps_records(final(self)),
            old(self).keeps_slashed(final(self)),
            old(self).admin_refusal(admin) is Some ==> r == Err::<(), BondError>(
                old(self).admin_refusal(admin).unwrap(),
            ) && *final(self) == *old(self),
            old(self).admin_refusal(admin) is None && penalty_bps > MAX_FEE_BPS ==> r == Err::<
                (),
                BondError,
            >(BondError::InvalidConfig) && *final(self) == *old(self),
            old(self).admin_refusal(admin) is None && penalty_bps <= MAX_FEE_BPS ==> {
                &&& r is Ok
                &&& final(self).early_exit == Some(EarlyExitConfig { treasury, penalty_bps })
                &&& final(self).admin == old(self).admin
                &&& final(self).bond == old(self).bond
                &&& final(self).emergency == old(self).emergency
                &&& final(self).events == old(self).events
            },
    {
        self.check_admin(&admin)?;
        if penalty_bps > MAX_FEE_BPS {
            return Err(BondError::InvalidConfig);
        }
        self.early_exit = Some(EarlyExitConfig { treasury, penalty_bps });
        Ok(())
    }

    /// Sets the admin.
    pub fn initialize(&mut self, admin: Principal)
        requires
            old(self).wf(),
        ensures
            final(self).wf(),
            old(self).keeps_records(final(self)),
            old(self).keeps_slashed(final(self)),
            final(self).admin == Some(admin),
            final(self).bond == old(self).bond,
            final(self).early_exit == old(self).early_exit,
            final(self).emergency == old(self).emergency,
            final(self).events == old(self).events,
    {
        self.admin = Some(admin);
    }

    /// The current bond; `NotFound` when none was created.
    pub fn get_identity_state(&self) -> (r: Result<IdentityBond, BondError>)
        ensures
            match self.bond {
                Some(b) => r == Ok::<IdentityBond, BondError>(b),
                None => r == Err::<IdentityBond, BondError>(BondError::NotFound),
            },
    {
        match &self.bond {
            Some(b) => Ok(b.copied()),
            None => Err(BondError::NotFound),
        }
    }

    /// The tier of the current bonded amount; `NotFound` when there is no bond.
    pub fn get_tier(&self) -> (r: Result<BondTier, BondError>)
        ensures
            match self.bond {
                Some(b) => r == Ok::<BondTier, BondError>(tier_for_amount(b.bonded_amount as int)),
                None => r == Err::<BondTier, BondError>(BondError::NotFound),
            },
    {
        match &self.bond {
            Some(b) => Ok(get_tier_for_amount(b.bonded_amount)),
            None => Err(BondError::NotFound),
        }
    }

    /// The emergency configuration; `NotInitialized` when none was set.
    pub fn get_emergency_config(&self) -> (r: Result<EmergencyConfig, BondError>)
        ensures
            match self.emergency.config {
                Some(c) => r == Ok::<EmergencyConfig, BondError>(c),
                None => r == Err::<EmergencyConfig, BondError>(BondError::NotInitialized),
            },
    {
        emergency::get_config(&self.emergency)
    }

    /// The id of the latest emergency record, 0 when there is none.
    pub fn get_latest_emergency_record_id(&self) -> (r: u64)
        requires
            self.wf(),
        ensures
            r == self.emergency.records@.len(),
    {
        emergency::latest_record_id(&self.emergency)
    }

    /// The emergency record with the given id; `NotFound` when there is none.
    pub fn get_emergency_record(&self, id: u64) -> (r: Result<EmergencyWithdrawalRecord, BondError>)
        requires
            self.wf(),
        ensures
            1 <= id <= self.emergency.records@.len() ==> r == Ok::<EmergencyWithdrawalRecord, BondError>(
                self.emergency.records@[id - 1],
            ),
            !(1 <= id <= self.emergency.records@.len()) ==> r == Err::<
                EmergencyWithdrawalRecord,
                BondError,
            >(BondError::NotFound),
    {
        emergency::get_record(&self.emergency, id)
    }
}

} // verus!
