//! Emergency withdrawals: configuration, fee and the append-only audit ledger.
use vstd::prelude::*;

use crate::early_exit_penalty::div_toward_zero;
use crate::errors::BondError;
use crate::events::BondEvent;
use crate::principal::Principal;

verus! {

/// Largest fee rate, in basis points (the whole amount).
pub const MAX_FEE_BPS: u32 = 10_000;

/// Emergency mode configuration.
#[derive(Clone, Debug)]
pub struct EmergencyConfig {
    pub governance: Principal,
    pub treasury: Principal,
    pub emergency_fee_bps: u32,
    pub enabled: bool,
}

impl EmergencyConfig {
    /// An identical copy.
    pub fn copied(&self) -> (r: EmergencyConfig)
        ensures
            r == *self,
    {
        EmergencyConfig {
            governance: self.governance.copied(),
            treasury: self.treasury.copied(),
            emergency_fee_bps: self.emergency_fee_bps,
            enabled: self.enabled,
        }
    }
}

/// Immutable audit record of one emergency withdrawal.
#[derive(Clone, Debug)]
pub struct EmergencyWithdrawalRecord {
    pub id: u64,
    pub identity: Principal,
    pub gross_amount: i128,
    pub fee_amount: i128,
    pub net_amount: i128,
    pub treasury: Principal,
    pub approved_admin: Principal,
    pub approved_governance: Principal,
    pub reason: String,
    pub timestamp: u64,
}

impl EmergencyWithdrawalRecord {
    /// An identical copy.
    pub fn copied(&self) -> (r: EmergencyWithdrawalRecord)
        ensures
            r == *self,
    {
        EmergencyWithdrawalRecord {
            id: self.id,
            identity: self.identity.copied(),
            gross_amount: self.gross_amount,
            fee_amount: self.fee_amount,
            net_amount: self.net_amount,
            treasury: self.treasury.copied(),
            approved_admin: self.approved_admin.copied(),
            approved_governance: self.approved_governance.copied(),
            reason: self.reason.clone(),
            timestamp: self.timestamp,
        }
    }
}

/// The emergency configuration, once set, and the records written so far, the record
/// with id `i` at index `i - 1`.
pub struct EmergencyState {
    pub config: Option<EmergencyConfig>,
    pub records: Vec<EmergencyWithdrawalRecord>,
}

impl EmergencyState {
    /// Every record carries its position as id, and the fee rate is at most 10000.
    pub open spec fn wf(&self) -> bool {
        &&& self.records@.len() <= u64::MAX
        &&& forall|i: int| 0 <= i < self.records@.len() ==> #[trigger] self.records@[i].id == i + 1
        &&& match self.config {
            Some(c) => c.emergency_fee_bps <= MAX_FEE_BPS,
            None => true,
        }
    }

    /// No configuration and no records.
    pub fn new() -> (r: EmergencyState)
        ensures
            r.config is None,
            r.records@ == Seq::<EmergencyWithdrawalRecord>::empty(),
            r.wf(),
    {
        EmergencyState { config: None, records: Vec::new() }
    }
}

/// The fee charged on an emergency withdrawal of `amount`: `amount * fee_bps / 10000`.
pub open spec fn fee_for(amount: int, fee_bps: int) -> int {
    if fee_bps == 0 {
        0
    } else {
        div_toward_zero(amount * fee_bps, 10_000)
    }
}

/// Whether computing the fee overflows `i128`.
pub open spec fn fee_overflows(amount: int, fee_bps: int) -> bool {
    fee_bps != 0 && (amount * fee_bps > i128::MAX || amount * fee_bps < i128::MIN)
}

/// Stores a new emergency configuration; a fee rate above 10000 is refused with
/// `InvalidConfig` and leaves the state as it was.
pub fn set_config(
    st: &mut EmergencyState,
    governance: Principal,
    treasury: Principal,
    emergency_fee_bps: u32,
    enabled: bool,
) -> (r: Result<(), BondError>)
    requires
        old(st).wf(),
    ensures
        final(st).wf(),
        emergency_fee_bps > MAX_FEE_BPS ==> r == Err::<(), BondError>(BondError::InvalidConfig)
            && *final(st) == *old(st),
        emergency_fee_bps <= MAX_FEE_BPS ==> r is Ok && final(st).records == old(st).records
            && final(st).config == Some(
            EmergencyConfig { governance, treasury, emergency_fee_bps, enabled },
        ),
{
    if emergency_fee_bps > MAX_FEE_BPS {
        return Err(BondError::InvalidConfig);
    }
    st.config = Some(EmergencyConfig { governance, treasury, emergency_fee_bps, enabled });
    Ok(())
}

/// The current emergency configuration; `NotInitialized` when none was set.
pub fn get_config(st: &EmergencyState) -> (r: Result<EmergencyConfig, BondError>)
    ensures
        match st.config {
            Some(c) => r == Ok::<EmergencyConfig, BondError>(c),
            None => r == Err::<EmergencyConfig, BondError>(BondError::NotInitialized),
        },
{
    match &st.config {
        Some(c) => Ok(c.copied()),
        None => Err(BondError::NotInitialized),
    }
}

/// Switches emergency mode on or off, keeping the rest of the configuration;
/// `NotInitialized` when no configuration was set.
pub fn set_enabled(st: &mut EmergencyState, enabled: bool) -> (r: Result<(), BondError>)
    requires
        old(st).wf(),
    ensures
        final(st).wf(),
        final(st).records == old(st).records,
        match old(st).config {
            Some(c) => r is Ok && final(st).config == Some(EmergencyConfig { enabled, ..c }),
            None => r == Err::<(), BondError>(BondError::NotInitialized) && *final(st) == *old(st),
        },
{
    match &mut st.config {
        Some(c) => {
            c.enabled = enabled;
            Ok(())
        },
        None => Err(BondError::NotInitialized),
    }
}

/// Calculates the emergency fee for a withdrawal amount.
#[must_use]
pub fn calculate_fee(amount: i128, fee_bps: u32) -> (r: i128)
    requires
        !fee_overflows(amount as int, fee_bps as int),
    ensures
        r == fee_for(amount as int, fee_bps as int),
{
    if fee_bps == 0 {
        return 0;
    }
    amount * (fee_bps as i128) / 10_000
}

/// The record that `store_record` appends.
pub open spec fn record_of(
    id: u64,
    identity: Principal,
    gross_amount: i128,
    fee_amount: i128,
    net_amount: i128,
    treasury: Principal,
    approved_admin: Principal,
    approved_governance: Principal,
    reason: String,
    timestamp: u64,
) -> EmergencyWithdrawalRecord {
    EmergencyWithdrawalRecord {
        id,
        identity,
        gross_amount,
        fee_amount,
        net_amount,
        treasury,
        approved_admin,
        approved_governance,
        reason,
        timestamp,
    }
}

/// Appends an immutable record under the next id (the previous latest id plus one) and
/// returns that id; `ArithmeticOverflow` when the id would leave `u64`.
pub fn store_record(
    st: &mut EmergencyState,
    identity: Principal,
    gross_amount: i128,
    fee_amount: i128,
    net_amount: i128,
    treasury: Principal,
    approved_admin: Principal,
    approved_governance: Principal,
    reason: String,
    timestamp: u64,
) -> (r: Result<u64, BondError>)
    requires
        old(st).wf(),
    ensures
        final(st).wf(),
        old(st).records@.len() == u64::MAX ==> r == Err::<u64, BondError>(
            BondError::ArithmeticOverflow,
        ) && *final(st) == *old(st),
        old(st).records@.len() < u64::MAX ==> {
            &&& r == Ok::<u64, BondError>((old(st).records@.len() + 1) as u64)
            &&& final(st).config == old(st).config
            &&& final(st).records@ == old(st).records@.push(
                record_of(
                    (old(st).records@.len() + 1) as u64,
                    identity,
                    gross_amount,
                    fee_amount,
                    net_amount,
                    treasury,
                    approved_admin,
                    approved_governance,
                    reason,
                    timestamp,
                ),
            )
        },
{
    let latest = st.records.len() as u64;
    let next_id = match latest.checked_add(1) {
        Some(id) => id,
        None => return Err(BondError::ArithmeticOverflow),
    };
    let record = EmergencyWithdrawalRecord {
        id: next_id,
        identity,
        gross_amount,
        fee_amount,
        net_amount,
        treasury,
        approved_admin,
        approved_governance,
        reason,
        timestamp,
    };
    st.records.push(record);
    Ok(next_id)
}

/// The id of the latest emergency record, 0 when there is none.
#[must_use]
pub fn latest_record_id(st: &EmergencyState) -> (r: u64)
    requires
        st.wf(),
    ensures
        r == st.records@.len(),
{
    st.records.len() as u64
}

/// The emergency record with the given id; `NotFound` when there is none.
pub fn get_record(st: &EmergencyState, id: u64) -> (r: Result<EmergencyWithdrawalRecord, BondError>)
    requires
        st.wf(),
    ensures
        1 <= id <= st.records@.len() ==> r == Ok::<EmergencyWithdrawalRecord, BondError>(
            st.records@[id - 1],
        ),
        !(1 <= id <= st.records@.len()) ==> r == Err::<EmergencyWithdrawalRecord, BondError>(
            BondError::NotFound,
        ),
{
    if id == 0 || id > st.records.len() as u64 {
        return Err(BondError::NotFound);
    }
    Ok(st.records[(id - 1) as usize].copied())
}

/// Publishes that emergency mode was switched.
pub fn emit_emergency_mode_event(
    events: &mut Vec<BondEvent>,
    enabled: bool,
    admin: &Principal,
    governance: &Principal,
    timestamp: u64,
)
    ensures
        final(events)@ == old(events)@.push(
            BondEvent::EmergencyMode { enabled, admin: *admin, governance: *governance, timestamp },
        ),
{
    events.push(
        BondEvent::EmergencyMode {
            enabled,
            admin: admin.copied(),
            governance: governance.copied(),
            timestamp,
        },
    );
}

/// Publishes that an emergency withdrawal was executed.
pub fn emit_emergency_withdrawal_event(
    events: &mut Vec<BondEvent>,
    record_id: u64,
    identity: &Principal,
    gross_amount: i128,
    fee_amount: i128,
    net_amount: i128,
    reason: &String,
    timestamp: u64,
)
    ensures
        final(events)@ == old(events)@.push(
            BondEvent::EmergencyWithdrawal {
                record_id,
                identity: *identity,
                gross_amount,
                fee_amount,
                net_amount,
                reason: *reason,
                timestamp,
            },
        ),
{
    events.push(
        BondEvent::EmergencyWithdrawal {
            record_id,
            identity: identity.copied(),
            gross_amount,
            fee_amount,
            net_amount,
            reason: reason.clone(),
            timestamp,
        },
    );
}

} // verus!
