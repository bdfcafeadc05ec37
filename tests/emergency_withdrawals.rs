use credence_bond::emergency::{calculate_fee, EmergencyState};
use credence_bond::errors::BondError;
use credence_bond::events::BondEvent;
use credence_bond::principal::Principal;
use credence_bond::CredenceBond;

fn who(key: &str) -> Principal {
    Principal::new(String::from(key))
}

fn configured(fee_bps: u32, enabled: bool) -> CredenceBond {
    let mut s = CredenceBond::new();
    s.initialize(who("admin"));
    s.set_emergency_config(who("admin"), who("gov"), who("treasury"), fee_bps, enabled).unwrap();
    s.create_bond(who("A"), 10_000, 1000, false, 0, 0).unwrap();
    s.take_events();
    s
}

#[test]
fn fee_above_limit_and_disabled_mode_fail() {
    let mut s = CredenceBond::new();
    s.initialize(who("admin"));
    assert!(matches!(
        s.set_emergency_config(who("admin"), who("gov"), who("treasury"), 10_001, true),
        Err(BondError::InvalidConfig)
    ));
    assert!(matches!(s.get_emergency_config(), Err(BondError::NotInitialized)));
    let mut s = configured(100, false);
    assert!(matches!(
        s.emergency_withdraw(who("admin"), who("gov"), 100, String::from("crisis"), 5),
        Err(BondError::Unauthorized)
    ));
    assert_eq!(s.get_latest_emergency_record_id(), 0);
    assert_eq!(s.get_identity_state().unwrap().bonded_amount, 10_000);
}

#[test]
fn emergency_withdraw_records_and_publishes() {
    let mut s = configured(250, true);
    let b = s.emergency_withdraw(who("admin"), who("gov"), 4000, String::from("crisis"), 42).unwrap();
    assert_eq!(b.bonded_amount, 6000);
    assert_eq!(s.get_latest_emergency_record_id(), 1);
    let r = s.get_emergency_record(1).unwrap();
    assert_eq!(r.id, 1);
    assert_eq!(r.gross_amount, 4000);
    assert_eq!(r.fee_amount, 100);
    assert_eq!(r.net_amount, 3900);
    assert_eq!(r.identity.key, "A");
    assert_eq!(r.treasury.key, "treasury");
    assert_eq!(r.approved_admin.key, "admin");
    assert_eq!(r.approved_governance.key, "gov");
    assert_eq!(r.reason, "crisis");
    assert_eq!(r.timestamp, 42);
    let events = s.take_events();
    assert_eq!(events.len(), 1);
    match &events[0] {
        BondEvent::EmergencyWithdrawal { record_id, gross_amount, fee_amount, net_amount, reason, timestamp, .. } => {
            assert_eq!(*record_id, 1);
            assert_eq!(*gross_amount, 4000);
            assert_eq!(*fee_amount, 100);
            assert_eq!(*net_amount, 3900);
            assert_eq!(reason, "crisis");
            assert_eq!(*timestamp, 42);
        }
        other => panic!("unexpected event {:?}", other),
    }
}

#[test]
fn emergency_records_stay_as_written() {
    let mut s = configured(0, true);
    s.emergency_withdraw(who("admin"), who("gov"), 1000, String::from("first"), 1).unwrap();
    let before = s.get_emergency_record(1).unwrap();
    s.emergency_withdraw(who("admin"), who("gov"), 2000, String::from("second"), 2).unwrap();
    s.slash(who("admin"), 10).unwrap();
    s.top_up(5, 3).unwrap();
    assert_eq!(s.get_latest_emergency_record_id(), 2);
    let after = s.get_emergency_record(1).unwrap();
    assert_eq!(after.gross_amount, before.gross_amount);
    assert_eq!(after.fee_amount, 0);
    assert_eq!(after.net_amount, 1000);
    assert_eq!(after.reason, "first");
    assert_eq!(after.timestamp, 1);
    let second = s.get_emergency_record(2).unwrap();
    assert_eq!(second.id, 2);
    assert_eq!(second.gross_amount, 2000);
    assert!(matches!(s.get_emergency_record(0), Err(BondError::NotFound)));
    assert!(matches!(s.get_emergency_record(3), Err(BondError::NotFound)));
}

#[test]
fn emergency_withdraw_refusals() {
    let mut s = configured(100, true);
    assert!(matches!(
        s.emergency_withdraw(who("eve"), who("gov"), 10, String::from("x"), 0),
        Err(BondError::Unauthorized)
    ));
    assert!(matches!(
        s.emergency_withdraw(who("admin"), who("eve"), 10, String::from("x"), 0),
        Err(BondError::Unauthorized)
    ));
    assert!(matches!(
        s.emergency_withdraw(who("admin"), who("gov"), 0, String::from("x"), 0),
        Err(BondError::InvalidAmount)
    ));
    s.slash(who("admin"), 9_000).unwrap();
    assert!(matches!(
        s.emergency_withdraw(who("admin"), who("gov"), 1_001, String::from("x"), 0),
        Err(BondError::InsufficientBalance)
    ));
    assert!(s.emergency_withdraw(who("admin"), who("gov"), 1_000, String::from("x"), 0).is_ok());
    assert_eq!(s.get_identity_state().unwrap().bonded_amount, 9_000);
}

#[test]
fn emergency_mode_switch() {
    let mut s = CredenceBond::new();
    s.initialize(who("admin"));
    assert!(matches!(s.set_emergency_mode(who("admin"), who("gov"), true, 0), Err(BondError::NotInitialized)));
    s.set_emergency_config(who("admin"), who("gov"), who("treasury"), 50, false).unwrap();
    assert!(matches!(s.set_emergency_mode(who("admin"), who("eve"), true, 0), Err(BondError::Unauthorized)));
    s.set_emergency_mode(who("admin"), who("gov"), true, 9).unwrap();
    let cfg = s.get_emergency_config().unwrap();
    assert!(cfg.enabled);
    assert_eq!(cfg.emergency_fee_bps, 50);
    assert_eq!(cfg.governance.key, "gov");
    let events = s.take_events();
    assert_eq!(events.len(), 1);
    assert!(matches!(events[0], BondEvent::EmergencyMode { enabled: true, timestamp: 9, .. }));
}

#[test]
fn fee_values() {
    assert_eq!(calculate_fee(1000, 250), 25);
    assert_eq!(calculate_fee(1000, 0), 0);
    assert_eq!(calculate_fee(1000, 10_000), 1000);
    assert_eq!(calculate_fee(999, 1), 0);
    assert_eq!(calculate_fee(-10_010, 1), -1);
}

#[test]
fn record_ledger_starts_empty() {
    let st = EmergencyState::new();
    assert_eq!(credence_bond::emergency::latest_record_id(&st), 0);
    assert!(matches!(credence_bond::emergency::get_record(&st, 1), Err(BondError::NotFound)));
}

// Design point kept as documented, not assumed correct: the fee is carved out of the
// gross amount, and the whole gross amount leaves the bond.
#[test]
fn emergency_withdraw_deducts_gross_amount() {
    let mut s = configured(1000, true);
    let b = s.emergency_withdraw(who("admin"), who("gov"), 1000, String::from("gross"), 3).unwrap();
    assert_eq!(b.bonded_amount, 9000);
    let r = s.get_emergency_record(1).unwrap();
    assert_eq!(r.fee_amount, 100);
    assert_eq!(r.net_amount, 900);
    assert_eq!(r.gross_amount, r.fee_amount + r.net_amount);
}
