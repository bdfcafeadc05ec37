use credence_bond::errors::BondError;
use credence_bond::events::BondEvent;
use credence_bond::principal::Principal;
use credence_bond::tiered_bond::{BondTier, SILVER_THRESHOLD};
use credence_bond::CredenceBond;

fn who(key: &str) -> Principal {
    Principal::new(String::from(key))
}

fn with_admin() -> CredenceBond {
    let mut s = CredenceBond::new();
    s.initialize(who("admin"));
    s
}

#[test]
fn create_withdraw_and_withdraw_early() {
    let mut s = with_admin();
    s.set_early_exit_config(who("admin"), who("treasury"), 500).unwrap();
    let b = s.create_bond(who("A"), 1000, 1000, false, 0, 100).unwrap();
    assert_eq!(b.bonded_amount, 1000);
    assert_eq!(b.bond_start, 100);
    assert_eq!(b.slashed_amount, 0);
    assert!(b.active);
    assert_eq!(s.get_tier(), Ok(BondTier::Bronze));

    assert!(matches!(s.withdraw(2000, 200), Err(BondError::InsufficientBalance)));
    assert!(matches!(s.withdraw(500, 200), Err(BondError::InvalidTiming)));

    s.take_events();
    let b = s.withdraw_early(500, 600).unwrap();
    assert_eq!(b.bonded_amount, 500);
    assert_eq!(s.get_tier(), Ok(BondTier::Bronze));
    let events = s.take_events();
    assert_eq!(events.len(), 1);
    // 500 * 500 / 10000 = 25; 25 * (1100 - 600) / 1000 = 12
    match &events[0] {
        BondEvent::PenaltyApplied { identity, amount, penalty, treasury } => {
            assert_eq!(identity.key, "A");
            assert_eq!(*amount, 500);
            assert_eq!(*penalty, 12);
            assert_eq!(treasury.key, "treasury");
        }
        other => panic!("unexpected event {:?}", other),
    }
}

#[test]
fn withdraw_after_lockup_ends() {
    let mut s = with_admin();
    s.create_bond(who("A"), 1000, 1000, false, 0, 100).unwrap();
    assert!(matches!(s.withdraw(500, 1099), Err(BondError::InvalidTiming)));
    let b = s.withdraw(500, 1100).unwrap();
    assert_eq!(b.bonded_amount, 500);
    assert!(matches!(s.withdraw_early(100, 1100), Err(BondError::InvalidTiming)));
}

#[test]
fn withdraw_early_needs_config() {
    let mut s = with_admin();
    s.create_bond(who("A"), 1000, 1000, false, 0, 100).unwrap();
    assert!(matches!(s.withdraw_early(100, 200), Err(BondError::NotInitialized)));
    assert_eq!(s.get_identity_state().unwrap().bonded_amount, 1000);
}

#[test]
fn rolling_bond_notice_period() {
    let mut s = with_admin();
    s.create_bond(who("R"), 1000, 500, true, 100, 10).unwrap();
    let b = s.request_withdrawal(50).unwrap();
    assert_eq!(b.withdrawal_requested_at, 50);
    assert!(matches!(s.request_withdrawal(60), Err(BondError::InvalidTiming)));
    assert!(matches!(s.withdraw(100, 149), Err(BondError::InvalidTiming)));
    let b = s.withdraw(100, 150).unwrap();
    assert_eq!(b.bonded_amount, 900);
}

#[test]
fn rolling_withdraw_needs_request() {
    let mut s = with_admin();
    s.create_bond(who("R"), 1000, 500, true, 100, 10).unwrap();
    assert!(matches!(s.withdraw(100, 10_000), Err(BondError::InvalidTiming)));
}

#[test]
fn request_withdrawal_on_fixed_bond_fails() {
    let mut s = with_admin();
    s.create_bond(who("F"), 1000, 500, false, 0, 10).unwrap();
    assert!(matches!(s.request_withdrawal(20), Err(BondError::InvalidTiming)));
}

#[test]
fn renew_twice_is_same_bond() {
    let mut s = with_admin();
    s.create_bond(who("R"), 1000, 100, true, 10, 0).unwrap();
    s.request_withdrawal(20).unwrap();
    s.take_events();
    let first = s.renew_if_rolling(150).unwrap();
    assert_eq!(first.bond_start, 150);
    assert_eq!(first.withdrawal_requested_at, 0);
    assert_eq!(first.bond_duration, 100);
    let second = s.renew_if_rolling(150).unwrap();
    assert_eq!(second.bond_start, first.bond_start);
    assert_eq!(second.withdrawal_requested_at, first.withdrawal_requested_at);
    assert_eq!(second.bonded_amount, first.bonded_amount);
    let events = s.take_events();
    assert_eq!(events.len(), 1);
    assert!(matches!(events[0], BondEvent::BondRenewed { bond_start: 150, bond_duration: 100, .. }));
}

#[test]
fn renew_before_period_end_is_noop() {
    let mut s = with_admin();
    s.create_bond(who("R"), 1000, 100, true, 10, 0).unwrap();
    let b = s.renew_if_rolling(99).unwrap();
    assert_eq!(b.bond_start, 0);
    let mut f = with_admin();
    f.create_bond(who("F"), 1000, 100, false, 0, 0).unwrap();
    let b = f.renew_if_rolling(500).unwrap();
    assert_eq!(b.bond_start, 0);
}

#[test]
fn slash_accumulates_and_caps() {
    let mut s = with_admin();
    s.create_bond(who("A"), 1000, 100, false, 0, 0).unwrap();
    let b = s.slash(who("admin"), 300).unwrap();
    assert_eq!(b.slashed_amount, 300);
    let b = s.slash(who("admin"), 500).unwrap();
    assert_eq!(b.slashed_amount, 800);
    let b = s.slash(who("admin"), 500).unwrap();
    assert_eq!(b.slashed_amount, 1000);
    assert_eq!(b.bonded_amount, 1000);
    assert!(matches!(s.withdraw(1, 200), Err(BondError::InsufficientBalance)));
}

#[test]
fn slash_refusals() {
    let mut s = CredenceBond::new();
    assert!(matches!(s.slash(who("admin"), 1), Err(BondError::NotInitialized)));
    s.initialize(who("admin"));
    assert!(matches!(s.slash(who("admin"), 1), Err(BondError::NotFound)));
    s.create_bond(who("A"), 1000, 100, false, 0, 0).unwrap();
    assert!(matches!(s.slash(who("mallory"), 1), Err(BondError::Unauthorized)));
    assert!(matches!(s.slash(who("admin"), -1), Err(BondError::InvalidAmount)));
    s.slash(who("admin"), 10).unwrap();
    assert!(matches!(s.slash(who("admin"), i128::MAX), Err(BondError::ArithmeticOverflow)));
    assert_eq!(s.get_identity_state().unwrap().slashed_amount, 10);
}

#[test]
fn slashed_never_decreases_over_operations() {
    let mut s = with_admin();
    s.set_early_exit_config(who("admin"), who("treasury"), 100).unwrap();
    s.create_bond(who("A"), 5000, 100, false, 0, 0).unwrap();
    let mut last = 0;
    s.slash(who("admin"), 1000).unwrap();
    let steps: Vec<i128> = vec![
        s.top_up(100, 10).unwrap().slashed_amount,
        s.withdraw_early(1000, 20).unwrap().slashed_amount,
        s.slash(who("admin"), 50).unwrap().slashed_amount,
        s.extend_duration(10).unwrap().slashed_amount,
        s.withdraw(500, 1000).unwrap().slashed_amount,
    ];
    for v in steps {
        assert!(v >= last);
        let b = s.get_identity_state().unwrap();
        assert!(0 <= b.slashed_amount && b.slashed_amount <= b.bonded_amount);
        last = v;
    }
    assert_eq!(last, 1050);
}

#[test]
fn top_up_changes_tier_and_publishes() {
    let mut s = with_admin();
    s.create_bond(who("A"), SILVER_THRESHOLD - 10, 100, false, 0, 0).unwrap();
    assert_eq!(s.get_tier(), Ok(BondTier::Bronze));
    assert_eq!(s.take_events().len(), 0);
    s.top_up(5, 1).unwrap();
    assert_eq!(s.take_events().len(), 0);
    let b = s.top_up(5, 2).unwrap();
    assert_eq!(b.bonded_amount, SILVER_THRESHOLD);
    assert_eq!(s.get_tier(), Ok(BondTier::Silver));
    let events = s.take_events();
    assert_eq!(events.len(), 1);
    assert!(matches!(
        events[0],
        BondEvent::TierChanged { old_tier: BondTier::Bronze, new_tier: BondTier::Silver, timestamp: 2, .. }
    ));
}

#[test]
fn create_bond_publishes_tier_from_bronze() {
    let mut s = with_admin();
    s.create_bond(who("A"), 30_000_000_000, 100, false, 0, 7).unwrap();
    assert_eq!(s.get_tier(), Ok(BondTier::Platinum));
    let events = s.take_events();
    assert_eq!(events.len(), 1);
    assert!(matches!(
        events[0],
        BondEvent::TierChanged { old_tier: BondTier::Bronze, new_tier: BondTier::Platinum, timestamp: 7, .. }
    ));
}

#[test]
fn top_up_refusals() {
    let mut s = with_admin();
    assert!(matches!(s.top_up(1, 0), Err(BondError::NotFound)));
    s.create_bond(who("A"), 1000, 100, false, 0, 0).unwrap();
    assert!(matches!(s.top_up(i128::MAX, 0), Err(BondError::ArithmeticOverflow)));
    s.slash(who("admin"), 600).unwrap();
    assert!(matches!(s.top_up(-500, 0), Err(BondError::InsufficientBalance)));
    assert_eq!(s.get_identity_state().unwrap().bonded_amount, 1000);
}

#[test]
fn create_bond_refusals() {
    let mut s = with_admin();
    assert!(matches!(s.create_bond(who("A"), 1, 1, false, 0, u64::MAX), Err(BondError::ArithmeticOverflow)));
    assert!(matches!(s.create_bond(who("A"), -1, 1, false, 0, 0), Err(BondError::InvalidAmount)));
    assert!(matches!(s.get_identity_state(), Err(BondError::NotFound)));
    assert!(matches!(s.get_tier(), Err(BondError::NotFound)));
}

#[test]
fn extend_duration_checks_overflow() {
    let mut s = with_admin();
    s.create_bond(who("A"), 1000, 100, false, 0, 50).unwrap();
    let b = s.extend_duration(900).unwrap();
    assert_eq!(b.bond_duration, 1000);
    assert!(matches!(s.extend_duration(u64::MAX), Err(BondError::ArithmeticOverflow)));
    assert!(matches!(s.extend_duration(u64::MAX - 1000), Err(BondError::ArithmeticOverflow)));
    assert_eq!(s.get_identity_state().unwrap().bond_duration, 1000);
}

#[test]
fn early_exit_config_refusals() {
    let mut s = CredenceBond::new();
    assert!(matches!(s.set_early_exit_config(who("admin"), who("t"), 1), Err(BondError::NotInitialized)));
    s.initialize(who("admin"));
    assert!(matches!(s.set_early_exit_config(who("x"), who("t"), 1), Err(BondError::Unauthorized)));
    assert!(matches!(s.set_early_exit_config(who("admin"), who("t"), 10_001), Err(BondError::InvalidConfig)));
    assert!(s.set_early_exit_config(who("admin"), who("t"), 10_000).is_ok());
}

#[test]
fn withdraw_early_publishes_penalty_then_tier() {
    let mut s = with_admin();
    s.set_early_exit_config(who("admin"), who("treasury"), 10_000).unwrap();
    s.create_bond(who("A"), SILVER_THRESHOLD, 100, false, 0, 0).unwrap();
    s.take_events();
    let b = s.withdraw_early(1, 50).unwrap();
    assert_eq!(b.bonded_amount, SILVER_THRESHOLD - 1);
    let events = s.take_events();
    assert_eq!(events.len(), 2);
    // 1 * 10000 / 10000 = 1; 1 * 50 / 100 = 0
    assert!(matches!(events[0], BondEvent::PenaltyApplied { amount: 1, penalty: 0, .. }));
    assert!(matches!(
        events[1],
        BondEvent::TierChanged { old_tier: BondTier::Silver, new_tier: BondTier::Bronze, timestamp: 50, .. }
    ));
}
