use vesting_contract::{
    Address, AdminControl, GlobalPauseState, VestingEngine, VestingError, VestingSchedule,
};

fn addr(n: u128) -> Address {
    Address { hi: 0, lo: n }
}

fn record(id: u64) -> VestingSchedule {
    VestingSchedule {
        id,
        beneficiary: addr(7),
        total_amount: 1_000,
        released_amount: 250,
        start_time: 100,
        cliff_duration: 10,
        vesting_duration: 100,
        revoked: false,
        paused: false,
        recovered: false,
    }
}

#[test]
fn test_vesting_initialization() {
    let admin = addr(1);
    let control = AdminControl::new(admin);
    assert!(control.is_admin(admin));
    assert!(!control.is_admin(addr(2)));
    assert!(!control.is_paused());
    assert_eq!(control.state(), GlobalPauseState::Active);
    assert_eq!(control.registry().len(), 1);
    assert_eq!(control.registry().members(), vec![admin]);

    let mut engine = VestingEngine::new(addr(100), addr(101));
    assert_eq!(engine.vault(), addr(100));
    assert_eq!(engine.treasury(), addr(101));
    assert_eq!(engine.schedule_count(), 0);
    assert!(engine.schedules().is_empty());
    assert!(engine.take_events().is_empty());
    assert_eq!(engine.get_schedule(0), Err(VestingError::NotFound));
    assert!(engine.list_schedules(admin).is_empty());
}

#[test]
fn independent_engines_share_nothing() {
    let admin = addr(1);
    let control_a = AdminControl::new(admin);
    let mut control_b = AdminControl::new(admin);
    let mut engine_a = VestingEngine::new(addr(100), addr(101));
    let mut engine_b = VestingEngine::new(addr(100), addr(101));
    control_b.pause(admin).unwrap();
    assert!(engine_a.create_schedule(&control_a, addr(2), 10, 0, 0, 10, admin).is_ok());
    assert_eq!(
        engine_b.create_schedule(&control_b, addr(2), 10, 0, 0, 10, admin),
        Err(VestingError::Paused)
    );
    assert_eq!(engine_a.schedule_count(), 1);
    assert_eq!(engine_b.schedule_count(), 0);
}

#[test]
fn addresses_compare_by_both_halves() {
    assert_eq!(Address { hi: 1, lo: 2 }, Address { hi: 1, lo: 2 });
    assert_ne!(Address { hi: 1, lo: 2 }, Address { hi: 2, lo: 2 });
    assert_ne!(Address { hi: 1, lo: 2 }, Address { hi: 1, lo: 3 });
}

#[test]
fn restore_control_from_persisted_admins() {
    let control =
        AdminControl::restore(&vec![addr(1), addr(2), addr(1)], GlobalPauseState::Paused).ok().unwrap();
    assert!(control.is_paused());
    assert!(control.is_admin(addr(1)));
    assert!(control.is_admin(addr(2)));
    assert!(!control.is_admin(addr(3)));
    assert_eq!(control.registry().len(), 2);
    let members = control.registry().members();
    assert_eq!(members.len(), 2);
    assert!(members.contains(&addr(1)) && members.contains(&addr(2)));
}

#[test]
fn restore_control_needs_an_admin() {
    let restored = AdminControl::restore(&Vec::new(), GlobalPauseState::Active);
    assert!(matches!(restored, Err(VestingError::InvalidParameters)));
}

#[test]
fn restore_engine_from_persisted_records() {
    let records = vec![record(0), record(1)];
    let mut engine = VestingEngine::restore(addr(100), addr(101), records.clone()).ok().unwrap();
    assert_eq!(engine.vault(), addr(100));
    assert_eq!(engine.treasury(), addr(101));
    assert_eq!(engine.schedules(), records);
    assert_eq!(engine.get_schedule(1), Ok(record(1)));
    assert!(engine.take_events().is_empty());
}

#[test]
fn restore_engine_refuses_records_out_of_place() {
    let restored = VestingEngine::restore(addr(100), addr(101), vec![record(0), record(2)]);
    assert!(matches!(restored, Err(VestingError::InvalidParameters)));
}

#[test]
fn restore_engine_refuses_ledger_above_grant() {
    let mut bad = record(0);
    bad.released_amount = 1_001;
    assert!(!bad.is_valid());
    let restored = VestingEngine::restore(addr(100), addr(101), vec![bad]);
    assert!(matches!(restored, Err(VestingError::InvalidParameters)));
}

#[test]
fn record_validity_follows_the_invariant() {
    assert!(record(0).is_valid());
    let mut r = record(0);
    r.total_amount = 0;
    r.released_amount = 0;
    assert!(!r.is_valid());
    let mut r = record(0);
    r.vesting_duration = 0;
    r.cliff_duration = 0;
    assert!(!r.is_valid());
    let mut r = record(0);
    r.cliff_duration = 101;
    assert!(!r.is_valid());
    let mut r = record(0);
    r.start_time = u64::MAX - 99;
    assert!(!r.is_valid());
    r.start_time = u64::MAX - 100;
    assert!(r.is_valid());
    let mut r = record(0);
    r.recovered = true;
    assert!(!r.is_valid());
    r.revoked = true;
    assert!(r.is_valid());
}
