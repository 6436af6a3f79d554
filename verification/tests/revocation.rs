use vesting_contract::{
    releasable_amount, Address, AdminControl, TransferError, TransferRequest, VestingEngine,
    VestingError,
};

fn addr(n: u128) -> Address {
    Address { hi: 0, lo: n }
}

fn accept(_request: TransferRequest) -> Result<(), TransferError> {
    Ok(())
}

fn refuse(_request: TransferRequest) -> Result<(), TransferError> {
    Err(TransferError { code: 5 })
}

fn setup() -> (AdminControl, VestingEngine, Address, Address) {
    let admin = addr(1);
    let alice = addr(2);
    let control = AdminControl::new(admin);
    let mut engine = VestingEngine::new(addr(100), addr(101));
    engine.create_schedule(&control, alice, 1_000, 100, 10, 100, admin).unwrap();
    (control, engine, admin, alice)
}

#[test]
fn revoking_at_forty_percent_freezes_the_release() {
    let (control, mut engine, admin, alice) = setup();
    // 40% of the vesting interval has elapsed.
    assert_eq!(engine.claim(&control, 0, alice, 140, accept), Ok(400));
    assert_eq!(engine.revoke(&control, 0, admin), Ok(()));

    let revoked = engine.get_schedule(0).unwrap();
    assert!(revoked.revoked);
    assert_eq!(revoked.released_amount, 400);
    assert_eq!(revoked.total_amount, 1_000);
    for t in [140u64, 141, 170, 200, 10_000, u64::MAX] {
        assert_eq!(releasable_amount(&revoked, t), 0);
        assert_eq!(engine.claim(&control, 0, alice, t, accept), Err(VestingError::NothingToClaim));
        assert_eq!(engine.get_schedule(0).unwrap(), revoked);
    }
}

#[test]
fn revoke_needs_an_admin() {
    let (control, mut engine, _admin, alice) = setup();
    assert_eq!(engine.revoke(&control, 0, alice), Err(VestingError::Unauthorized));
    assert!(!engine.get_schedule(0).unwrap().revoked);
}

#[test]
fn revoke_twice_is_reported() {
    let (control, mut engine, admin, _alice) = setup();
    assert_eq!(engine.revoke(&control, 0, admin), Ok(()));
    let revoked = engine.get_schedule(0).unwrap();
    assert_eq!(engine.revoke(&control, 0, admin), Err(VestingError::AlreadyRevoked));
    assert_eq!(engine.get_schedule(0).unwrap(), revoked);
}

#[test]
fn revoke_unknown_schedule_is_not_found() {
    let (control, mut engine, admin, _alice) = setup();
    assert_eq!(engine.revoke(&control, 3, admin), Err(VestingError::NotFound));
    assert_eq!(engine.revoke(&control, 3, addr(9)), Err(VestingError::NotFound));
}

#[test]
fn recovery_returns_the_unreleased_rest_once() {
    let (control, mut engine, admin, alice) = setup();
    assert_eq!(engine.claim(&control, 0, alice, 140, accept), Ok(400));
    // Nothing can be recovered from a schedule that still runs.
    assert_eq!(engine.recover_unvested(&control, 0, admin, accept), Err(VestingError::NothingToClaim));
    assert_eq!(engine.revoke(&control, 0, admin), Ok(()));
    // Revoking moves no funds by itself.
    assert!(!engine.get_schedule(0).unwrap().recovered);

    let mut seen: Vec<TransferRequest> = Vec::new();
    let result = engine.recover_unvested(&control, 0, admin, |request| {
        seen.push(request);
        Ok(())
    });
    assert_eq!(result, Ok(600));
    assert_eq!(seen, vec![TransferRequest { from: addr(100), to: addr(101), amount: 600 }]);
    let recovered = engine.get_schedule(0).unwrap();
    assert!(recovered.recovered);
    assert_eq!(recovered.released_amount, 400);

    assert_eq!(engine.recover_unvested(&control, 0, admin, accept), Err(VestingError::NothingToClaim));
    assert_eq!(engine.get_schedule(0).unwrap(), recovered);
    assert_eq!(engine.claim(&control, 0, alice, 500, accept), Err(VestingError::NothingToClaim));
}

#[test]
fn recovery_needs_an_admin() {
    let (control, mut engine, admin, alice) = setup();
    engine.revoke(&control, 0, admin).unwrap();
    assert_eq!(engine.recover_unvested(&control, 0, alice, accept), Err(VestingError::Unauthorized));
    assert_eq!(engine.authorize_recovery(&control, 0, alice), Err(VestingError::Unauthorized));
    assert_eq!(engine.recover_unvested(&control, 4, admin, accept), Err(VestingError::NotFound));
    assert!(!engine.get_schedule(0).unwrap().recovered);
}

#[test]
fn failed_recovery_may_be_retried() {
    let (control, mut engine, admin, _alice) = setup();
    engine.revoke(&control, 0, admin).unwrap();
    let before = engine.get_schedule(0).unwrap();
    assert_eq!(
        engine.recover_unvested(&control, 0, admin, refuse),
        Err(VestingError::TransferFailed(TransferError { code: 5 }))
    );
    assert_eq!(engine.get_schedule(0).unwrap(), before);
    assert_eq!(engine.recover_unvested(&control, 0, admin, accept), Ok(1_000));
}

#[test]
fn recovery_in_two_halves() {
    let (control, mut engine, admin, _alice) = setup();
    engine.revoke(&control, 0, admin).unwrap();
    let request = engine.authorize_recovery(&control, 0, admin).unwrap();
    assert_eq!(request, TransferRequest { from: addr(100), to: addr(101), amount: 1_000 });
    assert!(!engine.get_schedule(0).unwrap().recovered);
    assert_eq!(
        engine.settle_recovery(&control, 0, admin, Err(TransferError { code: 1 })),
        Err(VestingError::TransferFailed(TransferError { code: 1 }))
    );
    assert!(!engine.get_schedule(0).unwrap().recovered);
    assert_eq!(engine.settle_recovery(&control, 0, admin, Ok(())), Ok(1_000));
    assert!(engine.get_schedule(0).unwrap().recovered);
    assert_eq!(
        engine.settle_recovery(&control, 0, admin, Ok(())),
        Err(VestingError::NothingToClaim)
    );
}

#[test]
fn nothing_to_recover_after_full_release() {
    let (control, mut engine, admin, alice) = setup();
    assert_eq!(engine.claim(&control, 0, alice, 200, accept), Ok(1_000));
    assert_eq!(engine.revoke(&control, 0, admin), Ok(()));
    assert_eq!(engine.recover_unvested(&control, 0, admin, accept), Err(VestingError::NothingToClaim));
    assert!(!engine.get_schedule(0).unwrap().recovered);
}
