use vesting_contract::{Address, AdminControl, GlobalPauseState, VestingError};

fn addr(n: u128) -> Address {
    Address { hi: 0, lo: n }
}

#[test]
fn test_admin_controls() {
    let root = addr(1);
    let second = addr(2);
    let stranger = addr(9);
    let mut control = AdminControl::new(root);

    assert_eq!(control.add_admin(stranger, second), Err(VestingError::Unauthorized));
    assert!(!control.is_admin(second));
    assert_eq!(control.add_admin(root, second), Ok(()));
    assert!(control.is_admin(second));
    assert_eq!(control.registry().len(), 2);

    assert_eq!(control.pause(stranger), Err(VestingError::Unauthorized));
    assert!(!control.is_paused());
    assert_eq!(control.pause(second), Ok(()));
    assert!(control.is_paused());
    assert_eq!(control.unpause(stranger), Err(VestingError::Unauthorized));
    assert!(control.is_paused());
    assert_eq!(control.unpause(root), Ok(()));
    assert_eq!(control.state(), GlobalPauseState::Active);

    assert_eq!(control.remove_admin(stranger, root), Err(VestingError::Unauthorized));
    assert_eq!(control.remove_admin(second, root), Ok(()));
    assert!(!control.is_admin(root));
    assert_eq!(control.registry().members(), vec![second]);
    assert_eq!(control.add_admin(root, root), Err(VestingError::Unauthorized));
}

#[test]
fn last_admin_cannot_be_removed() {
    let root = addr(1);
    let mut control = AdminControl::new(root);
    assert_eq!(control.remove_admin(root, root), Err(VestingError::CannotRemoveLastAdmin));
    assert!(control.is_admin(root));
    assert_eq!(control.registry().len(), 1);
    assert_eq!(control.registry().members(), vec![root]);
}

#[test]
fn last_admin_is_whoever_remains() {
    let root = addr(1);
    let second = addr(2);
    let mut control = AdminControl::new(root);
    control.add_admin(root, second).unwrap();
    assert_eq!(control.remove_admin(root, root), Ok(()));
    assert_eq!(control.remove_admin(second, second), Err(VestingError::CannotRemoveLastAdmin));
    assert_eq!(control.registry().members(), vec![second]);
}

#[test]
fn removing_a_stranger_changes_nothing() {
    let root = addr(1);
    let mut control = AdminControl::new(root);
    assert_eq!(control.remove_admin(root, addr(5)), Ok(()));
    assert_eq!(control.registry().members(), vec![root]);
}

#[test]
fn adding_an_admin_twice_changes_nothing() {
    let root = addr(1);
    let second = addr(2);
    let mut control = AdminControl::new(root);
    assert_eq!(control.add_admin(root, second), Ok(()));
    assert_eq!(control.add_admin(second, second), Ok(()));
    assert_eq!(control.add_admin(second, root), Ok(()));
    assert_eq!(control.registry().len(), 2);
    let members = control.registry().members();
    assert_eq!(members.len(), 2);
    assert!(members.contains(&root) && members.contains(&second));
    assert!(control.registry().contains(second));
    assert!(!control.registry().contains(addr(3)));
}

#[test]
fn pause_and_unpause_are_idempotent() {
    let root = addr(1);
    let mut control = AdminControl::new(root);
    assert_eq!(control.unpause(root), Ok(()));
    assert_eq!(control.state(), GlobalPauseState::Active);
    assert_eq!(control.pause(root), Ok(()));
    assert_eq!(control.pause(root), Ok(()));
    assert_eq!(control.state(), GlobalPauseState::Paused);
    assert_eq!(control.unpause(root), Ok(()));
    assert_eq!(control.state(), GlobalPauseState::Active);
}

#[test]
fn registry_edits_work_while_paused() {
    let root = addr(1);
    let second = addr(2);
    let mut control = AdminControl::new(root);
    control.pause(root).unwrap();
    assert_eq!(control.add_admin(root, second), Ok(()));
    assert_eq!(control.remove_admin(second, root), Ok(()));
    assert!(control.is_paused());
    assert_eq!(control.unpause(second), Ok(()));
}
