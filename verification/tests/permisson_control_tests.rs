use document_registry::permisson_control::PermissonControl;
use document_registry::types::AccountId;

const WALLET: AccountId = 100;

#[test]
fn quorum_over_distinct_admins() {
    let admins: Vec<AccountId> = vec![1, 2, 3, 4, 5];
    let control = PermissonControl::new(admins);
    assert!(control.is_admin(1));
    assert!(control.is_admin(5));
    assert!(!control.is_admin(6));
}

#[test]
fn duplicate_admins_are_deduplicated() {
    // five distinct accounts among seven entries: 5 * 2 / 3 = 3, a valid
    // quorum
    let admins: Vec<AccountId> = vec![1, 1, 2, 2, 3, 4, 5];
    let control = PermissonControl::new(admins);
    assert!(control.is_admin(1));
    assert!(control.is_admin(4));
    assert!(!control.is_admin(9));
}

#[test]
fn add_remove_replace_admins() {
    let mut control = PermissonControl::new(vec![1, 2, 3, 4, 5]);
    // the host checks the aborting preconditions before each call
    assert!(!control.is_admin(6));
    assert_eq!(control.add_admins(WALLET, WALLET, 6), Ok(()));
    assert!(control.is_admin(6));
    assert_eq!(control.remove_admins(WALLET, WALLET, 6), Ok(()));
    assert!(!control.is_admin(6));
    assert_eq!(control.replace_admins(WALLET, WALLET, 5, 7), Ok(()));
    assert!(!control.is_admin(5));
    assert!(control.is_admin(7));
}

#[test]
fn default_quorum_is_empty() {
    let control = PermissonControl::default();
    assert!(!control.is_admin(1));
}
