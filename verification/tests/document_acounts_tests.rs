use document_registry::document_acounts::AccountError;
use document_registry::document_acounts::DocumentAcounts;
use document_registry::document_acounts::Role;
use document_registry::types::AccountId;

const ALICE: AccountId = 1;
const BOB: AccountId = 2;

#[test]
fn account_gets_exactly_one_uuid() {
    let mut accounts = DocumentAcounts::new();
    assert_eq!(accounts.account_new(ALICE, vec![1, 2, 3]), Ok(()));
    assert_eq!(
        accounts.account_new(ALICE, vec![4, 5, 6]),
        Err(AccountError::AccountAlreadyHaveUUID)
    );
    assert_eq!(accounts.account_new(BOB, vec![4, 5, 6]), Ok(()));
}

#[test]
fn version_update_needs_initialized_version() {
    // the constructor never initializes the version, so the update reports
    // missing data instead of aborting as the original did
    let mut accounts = DocumentAcounts::new();
    assert_eq!(
        accounts.account_version_new(ALICE, 2),
        Err(AccountError::NoDataFound)
    );
}

#[test]
fn role_of_unknown_account_is_missing() {
    let accounts = DocumentAcounts::new();
    assert_eq!(accounts.get_role(ALICE), Err(AccountError::NoDataFound));
}

#[test]
fn grant_role_by_unprivileged_caller() {
    let mut accounts = DocumentAcounts::new();
    // a caller cannot grant to itself
    assert_eq!(
        accounts.grant_role(ALICE, ALICE, Role::Admin),
        Err(AccountError::Unauthorized)
    );
    // a caller without any role is a silent no-op, as in the original
    assert_eq!(accounts.grant_role(ALICE, BOB, Role::Admin), Ok(()));
    assert_eq!(accounts.get_role(BOB), Err(AccountError::NoDataFound));
}

#[test]
fn revoke_role_by_unprivileged_caller() {
    let mut accounts = DocumentAcounts::new();
    assert_eq!(
        accounts.revoke_role(ALICE, ALICE),
        Err(AccountError::Unauthorized)
    );
    // a caller without any role is a silent no-op, as in the original
    assert_eq!(accounts.revoke_role(ALICE, BOB), Ok(()));
}
