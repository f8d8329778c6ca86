use document_registry::document_management::DocumentError;
use document_registry::document_management::DocumentEvent;
use document_registry::document_management::DocumentManagement;
use document_registry::document_management::UpdateMessage;
use document_registry::types::AccountId;

const ALICE: AccountId = 1;
const BOB: AccountId = 2;
const CHARLIE: AccountId = 3;
const NULL: AccountId = 0;

#[test]
fn mint_works() {
    let mut document = DocumentManagement::new();
    // the document does not exist yet
    assert_eq!(
        document.document_owner_get(1),
        Err(DocumentError::DocumentNotFound)
    );
    // the number of owned documents before minting
    assert_eq!(document.numof_owned_documents(ALICE), 0);
    assert_eq!(document.document_new(ALICE, 1), Ok(()));
    assert_eq!(document.numof_owned_documents(ALICE), 1);
}

#[test]
fn mint_an_existence_document() {
    let mut document = DocumentManagement::new();
    assert_eq!(document.document_new(ALICE, 1), Ok(()));
    // one event was emitted for the mint
    assert_eq!(document.emitted_events().len(), 1);
    assert_eq!(document.numof_owned_documents(ALICE), 1);
    assert_eq!(document.document_owner_get(1), Ok(ALICE));
    // a document id is unique and cannot be minted again
    assert_eq!(
        document.document_new(ALICE, 1),
        Err(DocumentError::DocumentIdAlreadyExists)
    );
}

#[test]
fn burn_a_document() {
    let mut document = DocumentManagement::new();
    assert_eq!(document.document_new(ALICE, 1), Ok(()));
    assert_eq!(document.numof_owned_documents(ALICE), 1);
    assert_eq!(document.document_owner_get(1), Ok(ALICE));
    assert_eq!(document.burn_document(ALICE, 1), Ok(()));
    assert_eq!(document.numof_owned_documents(ALICE), 0);
}

#[test]
fn burn_a_non_exist_document() {
    let mut document = DocumentManagement::new();
    assert_eq!(
        document.burn_document(ALICE, 2),
        Err(DocumentError::DocumentNotFound)
    );
}

#[test]
fn document_content_work() {
    let mut document = DocumentManagement::new();
    let content_hash: u64 = 0;
    assert_eq!(document.document_new(ALICE, 1), Ok(()));
    assert_eq!(document.document_content_new(ALICE, 1, content_hash), Ok(()));
    assert_eq!(document.document_content_get(1), Some(content_hash));
}

#[test]
fn mint_by_null_principal_is_refused() {
    let mut document = DocumentManagement::new();
    assert_eq!(document.document_new(NULL, 1), Err(DocumentError::NotAllow));
    assert!(!document.verify_document_owner(1));
    assert_eq!(document.emitted_events().len(), 0);
}

#[test]
fn mint_emits_transfer_from_null() {
    let mut document = DocumentManagement::new();
    assert_eq!(document.document_new(ALICE, 9), Ok(()));
    let events = document.take_events();
    assert_eq!(events.len(), 1);
    match &events[0] {
        DocumentEvent::Transfer(t) => {
            assert_eq!(t.from, Some(NULL));
            assert_eq!(t.to, Some(ALICE));
            assert_eq!(t.id, 9);
        }
        other => panic!("unexpected event {:?}", other),
    }
    // the log was drained
    assert_eq!(document.emitted_events().len(), 0);
}

#[test]
fn burn_by_non_owner_then_owner() {
    // mint by Alice; a burn by Bob is refused; the owner's burn succeeds
    let mut document = DocumentManagement::new();
    assert_eq!(document.document_new(ALICE, 1), Ok(()));
    assert_eq!(document.burn_document(BOB, 1), Err(DocumentError::NotOwner));
    assert_eq!(document.burn_document(ALICE, 1), Ok(()));
    assert_eq!(document.numof_owned_documents(ALICE), 0);
    assert_eq!(
        document.document_owner_get(1),
        Err(DocumentError::DocumentNotFound)
    );
}

#[test]
fn burn_of_never_minted_id() {
    let mut document = DocumentManagement::new();
    assert_eq!(
        document.burn_document(ALICE, 99),
        Err(DocumentError::DocumentNotFound)
    );
}

#[test]
fn content_attach_twice_is_refused() {
    // attach content once, a second attach is refused, the first value stays
    let mut document = DocumentManagement::new();
    assert_eq!(document.document_new(ALICE, 1), Ok(()));
    assert_eq!(document.document_content_new(ALICE, 1, 0xC0FFEE), Ok(()));
    assert_eq!(
        document.document_content_new(ALICE, 1, 0xBEEF),
        Err(DocumentError::DocumentIdAlreadyExists)
    );
    assert_eq!(document.document_content_get(1), Some(0xC0FFEE));
}

#[test]
fn content_on_unminted_document_is_refused() {
    let mut document = DocumentManagement::new();
    assert_eq!(
        document.document_content_new(ALICE, 5, 1),
        Err(DocumentError::DocumentNotFound)
    );
}

#[test]
fn content_remove_and_recreate() {
    let mut document = DocumentManagement::new();
    assert_eq!(document.document_new(ALICE, 1), Ok(()));
    // an empty slot cannot be removed
    assert_eq!(
        document.remove_document_content(ALICE, 1),
        Err(DocumentError::NoDataFound)
    );
    assert_eq!(document.document_content_new(ALICE, 1, 11), Ok(()));
    assert!(document.verify_document_content(1));
    // only the owner may remove
    assert_eq!(
        document.remove_document_content(BOB, 1),
        Err(DocumentError::NotOwner)
    );
    assert_eq!(document.remove_document_content(ALICE, 1), Ok(()));
    assert!(!document.verify_document_content(1));
    // a removed slot can be written again
    assert_eq!(document.document_content_new(ALICE, 1, 12), Ok(()));
    assert_eq!(document.document_content_get(1), Some(12));
}

#[test]
fn attached_data_survives_burn() {
    // the data slots are not part of the ownership record: they survive a
    // burn of the document, by design
    let mut document = DocumentManagement::new();
    assert_eq!(document.document_new(ALICE, 1), Ok(()));
    assert_eq!(document.document_content_new(ALICE, 1, 77), Ok(()));
    assert_eq!(document.burn_document(ALICE, 1), Ok(()));
    assert_eq!(document.document_content_get(1), Some(77));
}

#[test]
fn location_lifecycle() {
    let mut document = DocumentManagement::new();
    assert_eq!(
        document.document_addr_new(ALICE, 1, 1000),
        Err(DocumentError::DocumentNotFound)
    );
    assert_eq!(document.document_new(ALICE, 1), Ok(()));
    // only the owner may attach a location
    assert_eq!(
        document.document_addr_new(BOB, 1, 1000),
        Err(DocumentError::NotOwner)
    );
    assert_eq!(document.document_addr_new(ALICE, 1, 1000), Ok(()));
    assert_eq!(document.document_location_get(1), Ok(1000));
    assert_eq!(document.verify_document_location(1), Ok(true));
    assert_eq!(
        document.document_addr_new(ALICE, 1, 2000),
        Err(DocumentError::DocumentIdAlreadyExists)
    );
    assert_eq!(
        document.document_location_delete(BOB, 1),
        Err(DocumentError::NotOwner)
    );
    assert_eq!(document.document_location_delete(ALICE, 1), Ok(()));
    assert_eq!(
        document.document_location_get(1),
        Err(DocumentError::DocumentNotFound)
    );
    assert_eq!(
        document.document_location_delete(ALICE, 1),
        Err(DocumentError::NoDataFound)
    );
}

#[test]
fn metadata_requires_authorization() {
    // the owner may attach metadata; a stranger may not
    let mut document = DocumentManagement::new();
    assert_eq!(document.document_new(ALICE, 1), Ok(()));
    assert_eq!(
        document.document_metadata_new(BOB, 1, 5),
        Err(DocumentError::NotOwner)
    );
    assert_eq!(document.document_metadata_new(ALICE, 1, 5), Ok(()));
    assert_eq!(document.document_metadata_get(1), Ok(5));
    assert_eq!(document.verify_document_metadata(1), Ok(true));
    assert_eq!(
        document.document_metadata_new(ALICE, 1, 6),
        Err(DocumentError::DocumentIdAlreadyExists)
    );
    assert_eq!(document.document_metadata_delete(ALICE, 1), Ok(()));
    assert_eq!(
        document.document_metadata_get(1),
        Err(DocumentError::DocumentNotFound)
    );
    assert_eq!(
        document.document_metadata_delete(ALICE, 1),
        Err(DocumentError::NoDataFound)
    );
}

#[test]
fn metadata_by_blanket_operator() {
    // a blanket-approved operator counts as authorized for metadata
    let mut document = DocumentManagement::new();
    assert_eq!(document.document_new(ALICE, 1), Ok(()));
    assert_eq!(document.set_approval_for_all(ALICE, BOB, true), Ok(()));
    assert_eq!(document.document_metadata_new(BOB, 1, 5), Ok(()));
    assert_eq!(document.document_metadata_get(1), Ok(5));
}

#[test]
fn approve_lifecycle() {
    let mut document = DocumentManagement::new();
    // the document must exist
    assert_eq!(
        document.approve(ALICE, BOB, 1),
        Err(DocumentError::DocumentNotFound)
    );
    assert_eq!(document.document_new(ALICE, 1), Ok(()));
    // only the owner or an operator may approve
    assert_eq!(document.approve(BOB, CHARLIE, 1), Err(DocumentError::NotAllow));
    // the null principal cannot be a delegate
    assert_eq!(document.approve(ALICE, NULL, 1), Err(DocumentError::NotAllow));
    assert_eq!(
        document.document_get_approve_acc(1),
        Err(DocumentError::AccountNotFound)
    );
    assert_eq!(
        document.get_approved_account(1),
        Err(DocumentError::NoDataFound)
    );
    assert_eq!(document.approve(ALICE, BOB, 1), Ok(()));
    assert_eq!(document.document_get_approve_acc(1), Ok(BOB));
    assert_eq!(document.get_approved_account(1), Ok(BOB));
}

#[test]
fn approve_twice_is_refused() {
    // approval exclusivity: a second approval without clearing is refused
    let mut document = DocumentManagement::new();
    assert_eq!(document.document_new(ALICE, 1), Ok(()));
    assert_eq!(document.approve(ALICE, BOB, 1), Ok(()));
    assert_eq!(
        document.approve(ALICE, CHARLIE, 1),
        Err(DocumentError::CannotInsert)
    );
    assert_eq!(document.document_get_approve_acc(1), Ok(BOB));
}

#[test]
fn clear_approval_works() {
    let mut document = DocumentManagement::new();
    assert_eq!(document.clear_approval(1), Err(DocumentError::NoDataFound));
    assert_eq!(document.document_new(ALICE, 1), Ok(()));
    assert_eq!(document.approve(ALICE, BOB, 1), Ok(()));
    assert_eq!(document.clear_approval(1), Ok(()));
    assert_eq!(
        document.get_approved_account(1),
        Err(DocumentError::NoDataFound)
    );
    // after clearing, a new approval may be recorded
    assert_eq!(document.approve(ALICE, CHARLIE, 1), Ok(()));
}

#[test]
fn burn_clears_delegate_approval() {
    // a delegate approval is cleared with the document it refers to
    let mut document = DocumentManagement::new();
    assert_eq!(document.document_new(ALICE, 1), Ok(()));
    assert_eq!(document.approve(ALICE, BOB, 1), Ok(()));
    assert_eq!(document.burn_document(ALICE, 1), Ok(()));
    assert_eq!(
        document.get_approved_account(1),
        Err(DocumentError::NoDataFound)
    );
}

#[test]
fn remint_after_burn_works() {
    // burning frees the id for a fresh mint, by anyone
    let mut document = DocumentManagement::new();
    assert_eq!(document.document_new(ALICE, 1), Ok(()));
    assert_eq!(document.burn_document(ALICE, 1), Ok(()));
    assert_eq!(document.document_new(BOB, 1), Ok(()));
    assert_eq!(document.document_owner_get(1), Ok(BOB));
}

#[test]
fn delegate_cannot_approve_others() {
    // the single delegate may transfer, but may not hand out approvals
    let mut document = DocumentManagement::new();
    assert_eq!(document.document_new(ALICE, 1), Ok(()));
    assert_eq!(document.approve(ALICE, BOB, 1), Ok(()));
    assert_eq!(document.approve(BOB, CHARLIE, 1), Err(DocumentError::NotAllow));
}

#[test]
fn self_approval_for_all_is_refused() {
    let mut document = DocumentManagement::new();
    assert_eq!(
        document.set_approval_for_all(ALICE, ALICE, true),
        Err(DocumentError::NotAllow)
    );
}

#[test]
fn set_approval_for_all_grant_and_revoke() {
    // a grant persists the relation; a revoke removes it; both emit events
    let mut document = DocumentManagement::new();
    assert_eq!(document.is_approve_for_all(ALICE, BOB), Ok(false));
    assert_eq!(document.set_approval_for_all(ALICE, BOB, true), Ok(()));
    assert_eq!(document.is_approve_for_all(ALICE, BOB), Ok(true));
    // the relation is directed
    assert_eq!(document.is_approve_for_all(BOB, ALICE), Ok(false));
    assert_eq!(document.set_approval_for_all(ALICE, BOB, false), Ok(()));
    assert_eq!(document.is_approve_for_all(ALICE, BOB), Ok(false));
    assert_eq!(document.emitted_events().len(), 2);
}

#[test]
fn is_authorized_completeness() {
    // authorization holds exactly for the owner, the delegate, and a
    // blanket-approved operator, and never for the null principal
    let mut document = DocumentManagement::new();
    assert_eq!(document.document_new(ALICE, 1), Ok(()));
    assert!(document.is_authorized(ALICE, ALICE, 1));
    assert!(!document.is_authorized(BOB, ALICE, 1));
    assert_eq!(document.approve(ALICE, BOB, 1), Ok(()));
    assert!(document.is_authorized(BOB, ALICE, 1));
    assert!(!document.is_authorized(CHARLIE, ALICE, 1));
    assert_eq!(document.set_approval_for_all(ALICE, CHARLIE, true), Ok(()));
    assert!(document.is_authorized(CHARLIE, ALICE, 1));
    // the null principal is never authorized
    assert!(!document.is_authorized(NULL, NULL, 1));
    assert!(!document.is_authorized(NULL, ALICE, 1));
}

#[test]
fn transfer_by_blanket_operator() {
    // scenario: Alice grants Bob a blanket approval; Bob moves the document
    // to Charlie; without a fresh approval from Charlie, Bob cannot move it
    // again
    let mut document = DocumentManagement::new();
    assert_eq!(document.document_new(ALICE, 1), Ok(()));
    assert_eq!(document.set_approval_for_all(ALICE, BOB, true), Ok(()));
    assert_eq!(document.transfer_from(BOB, ALICE, CHARLIE, 1), Ok(()));
    assert_eq!(document.document_owner_get(1), Ok(CHARLIE));
    assert_eq!(document.numof_owned_documents(ALICE), 0);
    assert_eq!(document.numof_owned_documents(CHARLIE), 1);
    assert_eq!(
        document.transfer_from(BOB, CHARLIE, ALICE, 1),
        Err(DocumentError::NotAllow)
    );
}

#[test]
fn transfer_to_self_by_owner() {
    let mut document = DocumentManagement::new();
    assert_eq!(document.document_new(ALICE, 1), Ok(()));
    assert_eq!(document.tranfer_to(ALICE, BOB, 1), Ok(()));
    assert_eq!(document.document_owner_get(1), Ok(BOB));
    assert_eq!(document.numof_owned_documents(ALICE), 0);
    assert_eq!(document.numof_owned_documents(BOB), 1);
}

#[test]
fn transfer_checks_each_guard() {
    let mut document = DocumentManagement::new();
    // absent document
    assert_eq!(
        document.transfer_from(ALICE, ALICE, BOB, 1),
        Err(DocumentError::DocumentNotFound)
    );
    assert_eq!(document.document_new(ALICE, 1), Ok(()));
    // the null principal cannot act
    assert_eq!(
        document.transfer_from(NULL, ALICE, BOB, 1),
        Err(DocumentError::CannotInsert)
    );
    // an unauthorized caller
    assert_eq!(
        document.transfer_from(BOB, ALICE, CHARLIE, 1),
        Err(DocumentError::NotAllow)
    );
    // `from` must be the owner
    assert_eq!(
        document.transfer_from(ALICE, BOB, CHARLIE, 1),
        Err(DocumentError::NotOwner)
    );
    // the null principal cannot receive
    assert_eq!(
        document.transfer_from(ALICE, ALICE, NULL, 1),
        Err(DocumentError::NotAllow)
    );
    // nothing moved
    assert_eq!(document.document_owner_get(1), Ok(ALICE));
}

#[test]
fn transfer_clears_delegate_approval() {
    // after a successful transfer the old delegate is no longer authorized
    let mut document = DocumentManagement::new();
    assert_eq!(document.document_new(ALICE, 1), Ok(()));
    assert_eq!(document.approve(ALICE, BOB, 1), Ok(()));
    assert_eq!(document.transfer_from(BOB, ALICE, CHARLIE, 1), Ok(()));
    assert_eq!(
        document.get_approved_account(1),
        Err(DocumentError::NoDataFound)
    );
    assert!(!document.is_authorized(BOB, CHARLIE, 1));
}

#[test]
fn transfer_emits_delete_then_transfer() {
    let mut document = DocumentManagement::new();
    assert_eq!(document.document_new(ALICE, 1), Ok(()));
    let _ = document.take_events();
    assert_eq!(document.tranfer_to(ALICE, BOB, 1), Ok(()));
    let events = document.take_events();
    assert_eq!(events.len(), 2);
    match &events[0] {
        DocumentEvent::DocumentUpdated(u) => {
            assert_eq!(u.action, UpdateMessage::DocumentDelete);
            assert_eq!(u.from, ALICE);
            assert_eq!(u.id, 1);
        }
        other => panic!("unexpected event {:?}", other),
    }
    match &events[1] {
        DocumentEvent::Transfer(t) => {
            assert_eq!(t.from, Some(ALICE));
            assert_eq!(t.to, Some(BOB));
            assert_eq!(t.id, 1);
        }
        other => panic!("unexpected event {:?}", other),
    }
}

#[test]
fn counters_follow_mint_burn_transfer() {
    // counter consistency over a longer sequence
    let mut document = DocumentManagement::new();
    assert_eq!(document.document_new(ALICE, 1), Ok(()));
    assert_eq!(document.document_new(ALICE, 2), Ok(()));
    assert_eq!(document.document_new(BOB, 3), Ok(()));
    assert_eq!(document.numof_owned_documents(ALICE), 2);
    assert_eq!(document.numof_owned_documents(BOB), 1);
    assert_eq!(document.tranfer_to(ALICE, BOB, 1), Ok(()));
    assert_eq!(document.numof_owned_documents(ALICE), 1);
    assert_eq!(document.numof_owned_documents(BOB), 2);
    assert_eq!(document.burn_document(BOB, 3), Ok(()));
    assert_eq!(document.numof_owned_documents(BOB), 1);
    assert_eq!(document.burn_document(ALICE, 2), Ok(()));
    assert_eq!(document.numof_owned_documents(ALICE), 0);
    // a failed operation changes no counter
    assert_eq!(
        document.document_new(BOB, 1),
        Err(DocumentError::DocumentIdAlreadyExists)
    );
    assert_eq!(document.numof_owned_documents(BOB), 1);
}

#[test]
fn failed_operations_emit_no_event() {
    let mut document = DocumentManagement::new();
    assert_eq!(document.document_new(ALICE, 1), Ok(()));
    let _ = document.take_events();
    assert_eq!(
        document.document_new(ALICE, 1),
        Err(DocumentError::DocumentIdAlreadyExists)
    );
    assert_eq!(document.burn_document(BOB, 1), Err(DocumentError::NotOwner));
    assert_eq!(
        document.transfer_from(BOB, ALICE, CHARLIE, 1),
        Err(DocumentError::NotAllow)
    );
    assert_eq!(document.emitted_events().len(), 0);
}
