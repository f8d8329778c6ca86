use document_registry::proxy_account::Proxy;
use document_registry::proxy_account::ProxyError;
use document_registry::types::AccountId;

const DEV: AccountId = 1;
const OTHER: AccountId = 2;

#[test]
fn proxy_tracks_delegatee_hash() {
    let mut proxy = Proxy::new(DEV, 0xAAAA);
    assert_eq!(proxy.get_delegatee_hash(), 0xAAAA);
    proxy.update_delegate_to(0xBBBB);
    assert_eq!(proxy.get_delegatee_hash(), 0xBBBB);
}

#[test]
fn code_hash_is_gated_by_developer() {
    let proxy = Proxy::new(DEV, 0xAAAA);
    assert_eq!(proxy.get_delegatee_code_hash(DEV), Ok(0xAAAA));
    assert_eq!(
        proxy.get_delegatee_code_hash(OTHER),
        Err(ProxyError::NotAllow)
    );
    assert!(proxy.check_is_developer(DEV));
    assert!(!proxy.check_is_developer(OTHER));
}

#[test]
fn version_records() {
    let mut proxy = Proxy::new(DEV, 0xAAAA);
    assert_eq!(proxy.contract_version_get(), Err(ProxyError::NoDataFound));
    assert_eq!(proxy.get_delegatee_version(), Err(ProxyError::NoDataFound));
    assert_eq!(proxy.contract_version_new(3), Ok(()));
    assert_eq!(proxy.contract_version_get(), Ok(3));
}

#[test]
fn recorded_uuid_is_returned() {
    let mut proxy = Proxy::new(DEV, 0xAAAA);
    proxy.record_uuid(OTHER, 77);
    assert_eq!(proxy.get_uuid(OTHER), 77);
}
