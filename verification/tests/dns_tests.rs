use document_registry::dns::Dns;
use document_registry::dns::DnsError;
use document_registry::types::AccountId;

const ALICE: AccountId = 1;
const BOB: AccountId = 2;
const DEFAULT: AccountId = 0;

#[test]
fn dns_works1() {
    assert_eq!(1, 1)
}

#[test]
fn dns_works2() {
    assert_eq!(1, 1)
}

#[test]
fn register_is_first_come_first_served() {
    let mut dns = Dns::new();
    assert_eq!(dns.register(ALICE, 100), Ok(()));
    assert_eq!(dns.get_owner(100), ALICE);
    assert_eq!(dns.register(BOB, 100), Err(DnsError::NameAlreadyExist));
    assert_eq!(dns.get_owner(100), ALICE);
}

#[test]
fn unknown_name_resolves_to_default() {
    let dns = Dns::new();
    assert_eq!(dns.get_address(42), DEFAULT);
    assert_eq!(dns.get_owner(42), DEFAULT);
}

#[test]
fn set_address_only_by_owner() {
    let mut dns = Dns::new();
    assert_eq!(dns.register(ALICE, 100), Ok(()));
    assert_eq!(dns.set_address(BOB, 100, 7), Err(DnsError::NotOwner));
    assert_eq!(dns.set_address(ALICE, 100, 7), Ok(()));
    assert_eq!(dns.get_address(100), 7);
    assert_eq!(dns.set_address(ALICE, 100, 8), Ok(()));
    assert_eq!(dns.get_address(100), 8);
}

#[test]
fn transfer_name_hands_over_ownership() {
    let mut dns = Dns::new();
    assert_eq!(dns.register(ALICE, 100), Ok(()));
    assert_eq!(dns.transfer(BOB, 100, BOB), Err(DnsError::NotOwner));
    assert_eq!(dns.transfer(ALICE, 100, BOB), Ok(()));
    assert_eq!(dns.get_owner(100), BOB);
    // the old owner lost control
    assert_eq!(dns.set_address(ALICE, 100, 7), Err(DnsError::NotOwner));
    assert_eq!(dns.set_address(BOB, 100, 7), Ok(()));
}
