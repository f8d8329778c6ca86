//! Plain value types shared by every module of the registry.
//!
//! A principal (caller, owner, operator or delegate) is an opaque account
//! handle; the registry never looks inside one, it only compares them, so an
//! account is modelled as a 64-bit word. The account `0` is the reserved
//! null principal: it can never own, approve, or be approved. Digests
//! (content addresses, code hashes, registered names) are equally opaque
//! fixed-size words.

use vstd::prelude::*;

verus! {

/// An opaque principal: a caller, owner, operator or delegate.
pub type AccountId = u64;

/// The reserved null principal; it never owns or acts on a document.
pub const NULL_ACCOUNT: AccountId = 0;

/// A document is identified by a 32-bit id.
pub type DocumentId = u32;

/// An opaque fixed-size content address (a hash of content or metadata,
/// a registered name, or a code hash).
pub type Digest = u64;

/// A pointer into external storage, given as a content address.
pub type IPFSaddr = Digest;

/// A blanket-approval relation entry: `operator` may act on every document
/// that `owner` currently or later owns.
#[derive(Clone, Copy, PartialEq, Eq, Structural, Debug)]
pub struct ApprovalPair {
    pub owner: AccountId,
    pub operator: AccountId,
}

} // verus!
