//! A verified registry for uniquely identified documents.
//!
//! The core (`document_management`) tracks exclusive ownership of documents,
//! attaches content, metadata and location digests to them, and enforces a
//! two-tier delegated-authorization model (single-document delegates and
//! blanket operators) for transfers. The sibling modules model the simpler
//! collaborators of the registry: a name service (`dns`), an account and
//! role table (`document_acounts`), an admin quorum (`permisson_control`),
//! an upgrade proxy (`proxy_account`) and a hash builder (`hash_builder`).

pub mod dns;
pub mod document_acounts;
pub mod document_management;
pub mod hash_builder;
pub mod permisson_control;
pub mod proxy_account;
pub mod table;
pub mod types;

pub use types::AccountId;
pub use types::Digest;
pub use types::DocumentId;
