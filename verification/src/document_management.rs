//! The document registry: exclusive ownership of uniquely identified
//! documents, attached data slots, and a two-tier delegated-authorization
//! model for transfers.
//!
//! The registry is an explicit aggregate value; every operation takes the
//! resolved caller as an argument, validates before it mutates, and appends
//! the events of a successful transition to an internal log that the host
//! drains and forwards. A failed operation leaves the whole state unchanged
//! and emits nothing.
//!
//! The abstraction of the registry is a [`RegistryView`]; each mutating
//! operation is specified by a pure transition function on views, and the
//! laws of the registry (uniqueness of ids, counter consistency, approval
//! exclusivity and the authorization rules) are proved over those
//! transitions.

use vstd::prelude::*;

use crate::table::Table;
use crate::table::lemma_table_dom_finite;
use crate::types::AccountId;
use crate::types::ApprovalPair;
use crate::types::Digest;
use crate::types::DocumentId;
use crate::types::IPFSaddr;
use crate::types::NULL_ACCOUNT;

verus! {

/// The errors of the registry.
#[derive(Debug, Clone, PartialEq, Eq)]
pub enum DocumentError {
    NotPublisher,
    NotAuthors,
    DocumentNotFound,
    DocumentIdAlreadyExists,
    CannotInsert,
    CannotDelete,
    NotAllow,
    DuplicationData,
    NotOwner,
    NoDataFound,
    AccountNotFound,
    CannotFetchValue,
}

pub type DocumentResult<T> = Result<T, DocumentError>;

/// The kind of change a `DocumentUpdated` event reports.
#[derive(Debug, Clone, Copy, PartialEq, Eq)]
pub enum UpdateMessage {
    ContentUpdate,
    OwnverUpdate,
    DocumentDelete,
    MetadataUpdate,
}

/// Emitted when ownership of a document changes; a mint reports a transfer
/// from the null principal.
#[derive(Debug, Clone, PartialEq, Eq)]
pub struct Transfer {
    pub from: Option<AccountId>,
    pub to: Option<AccountId>,
    pub id: DocumentId,
}

/// Emitted when a proxy approves a document.
#[derive(Debug, Clone, PartialEq, Eq)]
pub struct ProxyUpdated {
    pub from: Option<AccountId>,
    pub to: Option<AccountId>,
    pub id: DocumentId,
}

/// Emitted when a document or one of its data slots changes.
#[derive(Debug, Clone, PartialEq, Eq)]
pub struct DocumentUpdated {
    pub action: UpdateMessage,
    pub from: AccountId,
    pub id: DocumentId,
}

/// Emitted when a role changes.
#[derive(Debug, Clone, PartialEq, Eq)]
pub struct RoleUpdated {
    pub from: AccountId,
    pub id: AccountId,
}

/// Emitted on every blanket-approval request, granted or revoked.
#[derive(Debug, Clone, PartialEq, Eq)]
pub struct ApprovalForAll {
    pub owner: AccountId,
    pub operator: AccountId,
    pub approved: bool,
}

/// Emitted when a single-document delegate is approved.
#[derive(Debug, Clone, PartialEq, Eq)]
pub struct Approval {
    pub from: AccountId,
    pub to: AccountId,
    pub id: DocumentId,
}

/// One entry of the registry's event log.
#[derive(Debug, Clone, PartialEq, Eq)]
pub enum DocumentEvent {
    Transfer(Transfer),
    ProxyUpdated(ProxyUpdated),
    DocumentUpdated(DocumentUpdated),
    RoleUpdated(RoleUpdated),
    ApprovalForAll(ApprovalForAll),
    Approval(Approval),
}

/// The set of documents that `p` currently owns under the owner mapping.
pub open spec fn owned_set(owners: Map<DocumentId, AccountId>, p: AccountId) -> Set<DocumentId> {
    owners.dom().filter(|id: DocumentId| owners[id] == p)
}

/// The count a counter mapping reports for `p`; absence counts as zero.
pub open spec fn counter_in(m: Map<AccountId, u32>, p: AccountId) -> u32 {
    if m.contains_key(p) {
        m[p]
    } else {
        0
    }
}

/// The null principal never appears as an owner.
pub open spec fn null_owns_nothing(owners: Map<DocumentId, AccountId>) -> bool {
    forall|id: DocumentId| #[trigger] owners.contains_key(id) ==> owners[id] != NULL_ACCOUNT
}

/// Every principal's counter equals the number of documents it owns.
pub open spec fn counters_consistent(
    owners: Map<DocumentId, AccountId>,
    counters: Map<AccountId, u32>,
) -> bool {
    forall|p: AccountId| #[trigger] counter_in(counters, p) == owned_set(owners, p).len()
}

/// A delegate approval refers to a minted document and never names the null
/// principal.
pub open spec fn delegates_consistent(
    owners: Map<DocumentId, AccountId>,
    delegates: Map<DocumentId, AccountId>,
) -> bool {
    forall|id: DocumentId|
        #[trigger] delegates.contains_key(id) ==> owners.contains_key(id) && delegates[id]
            != NULL_ACCOUNT
}

/// The abstraction of the registry state.
#[verifier::ext_equal]
pub struct RegistryView {
    /// Document id to owning principal.
    pub owners: Map<DocumentId, AccountId>,
    /// Document id to content digest.
    pub contents: Map<DocumentId, Digest>,
    /// Document id to metadata digest.
    pub metadata: Map<DocumentId, Digest>,
    /// Document id to external-storage location.
    pub locations: Map<DocumentId, IPFSaddr>,
    /// Principal to number of documents it owns.
    pub counters: Map<AccountId, u32>,
    /// Persisted blanket approvals.
    pub operators: Set<ApprovalPair>,
    /// Document id to its single approved delegate.
    pub delegates: Map<DocumentId, AccountId>,
    /// The log of emitted events, oldest first.
    pub events: Seq<DocumentEvent>,
}

impl RegistryView {
    /// The number of documents the registry has recorded for `p`.
    pub open spec fn counter_of(self, p: AccountId) -> u32 {
        counter_in(self.counters, p)
    }

    /// The documents `p` currently owns.
    pub open spec fn holdings(self, p: AccountId) -> Set<DocumentId> {
        owned_set(self.owners, p)
    }

    /// The single approved delegate of a document, if any.
    pub open spec fn delegate_of(self, id: DocumentId) -> Option<AccountId> {
        if self.delegates.contains_key(id) {
            Some(self.delegates[id])
        } else {
            None
        }
    }

    /// Whether `operator` holds a blanket approval from `owner`.
    pub open spec fn approved_for_all(self, owner: AccountId, operator: AccountId) -> bool {
        self.operators.contains(ApprovalPair { owner, operator })
    }

    /// Whether `actor` may act on document `id` owned by `owner`: the actor
    /// is the owner, or the document's delegate, or a blanket-approved
    /// operator of the owner. The null principal is never authorized.
    pub open spec fn authorized(self, actor: AccountId, owner: AccountId, id: DocumentId) -> bool {
        actor != NULL_ACCOUNT && (actor == owner || self.delegate_of(id) == Some(actor)
            || self.approved_for_all(owner, actor))
    }

    /// The semantic invariant of the registry:
    /// the null principal owns nothing; every principal's counter equals the
    /// number of documents it owns; and a delegate approval only ever refers
    /// to a minted document and is never the null principal.
    pub open spec fn wf(self) -> bool {
        &&& self.owners.dom().finite()
        &&& null_owns_nothing(self.owners)
        &&& counters_consistent(self.owners, self.counters)
        &&& delegates_consistent(self.owners, self.delegates)
    }

    /// The view of a freshly constructed registry.
    pub open spec fn init() -> RegistryView {
        RegistryView {
            owners: Map::empty(),
            contents: Map::empty(),
            metadata: Map::empty(),
            locations: Map::empty(),
            counters: Map::empty(),
            operators: Set::empty(),
            delegates: Map::empty(),
            events: Seq::empty(),
        }
    }

    /// The result of minting `id` for `caller`: the null principal may not
    /// receive a document, and an id that already has an owner cannot be
    /// minted again.
    pub open spec fn mint_res(self, caller: AccountId, id: DocumentId) -> DocumentResult<()> {
        if caller == NULL_ACCOUNT {
            Err(DocumentError::NotAllow)
        } else if self.owners.contains_key(id) {
            Err(DocumentError::DocumentIdAlreadyExists)
        } else {
            Ok(())
        }
    }

    /// The state after minting `id` for `caller`; unchanged when the mint is
    /// refused.
    pub open spec fn mint_next(self, caller: AccountId, id: DocumentId) -> RegistryView {
        if self.mint_res(caller, id) is Ok {
            RegistryView {
                owners: self.owners.insert(id, caller),
                counters: self.counters.insert(caller, (self.counter_of(caller) + 1) as u32),
                events: self.events.push(
                    DocumentEvent::Transfer(
                        Transfer { from: Some(NULL_ACCOUNT), to: Some(caller), id },
                    ),
                ),
                ..self
            }
        } else {
            self
        }
    }

    /// The result of approving `to` as the single delegate of `id`, asked
    /// for by `caller`: the document must exist, the caller must be its
    /// owner or a blanket-approved operator of the owner, the delegate may
    /// not be the null principal, and an existing approval is not replaced.
    pub open spec fn approve_res(self, caller: AccountId, to: AccountId, id: DocumentId)
        -> DocumentResult<()> {
        if !self.owners.contains_key(id) {
            Err(DocumentError::DocumentNotFound)
        } else if !(caller == self.owners[id] || self.approved_for_all(self.owners[id], caller)) {
            Err(DocumentError::NotAllow)
        } else if to == NULL_ACCOUNT {
            Err(DocumentError::NotAllow)
        } else if self.delegates.contains_key(id) {
            Err(DocumentError::CannotInsert)
        } else {
            Ok(())
        }
    }

    /// The state after a delegate approval; unchanged when refused.
    pub open spec fn approve_next(self, caller: AccountId, to: AccountId, id: DocumentId)
        -> RegistryView {
        if self.approve_res(caller, to, id) is Ok {
            RegistryView {
                delegates: self.delegates.insert(id, to),
                events: self.events.push(
                    DocumentEvent::Approval(Approval { from: caller, to, id }),
                ),
                ..self
            }
        } else {
            self
        }
    }

    /// The result of a blanket-approval request: a principal cannot grant or
    /// revoke an approval on itself.
    pub open spec fn set_operator_res(self, caller: AccountId, to: AccountId, approved: bool)
        -> DocumentResult<()> {
        if to == caller {
            Err(DocumentError::NotAllow)
        } else {
            Ok(())
        }
    }

    /// The state after a blanket-approval request: the event always reports
    /// the requested state; the relation is persisted on a grant and
    /// discarded on a revoke. Unchanged when refused.
    pub open spec fn set_operator_next(self, caller: AccountId, to: AccountId, approved: bool)
        -> RegistryView {
        if self.set_operator_res(caller, to, approved) is Ok {
            RegistryView {
                operators: if approved {
                    self.operators.insert(ApprovalPair { owner: caller, operator: to })
                } else {
                    self.operators.remove(ApprovalPair { owner: caller, operator: to })
                },
                events: self.events.push(
                    DocumentEvent::ApprovalForAll(
                        ApprovalForAll { owner: caller, operator: to, approved },
                    ),
                ),
                ..self
            }
        } else {
            self
        }
    }

    /// The result of transferring `id` from `from` to `to` on behalf of
    /// `caller`: the document must exist; the null principal can act on
    /// nothing and receive nothing; the caller must be authorized for the
    /// current owner; and `from` must be that owner.
    pub open spec fn transfer_res(
        self,
        caller: AccountId,
        from: AccountId,
        to: AccountId,
        id: DocumentId,
    ) -> DocumentResult<()> {
        if !self.owners.contains_key(id) {
            Err(DocumentError::DocumentNotFound)
        } else if caller == NULL_ACCOUNT {
            Err(DocumentError::CannotInsert)
        } else if !self.authorized(caller, self.owners[id], id) {
            Err(DocumentError::NotAllow)
        } else if self.owners[id] != from {
            Err(DocumentError::NotOwner)
        } else if to == NULL_ACCOUNT {
            Err(DocumentError::NotAllow)
        } else {
            Ok(())
        }
    }

    /// The state after a transfer: any outstanding delegate approval is
    /// cleared, the document moves from `from` to `to`, the counters follow,
    /// and a delete event and a transfer event are emitted in that order.
    /// The attached data slots stay with the document. Unchanged when the
    /// transfer is refused.
    pub open spec fn transfer_next(
        self,
        caller: AccountId,
        from: AccountId,
        to: AccountId,
        id: DocumentId,
    ) -> RegistryView {
        if self.transfer_res(caller, from, to, id) is Ok {
            let dec = self.counters.insert(from, (counter_in(self.counters, from) - 1) as u32);
            let inc = dec.insert(to, (counter_in(dec, to) + 1) as u32);
            RegistryView {
                owners: self.owners.remove(id).insert(id, to),
                counters: inc,
                delegates: self.delegates.remove(id),
                events: self.events.push(
                    DocumentEvent::DocumentUpdated(
                        DocumentUpdated { action: UpdateMessage::DocumentDelete, from, id },
                    ),
                ).push(DocumentEvent::Transfer(Transfer { from: Some(from), to: Some(to), id })),
                ..self
            }
        } else {
            self
        }
    }

    /// The result of burning `id` as `caller`: a document that was never
    /// minted (or already burned) is not found, and only the owner may burn.
    pub open spec fn burn_res(self, caller: AccountId, id: DocumentId) -> DocumentResult<()> {
        if !self.owners.contains_key(id) {
            Err(DocumentError::DocumentNotFound)
        } else if self.owners[id] != caller {
            Err(DocumentError::NotOwner)
        } else {
            Ok(())
        }
    }

    /// The state after burning `id`: the owner entry and any outstanding
    /// delegate approval are discarded and the owner's counter decreases.
    /// The attached data slots survive a burn. Unchanged when the burn is
    /// refused.
    pub open spec fn burn_next(self, caller: AccountId, id: DocumentId) -> RegistryView {
        if self.burn_res(caller, id) is Ok {
            RegistryView {
                owners: self.owners.remove(id),
                counters: self.counters.insert(caller, (self.counter_of(caller) - 1) as u32),
                delegates: self.delegates.remove(id),
                events: self.events.push(
                    DocumentEvent::DocumentUpdated(
                        DocumentUpdated { action: UpdateMessage::DocumentDelete, from: caller, id },
                    ),
                ),
                ..self
            }
        } else {
            self
        }
    }
}

/// Inserting a fresh document only extends the holdings of its new owner.
pub proof fn lemma_owned_set_insert(owners: Map<DocumentId, AccountId>, id: DocumentId, a: AccountId)
    requires
        !owners.contains_key(id),
    ensures
        forall|p: AccountId|
            p != a ==> #[trigger] owned_set(owners.insert(id, a), p) == owned_set(owners, p),
        owned_set(owners.insert(id, a), a) == owned_set(owners, a).insert(id),
        !owned_set(owners, a).contains(id),
{
    assert forall|p: AccountId| p != a implies #[trigger] owned_set(owners.insert(id, a), p)
        == owned_set(owners, p) by {
        assert(owned_set(owners.insert(id, a), p) =~= owned_set(owners, p));
    }
    assert(owned_set(owners.insert(id, a), a) =~= owned_set(owners, a).insert(id));
}

/// Removing a document only shrinks the holdings of its owner.
pub proof fn lemma_owned_set_remove(owners: Map<DocumentId, AccountId>, id: DocumentId)
    requires
        owners.contains_key(id),
    ensures
        forall|p: AccountId|
            p != owners[id] ==> #[trigger] owned_set(owners.remove(id), p) == owned_set(owners, p),
        owned_set(owners.remove(id), owners[id]) == owned_set(owners, owners[id]).remove(id),
        owned_set(owners, owners[id]).contains(id),
{
    let a = owners[id];
    assert forall|p: AccountId| p != a implies #[trigger] owned_set(owners.remove(id), p)
        == owned_set(owners, p) by {
        assert(owned_set(owners.remove(id), p) =~= owned_set(owners, p));
    }
    assert(owned_set(owners.remove(id), a) =~= owned_set(owners, a).remove(id));
}

/// The holdings of any principal form a finite set.
pub proof fn lemma_owned_set_finite(owners: Map<DocumentId, AccountId>, p: AccountId)
    requires
        owners.dom().finite(),
    ensures
        owned_set(owners, p).finite(),
{
    owners.dom().lemma_len_filter(|id: DocumentId| owners[id] == p);
}

/// Minting preserves the registry invariant.
pub proof fn lemma_mint_next_wf(v: RegistryView, caller: AccountId, id: DocumentId)
    requires
        v.wf(),
        v.mint_res(caller, id) is Ok ==> v.counter_of(caller) < u32::MAX,
    ensures
        v.mint_next(caller, id).wf(),
{
    if v.mint_res(caller, id) is Ok {
        let w = v.mint_next(caller, id);
        lemma_owned_set_insert(v.owners, id, caller);
        lemma_owned_set_finite(v.owners, caller);
        assert forall|p: AccountId| #[trigger] counter_in(w.counters, p) == owned_set(
            w.owners,
            p,
        ).len() by {
            assert(counter_in(v.counters, p) == owned_set(v.owners, p).len());
            if p == caller {
                assert(owned_set(w.owners, caller) == owned_set(v.owners, caller).insert(id));
            } else {
                assert(owned_set(w.owners, p) == owned_set(v.owners, p));
            }
        }
    }
}

/// Burning preserves the registry invariant.
pub proof fn lemma_burn_next_wf(v: RegistryView, caller: AccountId, id: DocumentId)
    requires
        v.wf(),
    ensures
        v.burn_next(caller, id).wf(),
{
    if v.burn_res(caller, id) is Ok {
        let w = v.burn_next(caller, id);
        lemma_owned_set_remove(v.owners, id);
        lemma_owned_set_finite(v.owners, caller);
        assert forall|p: AccountId| #[trigger] counter_in(w.counters, p) == owned_set(
            w.owners,
            p,
        ).len() by {
            assert(counter_in(v.counters, p) == owned_set(v.owners, p).len());
            if p == caller {
                assert(owned_set(w.owners, caller) == owned_set(v.owners, caller).remove(id));
                assert(owned_set(v.owners, caller).contains(id));
            } else {
                assert(owned_set(w.owners, p) == owned_set(v.owners, p));
            }
        }
    }
}

/// Discarding a delegate approval keeps the delegate mapping consistent.
pub proof fn lemma_delegates_remove(
    owners: Map<DocumentId, AccountId>,
    delegates: Map<DocumentId, AccountId>,
    id: DocumentId,
)
    requires
        delegates_consistent(owners, delegates),
    ensures
        delegates_consistent(owners, delegates.remove(id)),
{
    assert forall|id2: DocumentId| #[trigger] delegates.remove(id).contains_key(id2)
        implies owners.contains_key(id2) && delegates.remove(id)[id2] != NULL_ACCOUNT by {
        assert(delegates.contains_key(id2));
    }
}

/// A delegate approval preserves the registry invariant.
pub proof fn lemma_approve_next_wf(v: RegistryView, caller: AccountId, to: AccountId, id: DocumentId)
    requires
        v.wf(),
    ensures
        v.approve_next(caller, to, id).wf(),
{
    if v.approve_res(caller, to, id) is Ok {
        let w = v.approve_next(caller, to, id);
        assert forall|id2: DocumentId| #[trigger] w.delegates.contains_key(id2)
            implies w.owners.contains_key(id2) && w.delegates[id2] != NULL_ACCOUNT by {
            if id2 != id {
                assert(v.delegates.contains_key(id2));
            }
        }
    }
}

/// A transfer preserves the registry invariant.
pub proof fn lemma_transfer_next_wf(
    v: RegistryView,
    caller: AccountId,
    from: AccountId,
    to: AccountId,
    id: DocumentId,
)
    requires
        v.wf(),
        v.transfer_res(caller, from, to, id) is Ok && from != to ==> v.counter_of(to) < u32::MAX,
    ensures
        v.transfer_next(caller, from, to, id).wf(),
{
    if v.transfer_res(caller, from, to, id) is Ok {
        let w = v.transfer_next(caller, from, to, id);
        let owners1 = v.owners.remove(id);
        let dec = v.counters.insert(from, (counter_in(v.counters, from) - 1) as u32);
        lemma_owned_set_remove(v.owners, id);
        lemma_owned_set_finite(v.owners, from);
        assert(owned_set(v.owners, from).contains(id));
        assert(counter_in(v.counters, from) >= 1);
        assert forall|p: AccountId| #[trigger] counter_in(dec, p) == owned_set(owners1, p).len() by {
            assert(counter_in(v.counters, p) == owned_set(v.owners, p).len());
            if p == from {
                assert(owned_set(owners1, from) == owned_set(v.owners, from).remove(id));
            } else {
                assert(owned_set(owners1, p) == owned_set(v.owners, p));
            }
        }
        lemma_owned_set_insert(owners1, id, to);
        assert forall|p: AccountId| #[trigger] counter_in(w.counters, p) == owned_set(
            w.owners,
            p,
        ).len() by {
            assert(counter_in(dec, p) == owned_set(owners1, p).len());
            if p == to {
                assert(owned_set(w.owners, to) == owned_set(owners1, to).insert(id));
                lemma_owned_set_finite(owners1, to);
            } else {
                assert(owned_set(w.owners, p) == owned_set(owners1, p));
            }
        }
        assert forall|id2: DocumentId| #[trigger] w.owners.contains_key(id2)
            implies w.owners[id2] != NULL_ACCOUNT by {
            if id2 != id {
                assert(v.owners.contains_key(id2));
            }
        }
        assert forall|id2: DocumentId| #[trigger] w.delegates.contains_key(id2)
            implies w.owners.contains_key(id2) && w.delegates[id2] != NULL_ACCOUNT by {
            assert(v.delegates.contains_key(id2));
            assert(v.owners.contains_key(id2));
        }
    }
}

/// One step of the ownership state machine: a mint, a burn, or a transfer.
#[derive(Debug, Clone, PartialEq, Eq)]
pub enum RegistryOp {
    Mint { caller: AccountId, id: DocumentId },
    Burn { caller: AccountId, id: DocumentId },
    Transfer { caller: AccountId, from: AccountId, to: AccountId, id: DocumentId },
}

impl RegistryView {
    /// Applies one operation when the counter bound that the implementation
    /// requires admits it; a refused operation already leaves the state
    /// unchanged in its own transition.
    pub open spec fn apply_op(self, op: RegistryOp) -> RegistryView {
        match op {
            RegistryOp::Mint { caller, id } => if self.counter_of(caller) < u32::MAX {
                self.mint_next(caller, id)
            } else {
                self
            },
            RegistryOp::Burn { caller, id } => self.burn_next(caller, id),
            RegistryOp::Transfer { caller, from, to, id } => if from == to || self.counter_of(to)
                < u32::MAX {
                self.transfer_next(caller, from, to, id)
            } else {
                self
            },
        }
    }

    /// Applies a sequence of operations in order.
    pub open spec fn apply_ops(self, ops: Seq<RegistryOp>) -> RegistryView
        decreases ops.len(),
    {
        if ops.len() == 0 {
            self
        } else {
            self.apply_op(ops[0]).apply_ops(ops.drop_first())
        }
    }
}

/// The initial registry state satisfies the invariant.
pub proof fn lemma_init_wf()
    ensures
        RegistryView::init().wf(),
{
    let v = RegistryView::init();
    assert(v.owners.dom() =~= Set::<DocumentId>::empty());
    assert forall|p: AccountId| #[trigger] counter_in(v.counters, p) == owned_set(
        v.owners,
        p,
    ).len() by {
        assert(owned_set(v.owners, p) =~= Set::<DocumentId>::empty());
    }
}

/// Every single operation preserves the registry invariant.
pub proof fn lemma_apply_op_wf(v: RegistryView, op: RegistryOp)
    requires
        v.wf(),
    ensures
        v.apply_op(op).wf(),
{
    match op {
        RegistryOp::Mint { caller, id } => {
            if v.counter_of(caller) < u32::MAX {
                lemma_mint_next_wf(v, caller, id);
            }
        },
        RegistryOp::Burn { caller, id } => {
            lemma_burn_next_wf(v, caller, id);
        },
        RegistryOp::Transfer { caller, from, to, id } => {
            if from == to || v.counter_of(to) < u32::MAX {
                lemma_transfer_next_wf(v, caller, from, to, id);
            }
        },
    }
}

/// Every sequence of operations preserves the registry invariant.
pub proof fn lemma_apply_ops_wf(v: RegistryView, ops: Seq<RegistryOp>)
    requires
        v.wf(),
    ensures
        v.apply_ops(ops).wf(),
    decreases ops.len(),
{
    if ops.len() > 0 {
        lemma_apply_op_wf(v, ops[0]);
        lemma_apply_ops_wf(v.apply_op(ops[0]), ops.drop_first());
    }
}

/// Law: counter consistency. After any sequence of mints, burns and
/// transfers from the initial state, every principal's recorded count
/// equals the number of documents it currently owns.
pub proof fn lemma_counter_consistency(ops: Seq<RegistryOp>)
    ensures
        RegistryView::init().apply_ops(ops).wf(),
        forall|p: AccountId|
            #[trigger] RegistryView::init().apply_ops(ops).counter_of(p)
                == RegistryView::init().apply_ops(ops).holdings(p).len(),
{
    lemma_init_wf();
    lemma_apply_ops_wf(RegistryView::init(), ops);
    let w = RegistryView::init().apply_ops(ops);
    assert forall|p: AccountId| #[trigger] w.counter_of(p) == w.holdings(p).len() by {
        assert(counter_in(w.counters, p) == owned_set(w.owners, p).len());
    }
}

/// Law: uniqueness of document ids. Once an id has been minted, minting it
/// again fails with `DocumentIdAlreadyExists` (the null principal is
/// refused for being null instead).
pub proof fn lemma_mint_uniqueness(v: RegistryView, c1: AccountId, c2: AccountId, id: DocumentId)
    requires
        v.mint_res(c1, id) is Ok,
        c2 != NULL_ACCOUNT,
    ensures
        v.mint_next(c1, id).mint_res(c2, id) == Err::<(), DocumentError>(
            DocumentError::DocumentIdAlreadyExists,
        ),
{
}

/// Law: the ownership record of a minted document survives every operation
/// except a burn of that very document, so a mint of the same id keeps
/// failing until the document is burned.
pub proof fn lemma_minted_until_burned(v: RegistryView, ops: Seq<RegistryOp>, id: DocumentId)
    requires
        v.owners.contains_key(id),
        forall|i: int|
            0 <= i < ops.len() ==> !((#[trigger] ops[i]) matches RegistryOp::Burn {
                id: burned,
                ..
            } && burned == id),
    ensures
        v.apply_ops(ops).owners.contains_key(id),
        forall|c: AccountId|
            c != NULL_ACCOUNT ==> #[trigger] v.apply_ops(ops).mint_res(c, id) == Err::<(
            ),
            DocumentError,
        >(DocumentError::DocumentIdAlreadyExists),
    decreases ops.len(),
{
    if ops.len() > 0 {
        assert(!(ops[0] matches RegistryOp::Burn { id: burned, .. } && burned == id));
        lemma_minted_until_burned(v.apply_op(ops[0]), ops.drop_first(), id);
    }
}

/// Law: approval exclusivity. A document holds at most one delegate at any
/// time (its delegate is a single optional principal by construction), and
/// once an approval is recorded, a second otherwise-valid approval is
/// refused with `CannotInsert` until a transfer or burn clears the first.
pub proof fn lemma_approval_exclusive(
    v: RegistryView,
    c1: AccountId,
    d1: AccountId,
    c2: AccountId,
    d2: AccountId,
    id: DocumentId,
)
    requires
        v.approve_res(c1, d1, id) is Ok,
        ({
            let w = v.approve_next(c1, d1, id);
            c2 == w.owners[id] || w.approved_for_all(w.owners[id], c2)
        }),
        d2 != NULL_ACCOUNT,
    ensures
        v.approve_next(c1, d1, id).approve_res(c2, d2, id) == Err::<(), DocumentError>(
            DocumentError::CannotInsert,
        ),
{
}

/// Law: approvals clear on transfer. After any successful transfer of a
/// document, its former delegate is no longer authorized for it under the
/// new owner — unless the delegate is the new owner itself, or separately
/// holds a blanket approval from the new owner.
pub proof fn lemma_transfer_clears_approval(
    v: RegistryView,
    caller: AccountId,
    from: AccountId,
    to: AccountId,
    id: DocumentId,
    d: AccountId,
)
    requires
        v.transfer_res(caller, from, to, id) is Ok,
        v.delegate_of(id) == Some(d),
        d != to,
        !v.approved_for_all(to, d),
    ensures
        v.transfer_next(caller, from, to, id).owners[id] == to,
        !v.transfer_next(caller, from, to, id).authorized(d, to, id),
{
}

/// The registry of documents: who owns which document, the data attached to
/// each document, the persisted approvals, and the log of emitted events.
pub struct DocumentManagement {
    document_owner: Table<DocumentId, AccountId>,
    document_content: Table<DocumentId, Digest>,
    document_metadata: Table<DocumentId, Digest>,
    document_location: Table<DocumentId, IPFSaddr>,
    owned_document_counter: Table<AccountId, u32>,
    operator_approvals: Table<ApprovalPair, bool>,
    document_approvals: Table<DocumentId, AccountId>,
    events: Vec<DocumentEvent>,
}

impl View for DocumentManagement {
    type V = RegistryView;

    closed spec fn view(&self) -> RegistryView {
        RegistryView {
            owners: self.document_owner@,
            contents: self.document_content@,
            metadata: self.document_metadata@,
            locations: self.document_location@,
            counters: self.owned_document_counter@,
            operators: self.operator_approvals@.dom(),
            delegates: self.document_approvals@,
            events: self.events@,
        }
    }
}

impl DocumentManagement {
    /// The representation invariant together with the semantic invariant of
    /// the view. Established by the constructor and preserved by every
    /// operation.
    pub closed spec fn wf(&self) -> bool {
        &&& self.document_owner.wf()
        &&& self.document_content.wf()
        &&& self.document_metadata.wf()
        &&& self.document_location.wf()
        &&& self.owned_document_counter.wf()
        &&& self.operator_approvals.wf()
        &&& self.document_approvals.wf()
        &&& self@.wf()
    }

    /// An empty registry: no documents, no approvals, no events.
    pub fn new() -> (r: Self)
        ensures
            r.wf(),
            r@ == RegistryView::init(),
    {
        let r = DocumentManagement {
            document_owner: Table::new(),
            document_content: Table::new(),
            document_metadata: Table::new(),
            document_location: Table::new(),
            owned_document_counter: Table::new(),
            operator_approvals: Table::new(),
            document_approvals: Table::new(),
            events: Vec::new(),
        };
        proof {
            lemma_table_dom_finite(r.document_owner);
            assert(r@.operators =~= Set::<ApprovalPair>::empty());
            assert(r@ =~= RegistryView::init());
            assert forall|p: AccountId| #[trigger] counter_in(r@.counters, p) == owned_set(
                r@.owners,
                p,
            ).len() by {
                assert(owned_set(r@.owners, p) =~= Set::<DocumentId>::empty());
            }
        }
        r
    }

    /// The events emitted so far, oldest first.
    pub fn emitted_events(&self) -> (r: &Vec<DocumentEvent>)
        ensures
            r@ == self@.events,
    {
        &self.events
    }

    /// Hands the emitted events to the host and empties the log.
    pub fn take_events(&mut self) -> (r: Vec<DocumentEvent>)
        requires
            old(self).wf(),
        ensures
            final(self).wf(),
            r@ == old(self)@.events,
            final(self)@ == (RegistryView { events: Seq::empty(), ..old(self)@ }),
    {
        let mut drained: Vec<DocumentEvent> = Vec::new();
        core::mem::swap(&mut drained, &mut self.events);
        drained
    }

    /// Whether the document exists, that is, has an owner.
    pub fn verify_document_owner(&self, document_id: DocumentId) -> (r: bool)
        requires
            self.wf(),
        ensures
            r == self@.owners.contains_key(document_id),
    {
        self.document_owner.contains_key(document_id)
    }

    /// The owner of a document; not found when unminted or burned.
    pub fn document_owner_get(&self, document_id: DocumentId) -> (r: DocumentResult<AccountId>)
        requires
            self.wf(),
        ensures
            self@.owners.contains_key(document_id) ==> r == Ok::<AccountId, DocumentError>(
                self@.owners[document_id],
            ),
            !self@.owners.contains_key(document_id) ==> r == Err::<AccountId, DocumentError>(
                DocumentError::DocumentNotFound,
            ),
    {
        match self.document_owner.get(document_id) {
            Some(owner) => Ok(*owner),
            None => Err(DocumentError::DocumentNotFound),
        }
    }

    /// The number of documents the principal currently owns; a principal
    /// that never owned anything has count zero.
    pub fn numof_owned_documents(&self, owner: AccountId) -> (r: u32)
        requires
            self.wf(),
        ensures
            r == self@.counter_of(owner),
            r == self@.holdings(owner).len(),
    {
        proof {
            assert(counter_in(self@.counters, owner) == owned_set(self@.owners, owner).len());
        }
        match self.owned_document_counter.get(owner) {
            Some(count) => *count,
            None => 0,
        }
    }

    /// Whether the caller is the recorded owner of the document; false when
    /// the document does not exist.
    fn check_owner_owned_document(&self, caller: AccountId, document_id: DocumentId) -> (r: bool)
        requires
            self.wf(),
        ensures
            r == (self@.owners.contains_key(document_id) && self@.owners[document_id] == caller),
    {
        match self.document_owner.get(document_id) {
            Some(owner) => *owner == caller,
            None => false,
        }
    }

    /// Records `to` as the owner of a fresh document id. Refuses the null
    /// principal and an id that already has an owner.
    fn add_document_to(&mut self, to: AccountId, id: DocumentId) -> (r: DocumentResult<()>)
        requires
            old(self).wf(),
        ensures
            r == old(self)@.mint_res(to, id),
            r is Ok ==> final(self)@ == (RegistryView {
                owners: old(self)@.owners.insert(id, to),
                ..old(self)@
            }),
            r is Err ==> *final(self) == *old(self),
            final(self).document_owner.wf(),
            final(self).document_content.wf(),
            final(self).document_metadata.wf(),
            final(self).document_location.wf(),
            final(self).owned_document_counter.wf(),
            final(self).operator_approvals.wf(),
            final(self).document_approvals.wf(),
    {
        if to == NULL_ACCOUNT {
            return Err(DocumentError::NotAllow);
        }
        if self.document_owner.contains_key(id) {
            return Err(DocumentError::DocumentIdAlreadyExists);
        }
        self.document_owner.insert(id, to);
        Ok(())
    }

    /// Increments the owner's document counter.
    fn increase_documents_count(&mut self, owner: AccountId)
        requires
            old(self).owned_document_counter.wf(),
            old(self)@.counter_of(owner) < u32::MAX,
        ensures
            final(self)@ == (RegistryView {
                counters: old(self)@.counters.insert(
                    owner,
                    (old(self)@.counter_of(owner) + 1) as u32,
                ),
                ..old(self)@
            }),
            final(self).owned_document_counter.wf(),
            final(self).document_owner == old(self).document_owner,
            final(self).document_content == old(self).document_content,
            final(self).document_metadata == old(self).document_metadata,
            final(self).document_location == old(self).document_location,
            final(self).operator_approvals == old(self).operator_approvals,
            final(self).document_approvals == old(self).document_approvals,
            final(self).events == old(self).events,
    {
        let count: u32 = match self.owned_document_counter.get(owner) {
            Some(count) => *count + 1,
            None => 1,
        };
        self.owned_document_counter.insert(owner, count);
    }

    /// Decrements the owner's document counter; the invariant rules an
    /// underflow out wherever the owner still owns a document.
    fn decrease_documents_count(&mut self, owner: AccountId)
        requires
            old(self).owned_document_counter.wf(),
            old(self)@.counter_of(owner) >= 1,
        ensures
            final(self)@ == (RegistryView {
                counters: old(self)@.counters.insert(
                    owner,
                    (old(self)@.counter_of(owner) - 1) as u32,
                ),
                ..old(self)@
            }),
            final(self).owned_document_counter.wf(),
            final(self).document_owner == old(self).document_owner,
            final(self).document_content == old(self).document_content,
            final(self).document_metadata == old(self).document_metadata,
            final(self).document_location == old(self).document_location,
            final(self).operator_approvals == old(self).operator_approvals,
            final(self).document_approvals == old(self).document_approvals,
            final(self).events == old(self).events,
    {
        let count: u32 = match self.owned_document_counter.get(owner) {
            Some(count) => *count - 1,
            None => 0,
        };
        self.owned_document_counter.insert(owner, count);
    }

    /// Creates a new document owned by the caller. The null principal may
    /// not mint, and an id that already has an owner is refused. Emits a
    /// transfer from the null principal on success.
    pub fn document_new(&mut self, caller: AccountId, document_id: DocumentId) -> (r:
        DocumentResult<()>)
        requires
            old(self).wf(),
            old(self)@.mint_res(caller, document_id) is Ok ==> old(self)@.counter_of(caller)
                < u32::MAX,
        ensures
            final(self).wf(),
            r == old(self)@.mint_res(caller, document_id),
            final(self)@ == old(self)@.mint_next(caller, document_id),
    {
        proof {
            lemma_mint_next_wf(old(self)@, caller, document_id);
        }
        let r = self.add_document_to(caller, document_id);
        if let Err(e) = r {
            return Err(e);
        }
        proof {
            lemma_owned_set_insert(old(self)@.owners, document_id, caller);
            lemma_owned_set_finite(old(self)@.owners, caller);
        }
        self.increase_documents_count(caller);
        self.events.push(
            DocumentEvent::Transfer(
                Transfer { from: Some(NULL_ACCOUNT), to: Some(caller), id: document_id },
            ),
        );
        Ok(())
    }

    /// Destroys the ownership record of a document. Only the current owner
    /// may burn; a document without an owner is not found. Any outstanding
    /// delegate approval is discarded with the document; the attached data
    /// slots survive. Emits a delete event on success.
    pub fn burn_document(&mut self, caller: AccountId, document_id: DocumentId) -> (r:
        DocumentResult<()>)
        requires
            old(self).wf(),
        ensures
            final(self).wf(),
            r == old(self)@.burn_res(caller, document_id),
            final(self)@ == old(self)@.burn_next(caller, document_id),
    {
        proof {
            lemma_burn_next_wf(old(self)@, caller, document_id);
        }
        match self.document_owner.get(document_id) {
            Some(owner) => {
                if *owner != caller {
                    return Err(DocumentError::NotOwner);
                }
            },
            None => {
                return Err(DocumentError::DocumentNotFound);
            },
        }
        proof {
            lemma_owned_set_remove(old(self)@.owners, document_id);
            lemma_owned_set_finite(old(self)@.owners, caller);
            assert(old(self)@.holdings(caller).contains(document_id));
            assert(old(self)@.counter_of(caller) >= 1);
        }
        self.decrease_documents_count(caller);
        self.document_owner.remove(document_id);
        self.document_approvals.remove(document_id);
        self.events.push(
            DocumentEvent::DocumentUpdated(
                DocumentUpdated {
                    action: UpdateMessage::DocumentDelete,
                    from: caller,
                    id: document_id,
                },
            ),
        );
        Ok(())
    }

    /// Attaches a content digest to the document. The document must exist
    /// and the slot must be vacant; the slot is write-once until deleted.
    pub fn document_content_new(
        &mut self,
        caller: AccountId,
        document_id: DocumentId,
        cont: Digest,
    ) -> (r: DocumentResult<()>)
        requires
            old(self).wf(),
        ensures
            final(self).wf(),
            !old(self)@.owners.contains_key(document_id) ==> r == Err::<(), DocumentError>(
                DocumentError::DocumentNotFound,
            ) && *final(self) == *old(self),
            old(self)@.owners.contains_key(document_id) && old(self)@.contents.contains_key(
                document_id,
            ) ==> r == Err::<(), DocumentError>(DocumentError::DocumentIdAlreadyExists) && *final(self) == *old(self),
            old(self)@.owners.contains_key(document_id) && !old(self)@.contents.contains_key(
                document_id,
            ) ==> r == Ok::<(), DocumentError>(()) && final(self)@ == (RegistryView {
                contents: old(self)@.contents.insert(document_id, cont),
                events: old(self)@.events.push(
                    DocumentEvent::DocumentUpdated(
                        DocumentUpdated {
                            action: UpdateMessage::ContentUpdate,
                            from: caller,
                            id: document_id,
                        },
                    ),
                ),
                ..old(self)@
            }),
    {
        if !self.document_owner.contains_key(document_id) {
            return Err(DocumentError::DocumentNotFound);
        }
        if self.document_content.contains_key(document_id) {
            return Err(DocumentError::DocumentIdAlreadyExists);
        }
        self.document_content.insert(document_id, cont);
        self.events.push(
            DocumentEvent::DocumentUpdated(
                DocumentUpdated {
                    action: UpdateMessage::ContentUpdate,
                    from: caller,
                    id: document_id,
                },
            ),
        );
        Ok(())
    }

    /// The content digest attached to the document, if any.
    pub fn document_content_get(&self, document_id: DocumentId) -> (r: Option<Digest>)
        requires
            self.wf(),
        ensures
            r == (if self@.contents.contains_key(document_id) {
                Some(self@.contents[document_id])
            } else {
                None::<Digest>
            }),
    {
        match self.document_content.get(document_id) {
            Some(cont) => Some(*cont),
            None => None,
        }
    }

    /// Whether the document has a content digest attached.
    pub fn verify_document_content(&self, document_id: DocumentId) -> (r: bool)
        requires
            self.wf(),
        ensures
            r == self@.contents.contains_key(document_id),
    {
        self.document_content.contains_key(document_id)
    }

    /// Clears the content slot of a document the caller owns.
    pub fn remove_document_content(&mut self, caller: AccountId, document_id: DocumentId) -> (r:
        DocumentResult<()>)
        requires
            old(self).wf(),
        ensures
            final(self).wf(),
            !(old(self)@.owners.contains_key(document_id) && old(self)@.owners[document_id]
                == caller) ==> r == Err::<(), DocumentError>(DocumentError::NotOwner) && *final(self) == *old(self),
            old(self)@.owners.contains_key(document_id) && old(self)@.owners[document_id] == caller
                && !old(self)@.contents.contains_key(document_id) ==> r == Err::<(
                ),
                DocumentError,
            >(DocumentError::NoDataFound) && *final(self) == *old(self),
            old(self)@.owners.contains_key(document_id) && old(self)@.owners[document_id] == caller
                && old(self)@.contents.contains_key(document_id) ==> r == Ok::<(), DocumentError>(
                (),
            ) && final(self)@ == (RegistryView {
                contents: old(self)@.contents.remove(document_id),
                events: old(self)@.events.push(
                    DocumentEvent::DocumentUpdated(
                        DocumentUpdated {
                            action: UpdateMessage::ContentUpdate,
                            from: caller,
                            id: document_id,
                        },
                    ),
                ),
                ..old(self)@
            }),
    {
        if !self.check_owner_owned_document(caller, document_id) {
            return Err(DocumentError::NotOwner);
        }
        if !self.document_content.contains_key(document_id) {
            return Err(DocumentError::NoDataFound);
        }
        self.document_content.remove(document_id);
        self.events.push(
            DocumentEvent::DocumentUpdated(
                DocumentUpdated {
                    action: UpdateMessage::ContentUpdate,
                    from: caller,
                    id: document_id,
                },
            ),
        );
        Ok(())
    }

    /// Attaches an external-storage location to a document the caller owns.
    /// The slot must be vacant; it is write-once until deleted.
    pub fn document_addr_new(
        &mut self,
        caller: AccountId,
        document_id: DocumentId,
        ipfs_addr: IPFSaddr,
    ) -> (r: DocumentResult<()>)
        requires
            old(self).wf(),
        ensures
            final(self).wf(),
            !old(self)@.owners.contains_key(document_id) ==> r == Err::<(), DocumentError>(
                DocumentError::DocumentNotFound,
            ) && *final(self) == *old(self),
            old(self)@.owners.contains_key(document_id) && old(self)@.owners[document_id] != caller
                ==> r == Err::<(), DocumentError>(DocumentError::NotOwner) && *final(self) == *old(self),
            old(self)@.owners.contains_key(document_id) && old(self)@.owners[document_id] == caller
                && old(self)@.locations.contains_key(document_id) ==> r == Err::<(
                ),
                DocumentError,
            >(DocumentError::DocumentIdAlreadyExists) && *final(self) == *old(self),
            old(self)@.owners.contains_key(document_id) && old(self)@.owners[document_id] == caller
                && !old(self)@.locations.contains_key(document_id) ==> r == Ok::<(), DocumentError>(
                (),
            ) && final(self)@ == (RegistryView {
                locations: old(self)@.locations.insert(document_id, ipfs_addr),
                events: old(self)@.events.push(
                    DocumentEvent::DocumentUpdated(
                        DocumentUpdated {
                            action: UpdateMessage::ContentUpdate,
                            from: caller,
                            id: document_id,
                        },
                    ),
                ),
                ..old(self)@
            }),
    {
        if !self.document_owner.contains_key(document_id) {
            return Err(DocumentError::DocumentNotFound);
        }
        if !self.check_owner_owned_document(caller, document_id) {
            return Err(DocumentError::NotOwner);
        }
        if self.document_location.contains_key(document_id) {
            return Err(DocumentError::DocumentIdAlreadyExists);
        }
        self.document_location.insert(document_id, ipfs_addr);
        self.events.push(
            DocumentEvent::DocumentUpdated(
                DocumentUpdated {
                    action: UpdateMessage::ContentUpdate,
                    from: caller,
                    id: document_id,
                },
            ),
        );
        Ok(())
    }

    /// The external-storage location of the document, if attached.
    pub fn document_location_get(&self, document_id: DocumentId) -> (r: DocumentResult<IPFSaddr>)
        requires
            self.wf(),
        ensures
            self@.locations.contains_key(document_id) ==> r == Ok::<IPFSaddr, DocumentError>(
                self@.locations[document_id],
            ),
            !self@.locations.contains_key(document_id) ==> r == Err::<IPFSaddr, DocumentError>(
                DocumentError::DocumentNotFound,
            ),
    {
        match self.document_location.get(document_id) {
            Some(addr) => Ok(*addr),
            None => Err(DocumentError::DocumentNotFound),
        }
    }

    /// Whether the document has a location attached; an absent location is
    /// reported as not found rather than as `false`.
    pub fn verify_document_location(&self, document_id: DocumentId) -> (r: DocumentResult<bool>)
        requires
            self.wf(),
        ensures
            self@.locations.contains_key(document_id) ==> r == Ok::<bool, DocumentError>(true),
            !self@.locations.contains_key(document_id) ==> r == Err::<bool, DocumentError>(
                DocumentError::DocumentNotFound,
            ),
    {
        match self.document_location.get(document_id) {
            Some(_) => Ok(true),
            None => Err(DocumentError::DocumentNotFound),
        }
    }

    /// Clears the location slot of a document the caller owns.
    pub fn document_location_delete(&mut self, caller: AccountId, document_id: DocumentId) -> (r:
        DocumentResult<()>)
        requires
            old(self).wf(),
        ensures
            final(self).wf(),
            !(old(self)@.owners.contains_key(document_id) && old(self)@.owners[document_id]
                == caller) ==> r == Err::<(), DocumentError>(DocumentError::NotOwner) && *final(self) == *old(self),
            old(self)@.owners.contains_key(document_id) && old(self)@.owners[document_id] == caller
                && !old(self)@.locations.contains_key(document_id) ==> r == Err::<(
                ),
                DocumentError,
            >(DocumentError::NoDataFound) && *final(self) == *old(self),
            old(self)@.owners.contains_key(document_id) && old(self)@.owners[document_id] == caller
                && old(self)@.locations.contains_key(document_id) ==> r == Ok::<(), DocumentError>(
                (),
            ) && final(self)@ == (RegistryView {
                locations: old(self)@.locations.remove(document_id),
                events: old(self)@.events.push(
                    DocumentEvent::DocumentUpdated(
                        DocumentUpdated {
                            action: UpdateMessage::ContentUpdate,
                            from: caller,
                            id: document_id,
                        },
                    ),
                ),
                ..old(self)@
            }),
    {
        if !self.check_owner_owned_document(caller, document_id) {
            return Err(DocumentError::NotOwner);
        }
        if !self.document_location.contains_key(document_id) {
            return Err(DocumentError::NoDataFound);
        }
        self.document_location.remove(document_id);
        self.events.push(
            DocumentEvent::DocumentUpdated(
                DocumentUpdated {
                    action: UpdateMessage::ContentUpdate,
                    from: caller,
                    id: document_id,
                },
            ),
        );
        Ok(())
    }

    /// Attaches a metadata digest to the document. The document must exist,
    /// the caller must be its owner or authorized for it, and the slot must
    /// be vacant.
    pub fn document_metadata_new(
        &mut self,
        caller: AccountId,
        document_id: DocumentId,
        metadata_hash: Digest,
    ) -> (r: DocumentResult<()>)
        requires
            old(self).wf(),
        ensures
            final(self).wf(),
            !old(self)@.owners.contains_key(document_id) ==> r == Err::<(), DocumentError>(
                DocumentError::DocumentNotFound,
            ) && *final(self) == *old(self),
            old(self)@.owners.contains_key(document_id) && !old(self)@.authorized(
                caller,
                old(self)@.owners[document_id],
                document_id,
            ) ==> r == Err::<(), DocumentError>(DocumentError::NotOwner) && *final(self) == *old(self),
            old(self)@.owners.contains_key(document_id) && old(self)@.authorized(
                caller,
                old(self)@.owners[document_id],
                document_id,
            ) && old(self)@.metadata.contains_key(document_id) ==> r == Err::<(), DocumentError>(
                DocumentError::DocumentIdAlreadyExists,
            ) && *final(self) == *old(self),
            old(self)@.owners.contains_key(document_id) && old(self)@.authorized(
                caller,
                old(self)@.owners[document_id],
                document_id,
            ) && !old(self)@.metadata.contains_key(document_id) ==> r == Ok::<(), DocumentError>(())
                && final(self)@ == (RegistryView {
                metadata: old(self)@.metadata.insert(document_id, metadata_hash),
                events: old(self)@.events.push(
                    DocumentEvent::DocumentUpdated(
                        DocumentUpdated {
                            action: UpdateMessage::MetadataUpdate,
                            from: caller,
                            id: document_id,
                        },
                    ),
                ),
                ..old(self)@
            }),
    {
        let owner = match self.document_owner.get(document_id) {
            Some(owner) => *owner,
            None => {
                return Err(DocumentError::DocumentNotFound);
            },
        };
        if !self.is_authorized(caller, owner, document_id) {
            return Err(DocumentError::NotOwner);
        }
        if self.document_metadata.contains_key(document_id) {
            return Err(DocumentError::DocumentIdAlreadyExists);
        }
        self.document_metadata.insert(document_id, metadata_hash);
        self.events.push(
            DocumentEvent::DocumentUpdated(
                DocumentUpdated {
                    action: UpdateMessage::MetadataUpdate,
                    from: caller,
                    id: document_id,
                },
            ),
        );
        Ok(())
    }

    /// The metadata digest attached to the document, if any.
    pub fn document_metadata_get(&self, document_id: DocumentId) -> (r: DocumentResult<Digest>)
        requires
            self.wf(),
        ensures
            self@.metadata.contains_key(document_id) ==> r == Ok::<Digest, DocumentError>(
                self@.metadata[document_id],
            ),
            !self@.metadata.contains_key(document_id) ==> r == Err::<Digest, DocumentError>(
                DocumentError::DocumentNotFound,
            ),
    {
        match self.document_metadata.get(document_id) {
            Some(meta_hash) => Ok(*meta_hash),
            None => Err(DocumentError::DocumentNotFound),
        }
    }

    /// Whether the document has metadata attached; an absent slot is
    /// reported as not found rather than as `false`.
    pub fn verify_document_metadata(&self, document_id: DocumentId) -> (r: DocumentResult<bool>)
        requires
            self.wf(),
        ensures
            self@.metadata.contains_key(document_id) ==> r == Ok::<bool, DocumentError>(true),
            !self@.metadata.contains_key(document_id) ==> r == Err::<bool, DocumentError>(
                DocumentError::DocumentNotFound,
            ),
    {
        match self.document_metadata.get(document_id) {
            Some(_) => Ok(true),
            None => Err(DocumentError::DocumentNotFound),
        }
    }

    /// Clears the metadata slot of a document the caller owns.
    pub fn document_metadata_delete(&mut self, caller: AccountId, document_id: DocumentId) -> (r:
        DocumentResult<()>)
        requires
            old(self).wf(),
        ensures
            final(self).wf(),
            !(old(self)@.owners.contains_key(document_id) && old(self)@.owners[document_id]
                == caller) ==> r == Err::<(), DocumentError>(DocumentError::NotOwner) && *final(self) == *old(self),
            old(self)@.owners.contains_key(document_id) && old(self)@.owners[document_id] == caller
                && !old(self)@.metadata.contains_key(document_id) ==> r == Err::<(
                ),
                DocumentError,
            >(DocumentError::NoDataFound) && *final(self) == *old(self),
            old(self)@.owners.contains_key(document_id) && old(self)@.owners[document_id] == caller
                && old(self)@.metadata.contains_key(document_id) ==> r == Ok::<(), DocumentError>(
                (),
            ) && final(self)@ == (RegistryView {
                metadata: old(self)@.metadata.remove(document_id),
                events: old(self)@.events.push(
                    DocumentEvent::DocumentUpdated(
                        DocumentUpdated {
                            action: UpdateMessage::MetadataUpdate,
                            from: caller,
                            id: document_id,
                        },
                    ),
                ),
                ..old(self)@
            }),
    {
        if !self.check_owner_owned_document(caller, document_id) {
            return Err(DocumentError::NotOwner);
        }
        if !self.document_metadata.contains_key(document_id) {
            return Err(DocumentError::NoDataFound);
        }
        self.document_metadata.remove(document_id);
        self.events.push(
            DocumentEvent::DocumentUpdated(
                DocumentUpdated {
                    action: UpdateMessage::MetadataUpdate,
                    from: caller,
                    id: document_id,
                },
            ),
        );
        Ok(())
    }

    /// Whether `operator` holds a blanket approval from `owner`.
    fn approved_for_all(&self, owner: AccountId, operator: AccountId) -> (r: bool)
        requires
            self.wf(),
        ensures
            r == self@.approved_for_all(owner, operator),
    {
        self.operator_approvals.contains_key(ApprovalPair { owner, operator })
    }

    /// Resolves whether `actor` may act on document `document_id` owned by
    /// `owner`: the actor is the owner, the document's single delegate, or a
    /// blanket-approved operator of the owner. The null principal is never
    /// authorized.
    pub fn is_authorized(&self, actor: AccountId, owner: AccountId, document_id: DocumentId) -> (r:
        bool)
        requires
            self.wf(),
        ensures
            r == self@.authorized(actor, owner, document_id),
            r <==> actor != NULL_ACCOUNT && (actor == owner || self@.delegate_of(document_id)
                == Some(actor) || self@.approved_for_all(owner, actor)),
    {
        if actor == NULL_ACCOUNT {
            return false;
        }
        if actor == owner {
            return true;
        }
        let is_delegate = match self.document_approvals.get(document_id) {
            Some(delegate) => *delegate == actor,
            None => false,
        };
        if is_delegate {
            return true;
        }
        self.approved_for_all(owner, actor)
    }

    /// Whether the caller may act on the document, surfacing the null
    /// principal as an invalid actor.
    fn approved_or_owner(&self, from: AccountId, owner: AccountId, document_id: DocumentId) -> (r:
        DocumentResult<bool>)
        requires
            self.wf(),
        ensures
            from == NULL_ACCOUNT ==> r == Err::<bool, DocumentError>(DocumentError::CannotInsert),
            from != NULL_ACCOUNT ==> r == Ok::<bool, DocumentError>(
                self@.authorized(from, owner, document_id),
            ),
    {
        if from == NULL_ACCOUNT {
            return Err(DocumentError::CannotInsert);
        }
        Ok(self.is_authorized(from, owner, document_id))
    }

    /// The approved delegate of the document; an absent approval is a
    /// missing account here.
    pub fn document_get_approve_acc(&self, document_id: DocumentId) -> (r: DocumentResult<
        AccountId,
    >)
        requires
            self.wf(),
        ensures
            self@.delegates.contains_key(document_id) ==> r == Ok::<AccountId, DocumentError>(
                self@.delegates[document_id],
            ),
            !self@.delegates.contains_key(document_id) ==> r == Err::<AccountId, DocumentError>(
                DocumentError::AccountNotFound,
            ),
    {
        match self.document_approvals.get(document_id) {
            Some(delegate) => Ok(*delegate),
            None => Err(DocumentError::AccountNotFound),
        }
    }

    /// The approved delegate of the document; an absent approval is missing
    /// data here.
    pub fn get_approved_account(&self, document_id: DocumentId) -> (r: DocumentResult<AccountId>)
        requires
            self.wf(),
        ensures
            self@.delegates.contains_key(document_id) ==> r == Ok::<AccountId, DocumentError>(
                self@.delegates[document_id],
            ),
            !self@.delegates.contains_key(document_id) ==> r == Err::<AccountId, DocumentError>(
                DocumentError::NoDataFound,
            ),
    {
        match self.document_approvals.get(document_id) {
            Some(delegate) => Ok(*delegate),
            None => Err(DocumentError::NoDataFound),
        }
    }

    /// Whether the operator holds a blanket approval from the owner.
    pub fn is_approve_for_all(&self, owner: AccountId, operator: AccountId) -> (r: DocumentResult<
        bool,
    >)
        requires
            self.wf(),
        ensures
            r == Ok::<bool, DocumentError>(self@.approved_for_all(owner, operator)),
    {
        Ok(self.approved_for_all(owner, operator))
    }

    /// Approves `to` as the single delegate for the document.
    fn approve_for(&mut self, caller: AccountId, to: AccountId, document_id: DocumentId) -> (r:
        DocumentResult<()>)
        requires
            old(self).wf(),
        ensures
            final(self).wf(),
            r == old(self)@.approve_res(caller, to, document_id),
            final(self)@ == old(self)@.approve_next(caller, to, document_id),
    {
        proof {
            lemma_approve_next_wf(old(self)@, caller, to, document_id);
        }
        let owner = match self.document_owner.get(document_id) {
            Some(owner) => *owner,
            None => {
                return Err(DocumentError::DocumentNotFound);
            },
        };
        let operator_ok = self.approved_for_all(owner, caller);
        if !(caller == owner || operator_ok) {
            return Err(DocumentError::NotAllow);
        }
        if to == NULL_ACCOUNT {
            return Err(DocumentError::NotAllow);
        }
        if self.document_approvals.contains_key(document_id) {
            return Err(DocumentError::CannotInsert);
        }
        self.document_approvals.insert(document_id, to);
        self.events.push(DocumentEvent::Approval(Approval { from: caller, to, id: document_id }));
        Ok(())
    }

    /// Approves `to` to act on this one document on behalf of the caller.
    /// Only the owner or a blanket-approved operator may approve; the null
    /// principal cannot be a delegate; an existing approval must be cleared
    /// by a transfer or burn before a new one is recorded.
    pub fn approve(&mut self, caller: AccountId, to: AccountId, document_id: DocumentId) -> (r:
        DocumentResult<()>)
        requires
            old(self).wf(),
        ensures
            final(self).wf(),
            r == old(self)@.approve_res(caller, to, document_id),
            final(self)@ == old(self)@.approve_next(caller, to, document_id),
    {
        self.approve_for(caller, to, document_id)
    }

    /// Removes the single delegate entry of the document, if present.
    pub fn clear_approval(&mut self, document_id: DocumentId) -> (r: DocumentResult<()>)
        requires
            old(self).wf(),
        ensures
            final(self).wf(),
            old(self)@.delegates.contains_key(document_id) ==> r == Ok::<(), DocumentError>(())
                && final(self)@ == (RegistryView {
                delegates: old(self)@.delegates.remove(document_id),
                ..old(self)@
            }),
            !old(self)@.delegates.contains_key(document_id) ==> r == Err::<(), DocumentError>(
                DocumentError::NoDataFound,
            ) && *final(self) == *old(self),
    {
        proof {
            lemma_delegates_remove(old(self)@.owners, old(self)@.delegates, document_id);
        }
        if self.document_approvals.contains_key(document_id) {
            self.document_approvals.remove(document_id);
            Ok(())
        } else {
            Err(DocumentError::NoDataFound)
        }
    }

    /// Grants or revokes a blanket approval of the caller's documents for
    /// `to`. A grant is persisted; a revoke removes any persisted grant; the
    /// event always reports the requested state.
    fn approve_for_all(&mut self, caller: AccountId, to: AccountId, approved: bool) -> (r:
        DocumentResult<()>)
        requires
            old(self).wf(),
        ensures
            final(self).wf(),
            r == old(self)@.set_operator_res(caller, to, approved),
            final(self)@ == old(self)@.set_operator_next(caller, to, approved),
    {
        if to == caller {
            return Err(DocumentError::NotAllow);
        }
        self.events.push(
            DocumentEvent::ApprovalForAll(ApprovalForAll { owner: caller, operator: to, approved }),
        );
        if approved {
            self.operator_approvals.insert(ApprovalPair { owner: caller, operator: to }, true);
        } else {
            self.operator_approvals.remove(ApprovalPair { owner: caller, operator: to });
        }
        Ok(())
    }

    /// Approves or disapproves `to` as an operator for all of the caller's
    /// present and future documents. A principal cannot approve itself.
    pub fn set_approval_for_all(&mut self, caller: AccountId, to: AccountId, approved: bool) -> (r:
        DocumentResult<()>)
        requires
            old(self).wf(),
        ensures
            final(self).wf(),
            r == old(self)@.set_operator_res(caller, to, approved),
            final(self)@ == old(self)@.set_operator_next(caller, to, approved),
    {
        self.approve_for_all(caller, to, approved)
    }

    /// Moves the document from `from` to `to` on behalf of the caller,
    /// clearing any outstanding delegate approval.
    fn transfer_document_from(
        &mut self,
        caller: AccountId,
        from: AccountId,
        to: AccountId,
        document_id: DocumentId,
    ) -> (r: DocumentResult<()>)
        requires
            old(self).wf(),
            old(self)@.transfer_res(caller, from, to, document_id) is Ok && from != to ==> old(self)@.counter_of(to) < u32::MAX,
        ensures
            final(self).wf(),
            r == old(self)@.transfer_res(caller, from, to, document_id),
            final(self)@ == old(self)@.transfer_next(caller, from, to, document_id),
    {
        proof {
            lemma_transfer_next_wf(old(self)@, caller, from, to, document_id);
        }
        let owner = match self.document_owner.get(document_id) {
            Some(owner) => *owner,
            None => {
                return Err(DocumentError::DocumentNotFound);
            },
        };
        let authorized = match self.approved_or_owner(caller, owner, document_id) {
            Ok(authorized) => authorized,
            Err(e) => {
                return Err(e);
            },
        };
        if !authorized {
            return Err(DocumentError::NotAllow);
        }
        if owner != from {
            return Err(DocumentError::NotOwner);
        }
        if to == NULL_ACCOUNT {
            return Err(DocumentError::NotAllow);
        }
        self.document_approvals.remove(document_id);
        proof {
            lemma_owned_set_remove(old(self)@.owners, document_id);
            lemma_owned_set_finite(old(self)@.owners, from);
            assert(owned_set(old(self)@.owners, from).contains(document_id));
            assert(counter_in(old(self)@.counters, from) >= 1);
        }
        self.decrease_documents_count(from);
        self.increase_documents_count(to);
        self.document_owner.insert(document_id, to);
        self.events.push(
            DocumentEvent::DocumentUpdated(
                DocumentUpdated { action: UpdateMessage::DocumentDelete, from, id: document_id },
            ),
        );
        self.events.push(
            DocumentEvent::Transfer(Transfer { from: Some(from), to: Some(to), id: document_id }),
        );
        proof {
            assert(self@.owners =~= old(self)@.owners.remove(document_id).insert(document_id, to));
            assert(self@ =~= old(self)@.transfer_next(caller, from, to, document_id));
        }
        Ok(())
    }

    /// Transfers the caller's own document to `to`.
    pub fn tranfer_to(&mut self, caller: AccountId, to: AccountId, document_id: DocumentId) -> (r:
        DocumentResult<()>)
        requires
            old(self).wf(),
            old(self)@.transfer_res(caller, caller, to, document_id) is Ok && caller != to ==> old(self)@.counter_of(to) < u32::MAX,
        ensures
            final(self).wf(),
            r == old(self)@.transfer_res(caller, caller, to, document_id),
            final(self)@ == old(self)@.transfer_next(caller, caller, to, document_id),
    {
        self.transfer_document_from(caller, caller, to, document_id)
    }

    /// Transfers a document between two principals on behalf of an
    /// authorized caller.
    pub fn transfer_from(
        &mut self,
        caller: AccountId,
        from: AccountId,
        to: AccountId,
        document_id: DocumentId,
    ) -> (r: DocumentResult<()>)
        requires
            old(self).wf(),
            old(self)@.transfer_res(caller, from, to, document_id) is Ok && from != to ==> old(self)@.counter_of(to) < u32::MAX,
        ensures
            final(self).wf(),
            r == old(self)@.transfer_res(caller, from, to, document_id),
            final(self)@ == old(self)@.transfer_next(caller, from, to, document_id),
    {
        self.transfer_document_from(caller, from, to, document_id)
    }
}

} // verus!
