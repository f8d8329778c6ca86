//! The state of the upgrade proxy: which code it delegates to, who its
//! developer is, and the version and identity records its delegatee writes.
//!
//! The delegate calls themselves, and the locking of delegate dependencies,
//! are contract-host operations the host performs around these transitions.

use vstd::prelude::*;

use crate::table::Table;
use crate::types::AccountId;
use crate::types::Digest;

verus! {

/// The errors of the proxy.
#[derive(Debug, Clone, PartialEq, Eq)]
pub enum ProxyError {
    CodeHashNotExist,
    NoDataFound,
    NotAllow,
}

pub type ProxyResult<T> = Result<T, ProxyError>;

/// What a proxy event reports.
#[derive(Debug, Clone, PartialEq, Eq)]
pub enum ProxyEvent {
    Updated,
    ChangedCodeHash,
}

/// Emitted when the proxy changes its delegatee.
#[derive(Debug, Clone, PartialEq, Eq)]
pub struct ProxyTransactionEvent {
    pub delegatee: Digest,
    pub event: ProxyEvent,
}

/// The upgrade proxy's own storage.
pub struct Proxy {
    developer: AccountId,
    contract_version: Option<u32>,
    identities: Table<AccountId, u32>,
    delegatee_version: Option<u32>,
    delegate_to: Digest,
    events: Vec<ProxyTransactionEvent>,
}

impl Proxy {
    /// The representation invariant of the identity table.
    pub closed spec fn wf(&self) -> bool {
        self.identities.wf()
    }

    /// The developer recorded at construction.
    pub closed spec fn developer_of(&self) -> AccountId {
        self.developer
    }

    /// The proxy's own version record, if set.
    pub closed spec fn contract_version_of(&self) -> Option<u32> {
        self.contract_version
    }

    /// The delegatee's version record, if set.
    pub closed spec fn delegatee_version_of(&self) -> Option<u32> {
        self.delegatee_version
    }

    /// The code hash the proxy delegates to.
    pub closed spec fn delegatee(&self) -> Digest {
        self.delegate_to
    }

    /// Account to the identifier its delegatee recorded.
    pub closed spec fn identities_map(&self) -> Map<AccountId, u32> {
        self.identities@
    }

    /// The log of emitted events, oldest first.
    pub closed spec fn events_log(&self) -> Seq<ProxyTransactionEvent> {
        self.events@
    }

    /// A proxy for the given developer that delegates to `hash`. The host
    /// locks the delegate dependency on the hash around this call.
    pub fn new(developer: AccountId, hash: Digest) -> (r: Self)
        ensures
            r.wf(),
            r.developer_of() == developer,
            r.delegatee() == hash,
            r.contract_version_of() is None,
            r.delegatee_version_of() is None,
            r.identities_map() == Map::<AccountId, u32>::empty(),
            r.events_log() == Seq::<ProxyTransactionEvent>::empty(),
    {
        Proxy {
            developer,
            contract_version: None,
            identities: Table::new(),
            delegatee_version: None,
            delegate_to: hash,
            events: Vec::new(),
        }
    }

    /// Points the proxy at a new code hash. The host unlocks the old
    /// dependency and locks the new one around this call.
    pub fn update_delegate_to(&mut self, new_hash: Digest)
        requires
            old(self).wf(),
        ensures
            final(self).wf(),
            final(self).delegatee() == new_hash,
            final(self).developer_of() == old(self).developer_of(),
            final(self).contract_version_of() == old(self).contract_version_of(),
            final(self).delegatee_version_of() == old(self).delegatee_version_of(),
            final(self).identities_map() == old(self).identities_map(),
            final(self).events_log() == old(self).events_log().push(
                ProxyTransactionEvent { delegatee: new_hash, event: ProxyEvent::ChangedCodeHash },
            ),
    {
        self.delegate_to = new_hash;
        self.events.push(
            ProxyTransactionEvent { delegatee: new_hash, event: ProxyEvent::ChangedCodeHash },
        );
    }

    /// Sets the proxy's own version record.
    pub fn contract_version_new(&mut self, version: u32) -> (r: ProxyResult<()>)
        requires
            old(self).wf(),
        ensures
            final(self).wf(),
            r == Ok::<(), ProxyError>(()),
            final(self).contract_version_of() == Some(version),
            final(self).developer_of() == old(self).developer_of(),
            final(self).delegatee() == old(self).delegatee(),
            final(self).delegatee_version_of() == old(self).delegatee_version_of(),
            final(self).identities_map() == old(self).identities_map(),
            final(self).events_log() == old(self).events_log(),
    {
        self.contract_version = Some(version);
        Ok(())
    }

    /// The proxy's own version record; missing data until set.
    pub fn contract_version_get(&self) -> (r: ProxyResult<u32>)
        requires
            self.wf(),
        ensures
            self.contract_version_of() is Some ==> r == Ok::<u32, ProxyError>(
                self.contract_version_of()->0,
            ),
            self.contract_version_of() is None ==> r == Err::<u32, ProxyError>(
                ProxyError::NoDataFound,
            ),
    {
        match self.contract_version {
            Some(value) => Ok(value),
            None => Err(ProxyError::NoDataFound),
        }
    }

    /// The events emitted so far, oldest first.
    pub fn emitted_events(&self) -> (r: &Vec<ProxyTransactionEvent>)
        ensures
            r@ == self.events_log(),
    {
        &self.events
    }

    /// Hands the emitted events to the host and empties the log.
    pub fn take_events(&mut self) -> (r: Vec<ProxyTransactionEvent>)
        requires
            old(self).wf(),
        ensures
            final(self).wf(),
            r@ == old(self).events_log(),
            final(self).events_log() == Seq::<ProxyTransactionEvent>::empty(),
            final(self).developer_of() == old(self).developer_of(),
            final(self).delegatee() == old(self).delegatee(),
            final(self).contract_version_of() == old(self).contract_version_of(),
            final(self).delegatee_version_of() == old(self).delegatee_version_of(),
            final(self).identities_map() == old(self).identities_map(),
    {
        let mut drained: Vec<ProxyTransactionEvent> = Vec::new();
        core::mem::swap(&mut drained, &mut self.events);
        drained
    }

    /// Whether the delegatee recorded an identifier for the account.
    pub fn has_uuid(&self, account_id: AccountId) -> (r: bool)
        requires
            self.wf(),
        ensures
            r == self.identities_map().contains_key(account_id),
    {
        self.identities.contains_key(account_id)
    }

    /// The identifier recorded for the account. The original aborts when
    /// there is none, so that input is excluded here and the host checks
    /// first.
    pub fn get_uuid(&self, account_id: AccountId) -> (r: u32)
        requires
            self.wf(),
            self.identities_map().contains_key(account_id),
        ensures
            r == self.identities_map()[account_id],
    {
        match self.identities.get(account_id) {
            Some(uuid) => *uuid,
            None => 0,
        }
    }

    /// Records what the delegatee reports for an account; the host applies
    /// the outcome of the delegate call through this transition.
    pub fn record_uuid(&mut self, account_id: AccountId, uuid: u32)
        requires
            old(self).wf(),
        ensures
            final(self).wf(),
            final(self).identities_map() == old(self).identities_map().insert(account_id, uuid),
            final(self).developer_of() == old(self).developer_of(),
            final(self).delegatee() == old(self).delegatee(),
            final(self).contract_version_of() == old(self).contract_version_of(),
            final(self).delegatee_version_of() == old(self).delegatee_version_of(),
            final(self).events_log() == old(self).events_log(),
    {
        self.identities.insert(account_id, uuid);
    }

    /// The delegatee's version record; missing data until set.
    pub fn get_delegatee_version(&self) -> (r: ProxyResult<u32>)
        requires
            self.wf(),
        ensures
            self.delegatee_version_of() is Some ==> r == Ok::<u32, ProxyError>(
                self.delegatee_version_of()->0,
            ),
            self.delegatee_version_of() is None ==> r == Err::<u32, ProxyError>(
                ProxyError::NoDataFound,
            ),
    {
        match self.delegatee_version {
            Some(version) => Ok(version),
            None => Err(ProxyError::NoDataFound),
        }
    }

    /// The delegatee's code hash, shown to the developer only.
    pub fn get_delegatee_code_hash(&self, caller: AccountId) -> (r: ProxyResult<Digest>)
        requires
            self.wf(),
        ensures
            caller == self.developer_of() ==> r == Ok::<Digest, ProxyError>(self.delegatee()),
            caller != self.developer_of() ==> r == Err::<Digest, ProxyError>(ProxyError::NotAllow),
    {
        if self.check_is_developer(caller) {
            Ok(self.delegate_to)
        } else {
            Err(ProxyError::NotAllow)
        }
    }

    /// Whether the caller is the proxy's developer; the developer gate of
    /// the code-hash queries.
    pub fn check_is_developer(&self, caller: AccountId) -> (r: bool)
        ensures
            r == (caller == self.developer_of()),
    {
        caller == self.developer
    }

    /// The code hash the host must delegate to.
    pub fn get_delegatee_hash(&self) -> (r: Digest)
        ensures
            r == self.delegatee(),
    {
        self.delegate_to
    }
}

} // verus!
