//! A name registry: first come, first served ownership of names, with an
//! address record per name that only the name's owner may change.
//!
//! Like the document registry, the service is an explicit aggregate value:
//! the resolved caller is an argument and the events of each successful
//! operation are appended to an internal log.

use vstd::prelude::*;

use crate::table::Table;
use crate::types::AccountId;
use crate::types::Digest;
use crate::types::NULL_ACCOUNT;

verus! {

/// The errors of the name registry.
#[derive(Debug, Clone, PartialEq, Eq)]
pub enum DnsError {
    NameAlreadyExist,
    NotOwner,
    NonExist,
    NoDataFound,
}

pub type DnsResult<T> = Result<T, DnsError>;

/// Emitted when a name is registered.
#[derive(Debug, Clone, PartialEq, Eq)]
pub struct Register {
    pub name: Digest,
    pub from: AccountId,
}

/// Emitted when the address record of a name is set.
#[derive(Debug, Clone, PartialEq, Eq)]
pub struct SetAddress {
    pub name: Digest,
    pub from: AccountId,
    pub old_addr: Option<AccountId>,
    pub new_address: AccountId,
}

/// Emitted when a name changes owner.
#[derive(Debug, Clone, PartialEq, Eq)]
pub struct Transfer {
    pub name: Digest,
    pub from: AccountId,
    pub old_addr: Option<AccountId>,
    pub new_address: AccountId,
}

/// One entry of the name registry's event log.
#[derive(Debug, Clone, PartialEq, Eq)]
pub enum DnsEvent {
    Register(Register),
    SetAddress(SetAddress),
    Transfer(Transfer),
}

/// The name registry: who owns each name and where it points.
pub struct Dns {
    name_to_address: Table<Digest, AccountId>,
    name_to_owner: Table<Digest, AccountId>,
    default_address: AccountId,
    events: Vec<DnsEvent>,
}

impl Dns {
    /// The representation invariant of the registry's tables.
    pub closed spec fn wf(&self) -> bool {
        self.name_to_address.wf() && self.name_to_owner.wf()
    }

    /// Name to owning principal.
    pub closed spec fn owners(&self) -> Map<Digest, AccountId> {
        self.name_to_owner@
    }

    /// Name to the address it resolves to.
    pub closed spec fn addresses(&self) -> Map<Digest, AccountId> {
        self.name_to_address@
    }

    /// The address reported for an unset or unknown name.
    pub closed spec fn default_addr(&self) -> AccountId {
        self.default_address
    }

    /// The log of emitted events, oldest first.
    pub closed spec fn events_log(&self) -> Seq<DnsEvent> {
        self.events@
    }

    /// An empty registry whose default address is the null principal.
    pub fn new() -> (r: Self)
        ensures
            r.wf(),
            r.owners() == Map::<Digest, AccountId>::empty(),
            r.addresses() == Map::<Digest, AccountId>::empty(),
            r.default_addr() == NULL_ACCOUNT,
            r.events_log() == Seq::<DnsEvent>::empty(),
    {
        Dns {
            name_to_address: Table::new(),
            name_to_owner: Table::new(),
            default_address: NULL_ACCOUNT,
            events: Vec::new(),
        }
    }

    /// The events emitted so far, oldest first.
    pub fn emitted_events(&self) -> (r: &Vec<DnsEvent>)
        ensures
            r@ == self.events_log(),
    {
        &self.events
    }

    /// Hands the emitted events to the host and empties the log.
    pub fn take_events(&mut self) -> (r: Vec<DnsEvent>)
        requires
            old(self).wf(),
        ensures
            final(self).wf(),
            r@ == old(self).events_log(),
            final(self).events_log() == Seq::<DnsEvent>::empty(),
            final(self).owners() == old(self).owners(),
            final(self).addresses() == old(self).addresses(),
            final(self).default_addr() == old(self).default_addr(),
    {
        let mut drained: Vec<DnsEvent> = Vec::new();
        core::mem::swap(&mut drained, &mut self.events);
        drained
    }

    /// Whether the caller owns the name; false when the name is unknown.
    fn check_is_owner(&self, name: Digest, addr: AccountId) -> (r: bool)
        requires
            self.wf(),
        ensures
            r == (self.owners().contains_key(name) && self.owners()[name] == addr),
    {
        match self.name_to_owner.get(name) {
            Some(owner) => *owner == addr,
            None => false,
        }
    }

    /// Registers the name for the caller; a registered name cannot be
    /// taken again.
    pub fn register(&mut self, caller: AccountId, name: Digest) -> (r: DnsResult<()>)
        requires
            old(self).wf(),
        ensures
            final(self).wf(),
            old(self).owners().contains_key(name) ==> r == Err::<(), DnsError>(
                DnsError::NameAlreadyExist,
            ) && *final(self) == *old(self),
            !old(self).owners().contains_key(name) ==> r == Ok::<(), DnsError>(()) && final(self).owners() == old(self).owners().insert(name, caller) && final(self).addresses() == old(self).addresses() && final(self).default_addr() == old(self).default_addr() && final(self).events_log() == old(self).events_log().push(
                DnsEvent::Register(Register { from: caller, name }),
            ),
    {
        if self.name_to_owner.contains_key(name) {
            return Err(DnsError::NameAlreadyExist);
        }
        self.name_to_owner.insert(name, caller);
        self.events.push(DnsEvent::Register(Register { from: caller, name }));
        Ok(())
    }

    /// Points the caller's name at a new address, reporting the old one in
    /// the event.
    pub fn set_address(&mut self, caller: AccountId, name: Digest, new_addr: AccountId) -> (r:
        DnsResult<()>)
        requires
            old(self).wf(),
        ensures
            final(self).wf(),
            !(old(self).owners().contains_key(name) && old(self).owners()[name] == caller) ==> r
                == Err::<(), DnsError>(DnsError::NotOwner) && *final(self) == *old(self),
            old(self).owners().contains_key(name) && old(self).owners()[name] == caller ==> r
                == Ok::<(), DnsError>(()) && final(self).addresses() == old(self).addresses().insert(name, new_addr) && final(self).owners() == old(self).owners()
                && final(self).default_addr() == old(self).default_addr() && final(self).events_log() == old(self).events_log().push(
                DnsEvent::SetAddress(
                    SetAddress {
                        name,
                        from: caller,
                        old_addr: if old(self).addresses().contains_key(name) {
                            Some(old(self).addresses()[name])
                        } else {
                            None
                        },
                        new_address: new_addr,
                    },
                ),
            ),
    {
        if !self.check_is_owner(name, caller) {
            return Err(DnsError::NotOwner);
        }
        let old_addr = match self.name_to_address.get(name) {
            Some(addr) => Some(*addr),
            None => None,
        };
        self.name_to_address.insert(name, new_addr);
        self.events.push(
            DnsEvent::SetAddress(SetAddress { name, from: caller, old_addr, new_address: new_addr }),
        );
        Ok(())
    }

    /// Hands the caller's name over to `to`. The event reports the previous
    /// owner as the old address.
    pub fn transfer(&mut self, caller: AccountId, name: Digest, to: AccountId) -> (r: DnsResult<()>)
        requires
            old(self).wf(),
        ensures
            final(self).wf(),
            !(old(self).owners().contains_key(name) && old(self).owners()[name] == caller) ==> r
                == Err::<(), DnsError>(DnsError::NotOwner) && *final(self) == *old(self),
            old(self).owners().contains_key(name) && old(self).owners()[name] == caller ==> r
                == Ok::<(), DnsError>(()) && final(self).owners() == old(self).owners().insert(
                name,
                to,
            ) && final(self).addresses() == old(self).addresses() && final(self).default_addr()
                == old(self).default_addr() && final(self).events_log() == old(self).events_log().push(
                DnsEvent::Transfer(
                    Transfer {
                        name,
                        from: to,
                        old_addr: Some(old(self).owners()[name]),
                        new_address: to,
                    },
                ),
            ),
    {
        if !self.check_is_owner(name, caller) {
            return Err(DnsError::NotOwner);
        }
        let old_owner = match self.name_to_owner.get(name) {
            Some(owner) => Some(*owner),
            None => None,
        };
        self.name_to_owner.insert(name, to);
        self.events.push(
            DnsEvent::Transfer(Transfer { name, from: to, old_addr: old_owner, new_address: to }),
        );
        Ok(())
    }

    /// The address a name resolves to; an unset name resolves to the
    /// default address.
    pub fn get_address(&self, name: Digest) -> (r: AccountId)
        requires
            self.wf(),
        ensures
            r == (if self.addresses().contains_key(name) {
                self.addresses()[name]
            } else {
                self.default_addr()
            }),
    {
        match self.name_to_address.get(name) {
            Some(addr) => *addr,
            None => self.default_address,
        }
    }

    /// The owner of a name; an unregistered name reports the default
    /// address.
    pub fn get_owner(&self, name: Digest) -> (r: AccountId)
        requires
            self.wf(),
        ensures
            r == (if self.owners().contains_key(name) {
                self.owners()[name]
            } else {
                self.default_addr()
            }),
    {
        match self.name_to_owner.get(name) {
            Some(owner) => *owner,
            None => self.default_address,
        }
    }
}

} // verus!
