//! The account and role table of the registry's identity collaborator:
//! per-account identifiers, an admin-granted role per account, and the
//! role-to-permission table.
//!
//! Identifier bytes are derived from environment data by the host (see the
//! hash builder); the table itself only records them. The resolved caller
//! is an argument to every operation and events of successful transitions
//! are appended to an internal log.

use vstd::prelude::*;

use crate::table::Table;
use crate::table::TableKey;
use crate::types::AccountId;
use crate::types::Digest;

verus! {

/// What a role is allowed to do.
#[derive(Debug, Clone, Copy, PartialEq, Eq, Structural)]
pub enum Permission {
    CanRead,
    CanWrite,
    CanDelete,
    CanBurn,
    CanMint,
    CanGrant,
    CanRevoke,
    CanTransfer,
}

/// The role of an account.
#[derive(Debug, Clone, Copy, PartialEq, Eq, Structural)]
pub enum Role {
    Admin,
    Speculator,
}

impl TableKey for Role {
    fn key_eq(self, other: Self) -> (r: bool) {
        self == other
    }
}

/// The errors of the account table.
#[derive(Debug, Clone, PartialEq, Eq)]
pub enum AccountError {
    DupilcatedUUID,
    AccountAlreadyHaveUUID,
    Unauthorized,
    NoDataFound,
}

pub type AccountResult<T> = Result<T, AccountError>;

/// A domain record of an account.
#[derive(Debug, Clone, Copy, PartialEq, Eq)]
pub struct Domain {
    pub domain_id: Digest,
    pub domain_description: Digest,
}

/// What an account event reports.
#[derive(Debug, Clone, PartialEq, Eq)]
pub enum EventType {
    NewAccount,
    VersionUpdated { old_version: u32, new_version: u32 },
    RoleGranted { role: Role },
    RoleRevoke { previous_role: Role },
}

/// Emitted on every successful account transition.
#[derive(Debug, Clone, PartialEq, Eq)]
pub struct Event {
    pub from: Option<AccountId>,
    pub to: Option<AccountId>,
    pub event_type: EventType,
}

/// The account table: identifiers, roles, domains and metadata per account,
/// and the permissions of each role.
pub struct DocumentAcounts {
    version: Option<u32>,
    identities: Table<AccountId, Vec<u8>>,
    permission: Table<Role, Vec<Permission>>,
    role: Table<AccountId, Role>,
    domain: Table<AccountId, Domain>,
    metadata: Table<AccountId, Digest>,
    events: Vec<Event>,
}

impl DocumentAcounts {
    /// The representation invariant of the underlying tables.
    pub closed spec fn wf(&self) -> bool {
        &&& self.identities.wf()
        &&& self.permission.wf()
        &&& self.role.wf()
        &&& self.domain.wf()
        &&& self.metadata.wf()
    }

    /// The stored contract version, if one has been set.
    pub closed spec fn version_of(&self) -> Option<u32> {
        self.version
    }

    /// Account to identifier bytes.
    pub closed spec fn identities_map(&self) -> Map<AccountId, Vec<u8>> {
        self.identities@
    }

    /// Role to its permissions.
    pub closed spec fn permissions(&self) -> Map<Role, Vec<Permission>> {
        self.permission@
    }

    /// Account to role.
    pub closed spec fn roles(&self) -> Map<AccountId, Role> {
        self.role@
    }

    /// The log of emitted events, oldest first.
    pub closed spec fn events_log(&self) -> Seq<Event> {
        self.events@
    }

    /// A fresh table: no accounts, no version, and the fixed permissions of
    /// the two roles.
    pub fn new() -> (r: Self)
        ensures
            r.wf(),
            r.version_of() is None,
            r.identities_map() == Map::<AccountId, Vec<u8>>::empty(),
            r.roles() == Map::<AccountId, Role>::empty(),
            r.events_log() == Seq::<Event>::empty(),
            r.permissions().dom() =~= set![Role::Admin, Role::Speculator],
            r.permissions()[Role::Admin]@ =~= seq![
                Permission::CanMint,
                Permission::CanBurn,
                Permission::CanRevoke,
                Permission::CanDelete,
                Permission::CanRead,
                Permission::CanWrite,
            ],
            r.permissions()[Role::Speculator]@ =~= seq![
                Permission::CanRead,
                Permission::CanWrite,
                Permission::CanTransfer,
            ],
    {
        let mut permission: Table<Role, Vec<Permission>> = Table::new();
        let mut admin_permissions: Vec<Permission> = Vec::new();
        admin_permissions.push(Permission::CanMint);
        admin_permissions.push(Permission::CanBurn);
        admin_permissions.push(Permission::CanRevoke);
        admin_permissions.push(Permission::CanDelete);
        admin_permissions.push(Permission::CanRead);
        admin_permissions.push(Permission::CanWrite);
        let mut speculator_permissions: Vec<Permission> = Vec::new();
        speculator_permissions.push(Permission::CanRead);
        speculator_permissions.push(Permission::CanWrite);
        speculator_permissions.push(Permission::CanTransfer);
        permission.insert(Role::Admin, admin_permissions);
        permission.insert(Role::Speculator, speculator_permissions);
        DocumentAcounts {
            version: None,
            identities: Table::new(),
            permission,
            role: Table::new(),
            domain: Table::new(),
            metadata: Table::new(),
            events: Vec::new(),
        }
    }

    /// The events emitted so far, oldest first.
    pub fn emitted_events(&self) -> (r: &Vec<Event>)
        ensures
            r@ == self.events_log(),
    {
        &self.events
    }

    /// Hands the emitted events to the host and empties the log.
    pub fn take_events(&mut self) -> (r: Vec<Event>)
        requires
            old(self).wf(),
        ensures
            final(self).wf(),
            r@ == old(self).events_log(),
            final(self).events_log() == Seq::<Event>::empty(),
            final(self).version_of() == old(self).version_of(),
            final(self).identities_map() == old(self).identities_map(),
            final(self).permissions() == old(self).permissions(),
            final(self).roles() == old(self).roles(),
    {
        let mut drained: Vec<Event> = Vec::new();
        core::mem::swap(&mut drained, &mut self.events);
        drained
    }

    /// Whether the account already has an identifier.
    fn account_has_uuid(&self, account_id: AccountId) -> (r: bool)
        requires
            self.wf(),
        ensures
            r == self.identities_map().contains_key(account_id),
    {
        self.identities.contains_key(account_id)
    }

    /// Whether the caller holds the admin role; false when it has no role.
    fn caller_is_developer(&self, caller: AccountId) -> (r: bool)
        requires
            self.wf(),
        ensures
            r == (self.roles().contains_key(caller) && self.roles()[caller] == Role::Admin),
    {
        match self.role.get(caller) {
            Some(role) => *role == Role::Admin,
            None => false,
        }
    }

    /// Records the identifier the host derived for the caller; an account
    /// gets exactly one.
    pub fn account_new(&mut self, caller: AccountId, uuid: Vec<u8>) -> (r: AccountResult<()>)
        requires
            old(self).wf(),
        ensures
            final(self).wf(),
            old(self).identities_map().contains_key(caller) ==> r == Err::<(), AccountError>(
                AccountError::AccountAlreadyHaveUUID,
            ) && *final(self) == *old(self),
            !old(self).identities_map().contains_key(caller) ==> r == Ok::<(), AccountError>(())
                && final(self).identities_map() == old(self).identities_map().insert(caller, uuid)
                && final(self).roles() == old(self).roles() && final(self).version_of() == old(self).version_of() && final(self).events_log() == old(self).events_log().push(
                Event { from: Some(caller), to: None, event_type: EventType::NewAccount },
            ),
    {
        if self.account_has_uuid(caller) {
            return Err(AccountError::AccountAlreadyHaveUUID);
        }
        self.identities.insert(caller, uuid);
        self.events.push(Event { from: Some(caller), to: None, event_type: EventType::NewAccount });
        Ok(())
    }

    /// Sets a new contract version. The version must have been initialized,
    /// and only an admin may change it.
    pub fn account_version_new(&mut self, caller: AccountId, init_version: u32) -> (r:
        AccountResult<()>)
        requires
            old(self).wf(),
        ensures
            final(self).wf(),
            old(self).version_of() is None ==> r == Err::<(), AccountError>(
                AccountError::NoDataFound,
            ) && *final(self) == *old(self),
            old(self).version_of() is Some && !(old(self).roles().contains_key(caller) && old(self).roles()[caller] == Role::Admin) ==> r == Err::<(), AccountError>(
                AccountError::Unauthorized,
            ) && *final(self) == *old(self),
            old(self).version_of() is Some && old(self).roles().contains_key(caller) && old(self).roles()[caller] == Role::Admin ==> r == Ok::<(), AccountError>(()) && final(self).version_of() == Some(init_version) && final(self).identities_map() == old(self).identities_map() && final(self).roles() == old(self).roles() && final(self).events_log() == old(self).events_log().push(
                Event {
                    from: Some(caller),
                    to: None,
                    event_type: EventType::VersionUpdated {
                        old_version: old(self).version_of()->0,
                        new_version: init_version,
                    },
                },
            ),
    {
        let old_version = match self.version {
            Some(version) => version,
            None => {
                return Err(AccountError::NoDataFound);
            },
        };
        if !self.caller_is_developer(caller) {
            return Err(AccountError::Unauthorized);
        }
        self.version = Some(init_version);
        self.events.push(
            Event {
                from: Some(caller),
                to: None,
                event_type: EventType::VersionUpdated {
                    old_version,
                    new_version: init_version,
                },
            },
        );
        Ok(())
    }

    /// Grants a role. A caller cannot grant to itself; a caller with a
    /// non-admin role is refused; a caller with no role at all is a silent
    /// no-op.
    pub fn grant_role(&mut self, caller: AccountId, to: AccountId, role: Role) -> (r: AccountResult<
        (),
    >)
        requires
            old(self).wf(),
        ensures
            final(self).wf(),
            caller == to ==> r == Err::<(), AccountError>(AccountError::Unauthorized) && *final(self) == *old(self),
            caller != to && !old(self).roles().contains_key(caller) ==> r == Ok::<(), AccountError>(
                (),
            ) && *final(self) == *old(self),
            caller != to && old(self).roles().contains_key(caller) && old(self).roles()[caller]
                != Role::Admin ==> r == Err::<(), AccountError>(AccountError::Unauthorized)
                && *final(self) == *old(self),
            caller != to && old(self).roles().contains_key(caller) && old(self).roles()[caller]
                == Role::Admin ==> r == Ok::<(), AccountError>(()) && final(self).roles() == old(self).roles().insert(to, role) && final(self).identities_map() == old(self).identities_map() && final(self).version_of() == old(self).version_of() && final(self).events_log() == old(self).events_log().push(
                Event {
                    from: Some(caller),
                    to: Some(to),
                    event_type: EventType::RoleGranted { role },
                },
            ),
    {
        if caller == to {
            return Err(AccountError::Unauthorized);
        }
        let caller_role = match self.role.get(caller) {
            Some(role) => *role,
            None => {
                return Ok(());
            },
        };
        match caller_role {
            Role::Admin => {
                self.role.insert(to, role);
                self.events.push(
                    Event {
                        from: Some(caller),
                        to: Some(to),
                        event_type: EventType::RoleGranted { role },
                    },
                );
                Ok(())
            },
            _ => Err(AccountError::Unauthorized),
        }
    }

    /// Revokes an account's role. A caller cannot revoke itself; a caller
    /// with a non-admin role is refused; a caller with no role at all is a
    /// silent no-op; revoking an account that has no role is missing data.
    pub fn revoke_role(&mut self, caller: AccountId, account_id: AccountId) -> (r: AccountResult<
        (),
    >)
        requires
            old(self).wf(),
        ensures
            final(self).wf(),
            caller == account_id ==> r == Err::<(), AccountError>(AccountError::Unauthorized)
                && *final(self) == *old(self),
            caller != account_id && !old(self).roles().contains_key(caller) ==> r == Ok::<(
            ),
            AccountError>(()) && *final(self) == *old(self),
            caller != account_id && old(self).roles().contains_key(caller) && old(self).roles()[caller] != Role::Admin ==> r == Err::<(), AccountError>(
                AccountError::Unauthorized,
            ) && *final(self) == *old(self),
            caller != account_id && old(self).roles().contains_key(caller) && old(self).roles()[caller] == Role::Admin && !old(self).roles().contains_key(account_id) ==> r
                == Err::<(), AccountError>(AccountError::NoDataFound) && *final(self) == *old(self),
            caller != account_id && old(self).roles().contains_key(caller) && old(self).roles()[caller] == Role::Admin && old(self).roles().contains_key(account_id) ==> r
                == Ok::<(), AccountError>(()) && final(self).roles() == old(self).roles().remove(
                account_id,
            ) && final(self).identities_map() == old(self).identities_map() && final(self).version_of() == old(self).version_of() && final(self).events_log() == old(self).events_log().push(
                Event {
                    from: Some(caller),
                    to: Some(account_id),
                    event_type: EventType::RoleGranted { role: old(self).roles()[account_id] },
                },
            ),
    {
        if caller == account_id {
            return Err(AccountError::Unauthorized);
        }
        let caller_role = match self.role.get(caller) {
            Some(role) => *role,
            None => {
                return Ok(());
            },
        };
        match caller_role {
            Role::Admin => {
                let previous_role = match self.role.get(account_id) {
                    Some(role) => *role,
                    None => {
                        return Err(AccountError::NoDataFound);
                    },
                };
                self.role.remove(account_id);
                self.events.push(
                    Event {
                        from: Some(caller),
                        to: Some(account_id),
                        event_type: EventType::RoleGranted { role: previous_role },
                    },
                );
                Ok(())
            },
            _ => Err(AccountError::Unauthorized),
        }
    }

    /// The role of an account, if it has one.
    pub fn get_role(&self, account_id: AccountId) -> (r: AccountResult<Role>)
        requires
            self.wf(),
        ensures
            self.roles().contains_key(account_id) ==> r == Ok::<Role, AccountError>(
                self.roles()[account_id],
            ),
            !self.roles().contains_key(account_id) ==> r == Err::<Role, AccountError>(
                AccountError::NoDataFound,
            ),
    {
        match self.role.get(account_id) {
            Some(role) => Ok(*role),
            None => Err(AccountError::NoDataFound),
        }
    }
}

} // verus!
