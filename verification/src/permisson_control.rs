//! The admin quorum of the registry's permission collaborator: a set of
//! admin accounts and the minimum number of admins a confirmation needs.
//!
//! The original checks on these operations are hard aborts, not recoverable
//! errors: they are stated here as preconditions, and the host asserts them
//! before calling, failing the same way when they do not hold.

use vstd::prelude::*;

use crate::table::Table;
use crate::types::AccountId;

verus! {

/// The balance type of the hosting chain.
pub type Balance = u128;

pub type TransactionId = u32;

/// A call that admins confirm before it is forwarded.
#[derive(Debug, Clone, PartialEq, Eq)]
pub struct Transaction {
    pub callee: AccountId,
    pub selector: [u8; 4],
    pub selector_inputs: Vec<u8>,
    pub transferred_value: Balance,
    pub ref_time_limit: u64,
    pub allow_reentry: bool,
}

/// The transactions waiting for confirmation and the next free id.
#[derive(Debug, Clone, PartialEq, Eq)]
pub struct TransactionList {
    pub transactions: Vec<TransactionId>,
    pub next_id: TransactionId,
}

/// The errors of the admin quorum.
#[derive(Debug, Clone, PartialEq, Eq)]
pub enum PermissionError {
    NotAdmin,
    InvalidOperation,
    NoDataFound,
}

pub type PermissonResult<T> = Result<T, PermissionError>;

/// Emitted when the admin set changes.
#[derive(Debug, Clone, PartialEq, Eq)]
pub struct Event {}

/// The admin quorum: which accounts are admins and how many of them a
/// confirmation requires.
pub struct PermissonControl {
    admins: Table<AccountId, ()>,
    min_admins_requirement: u32,
    events: Vec<Event>,
}

impl PermissonControl {
    /// The representation invariant of the admin table.
    pub closed spec fn wf(&self) -> bool {
        self.admins.wf()
    }

    /// The set of admin accounts.
    pub closed spec fn admins_set(&self) -> Set<AccountId> {
        self.admins@.dom()
    }

    /// The minimum number of admins a confirmation requires.
    pub closed spec fn min_requirement(&self) -> u32 {
        self.min_admins_requirement
    }

    /// The log of emitted events, oldest first.
    pub closed spec fn events_log(&self) -> Seq<Event> {
        self.events@
    }

    /// A quorum over the distinct accounts of `admins`. The requirement is
    /// two thirds of their number, and must leave a real quorum: more than
    /// two and fewer than all of them — the original aborts otherwise, so
    /// those inputs are excluded here.
    pub fn new(admins: Vec<AccountId>) -> (r: Self)
        requires
            admins@.to_set().len() * 2 <= u32::MAX,
            admins@.to_set().len() * 2 / 3 > 2,
            admins@.to_set().len() * 2 / 3 < admins@.to_set().len(),
        ensures
            r.wf(),
            r.admins_set() == admins@.to_set(),
            r.min_requirement() == admins@.to_set().len() * 2 / 3,
            r.events_log() == Seq::<Event>::empty(),
    {
        proof {
            broadcast use vstd::seq_lib::seq_to_set_is_finite;

        }
        let mut table: Table<AccountId, ()> = Table::new();
        let mut count: u32 = 0;
        let mut i: usize = 0;
        while i < admins.len()
            invariant
                table.wf(),
                i <= admins@.len(),
                table@.dom() =~= admins@.subrange(0, i as int).to_set(),
                count == table@.dom().len(),
                admins@.to_set().len() * 2 <= u32::MAX,
                admins@.to_set().finite(),
            decreases admins@.len() - i,
        {
            let a = admins[i];
            let ghost prefix = admins@.subrange(0, i as int);
            let ghost prefix_next = admins@.subrange(0, i as int + 1);
            proof {
                assert forall|x: AccountId| prefix_next.to_set().contains(x) implies
                    prefix.to_set().insert(a).contains(x) by {
                    let j = choose|j: int| 0 <= j < prefix_next.len() && prefix_next[j] == x;
                    if j < i {
                        assert(prefix[j] == x);
                    }
                }
                assert forall|x: AccountId| prefix.to_set().insert(a).contains(x) implies
                    prefix_next.to_set().contains(x) by {
                    if prefix.to_set().contains(x) {
                        let j = choose|j: int| 0 <= j < prefix.len() && prefix[j] == x;
                        assert(prefix_next[j] == x);
                    } else {
                        assert(prefix_next[i as int] == a);
                    }
                }
                assert(prefix_next.to_set() =~= prefix.to_set().insert(a));
                assert forall|x: AccountId| prefix.to_set().contains(x) implies
                    admins@.to_set().contains(x) by {
                    let j = choose|j: int| 0 <= j < prefix.len() && prefix[j] == x;
                    assert(admins@[j] == x);
                }
                vstd::set_lib::lemma_len_subset(prefix.to_set(), admins@.to_set());
            }
            if !table.contains_key(a) {
                table.insert(a, ());
                count = count + 1;
            }
            i += 1;
        }
        proof {
            assert(admins@.subrange(0, admins@.len() as int) =~= admins@);
        }
        let min_admins_requirement: u32 = count * 2 / 3;
        PermissonControl { admins: table, min_admins_requirement, events: Vec::new() }
    }

    /// Adds an admin. Only the hosting account itself may call, and the
    /// account must not be an admin already — the original aborts on
    /// either, so the host checks both first.
    pub fn add_admins(&mut self, caller: AccountId, own_account: AccountId, new_admins: AccountId)
        -> (r: PermissonResult<()>)
        requires
            old(self).wf(),
            caller == own_account,
            !old(self).admins_set().contains(new_admins),
        ensures
            final(self).wf(),
            r == Ok::<(), PermissionError>(()),
            final(self).admins_set() == old(self).admins_set().insert(new_admins),
            final(self).min_requirement() == old(self).min_requirement(),
            final(self).events_log() == old(self).events_log().push(Event {}),
    {
        self.admins.insert(new_admins, ());
        self.events.push(Event {});
        Ok(())
    }

    /// Removes an admin. Only the hosting account itself may call, and the
    /// account must currently be an admin — the original aborts on either,
    /// so the host checks both first.
    pub fn remove_admins(
        &mut self,
        caller: AccountId,
        own_account: AccountId,
        removed_admins: AccountId,
    ) -> (r: PermissonResult<()>)
        requires
            old(self).wf(),
            caller == own_account,
            old(self).admins_set().contains(removed_admins),
        ensures
            final(self).wf(),
            r == Ok::<(), PermissionError>(()),
            final(self).admins_set() == old(self).admins_set().remove(removed_admins),
            final(self).min_requirement() == old(self).min_requirement(),
            final(self).events_log() == old(self).events_log(),
    {
        self.admins.remove(removed_admins);
        Ok(())
    }

    /// Replaces one admin by another. Only the hosting account itself may
    /// call; the outgoing account must be an admin and the incoming one
    /// must not — the original aborts otherwise, so the host checks first.
    pub fn replace_admins(
        &mut self,
        caller: AccountId,
        own_account: AccountId,
        from: AccountId,
        to: AccountId,
    ) -> (r: PermissonResult<()>)
        requires
            old(self).wf(),
            caller == own_account,
            old(self).admins_set().contains(from),
            !old(self).admins_set().contains(to),
        ensures
            final(self).wf(),
            r == Ok::<(), PermissionError>(()),
            final(self).admins_set() == old(self).admins_set().remove(from).insert(to),
            final(self).min_requirement() == old(self).min_requirement(),
            final(self).events_log() == old(self).events_log(),
    {
        self.admins.remove(from);
        self.admins.insert(to, ());
        Ok(())
    }

    /// Whether the account is an admin.
    pub fn is_admin(&self, account_id: AccountId) -> (r: bool)
        requires
            self.wf(),
        ensures
            r == self.admins_set().contains(account_id),
    {
        self.admins.contains_key(account_id)
    }
}

impl Default for PermissonControl {
    /// An empty quorum: no admins, no requirement.
    fn default() -> (r: Self)
        ensures
            r.wf(),
            r.admins_set() == Set::<AccountId>::empty(),
            r.min_requirement() == 0,
            r.events_log() == Seq::<Event>::empty(),
    {
        let r = PermissonControl {
            admins: Table::new(),
            min_admins_requirement: 0,
            events: Vec::new(),
        };
        proof {
            assert(r.admins_set() =~= Set::<AccountId>::empty());
        }
        r
    }
}

} // verus!
