//! The identity store: which identities exist, and the uniqueness of their
//! account numbers.
//!
//! `IdentityStore` keeps the identities in memory, in the order in which
//! they were inserted. Its contracts are those of any store of the service.

use crate::error::StorageFailure;
use crate::model::{NewUser, User};
use crate::text::same_text;
use vstd::prelude::*;
use vstd::string::*;

verus! {

/// Some record has the account number `account_number`.
pub open spec fn holds_account(records: Seq<User>, account_number: Seq<char>) -> bool {
    exists|i: int| 0 <= i < records.len() && (#[trigger] records[i]).account_number@ == account_number
}

/// Some record has the id `id`.
pub open spec fn holds_id(records: Seq<User>, id: u128) -> bool {
    exists|i: int| 0 <= i < records.len() && (#[trigger] records[i]).id == id
}

/// No two records share an account number or an id.
pub open spec fn distinct_identities(records: Seq<User>) -> bool {
    forall|i: int, j: int|
        0 <= i < j < records.len() ==> (#[trigger] records[i]).id != (#[trigger] records[j]).id
            && records[i].account_number@ != records[j].account_number@
}

/// What an insert does: a row whose account number or id is taken is
/// refused and nothing changes; any other row is appended whole, with its
/// creation time, and handed back.
pub open spec fn insertion(records: Seq<User>, row: NewUser, created_at: i64) -> (
    Seq<User>,
    Result<User, StorageFailure>,
) {
    if holds_account(records, row.account_number@) || holds_id(records, row.id) {
        (records, Err(StorageFailure::UniqueViolation))
    } else {
        (records.push(row.stored(created_at)), Ok(row.stored(created_at)))
    }
}

/// `found` is what a lookup by account number gives: a record with that
/// account number, or nothing where no record has it.
pub open spec fn is_lookup_by_account(
    records: Seq<User>,
    account_number: Seq<char>,
    found: Option<User>,
) -> bool {
    match found {
        Some(user) => records.contains(user) && user.account_number@ == account_number,
        None => !holds_account(records, account_number),
    }
}

/// `found` is what a lookup by id gives: a record with that id, or nothing
/// where no record has it.
pub open spec fn is_lookup_by_id(records: Seq<User>, id: u128, found: Option<User>) -> bool {
    match found {
        Some(user) => records.contains(user) && user.id == id,
        None => !holds_id(records, id),
    }
}

/// The identities of the service, kept in memory.
pub struct IdentityStore {
    users: Vec<User>,
}

impl IdentityStore {
    /// The records, oldest first.
    pub closed spec fn records(&self) -> Seq<User> {
        self.users@
    }

    /// The invariant of the store: account numbers and ids are unique. It
    /// holds of every store that `new` and `insert` have made, and there is
    /// no other way to make one.
    pub open spec fn wf(&self) -> bool {
        distinct_identities(self.records())
    }

    /// A store without identities.
    pub fn new() -> (store: IdentityStore)
        ensures
            store.wf(),
            store.records() == Seq::<User>::empty(),
    {
        IdentityStore { users: Vec::new() }
    }

    /// How many identities there are.
    pub fn len(&self) -> (n: usize)
        ensures
            n == self.records().len(),
    {
        self.users.len()
    }

    /// Whether an identity has this account number.
    pub fn exists_by_account_number(&self, account_number: &str) -> (taken: bool)
        ensures
            taken == holds_account(self.records(), account_number@),
    {
        let mut i: usize = 0;
        while i < self.users.len()
            invariant
                i <= self.users.len(),
                forall|j: int| 0 <= j < i ==> (#[trigger] self.users@[j]).account_number@ != account_number@,
            decreases self.users.len() - i,
        {
            if same_text(self.users[i].account_number.as_str(), account_number) {
                return true;
            }
            i = i + 1;
        }
        false
    }

    /// Whether an identity has this id.
    pub fn exists_by_id(&self, id: u128) -> (taken: bool)
        ensures
            taken == holds_id(self.records(), id),
    {
        let mut i: usize = 0;
        while i < self.users.len()
            invariant
                i <= self.users.len(),
                forall|j: int| 0 <= j < i ==> (#[trigger] self.users@[j]).id != id,
            decreases self.users.len() - i,
        {
            if self.users[i].id == id {
                return true;
            }
            i = i + 1;
        }
        false
    }

    /// Adds an identity, created at `created_at`. This is the one place
    /// that decides uniqueness: a row whose account number or id is taken is
    /// refused with `UniqueViolation`, whatever an earlier
    /// `exists_by_account_number` said, and the store is left as it was.
    pub fn insert(&mut self, row: NewUser, created_at: i64) -> (inserted: Result<
        User,
        StorageFailure,
    >)
        requires
            old(self).wf(),
        ensures
            final(self).wf(),
            (final(self).records(), inserted) == insertion(old(self).records(), row, created_at),
    {
        if self.exists_by_account_number(row.account_number.as_str()) || self.exists_by_id(row.id) {
            return Err(StorageFailure::UniqueViolation);
        }
        let user = row.into_user(created_at);
        let copy = user.duplicate();
        self.users.push(user);
        Ok(copy)
    }

    /// The identity with this id.
    pub fn find_by_id(&self, id: u128) -> (found: Option<User>)
        ensures
            is_lookup_by_id(self.records(), id, found),
    {
        let mut i: usize = 0;
        while i < self.users.len()
            invariant
                i <= self.users.len(),
                forall|j: int| 0 <= j < i ==> (#[trigger] self.users@[j]).id != id,
            decreases self.users.len() - i,
        {
            if self.users[i].id == id {
                return Some(self.users[i].duplicate());
            }
            i = i + 1;
        }
        None
    }

    /// The identity with this account number.
    pub fn find_by_account_number(&self, account_number: &str) -> (found: Option<User>)
        ensures
            is_lookup_by_account(self.records(), account_number@, found),
    {
        let mut i: usize = 0;
        while i < self.users.len()
            invariant
                i <= self.users.len(),
                forall|j: int| 0 <= j < i ==> (#[trigger] self.users@[j]).account_number@ != account_number@,
            decreases self.users.len() - i,
        {
            if same_text(self.users[i].account_number.as_str(), account_number) {
                return Some(self.users[i].duplicate());
            }
            i = i + 1;
        }
        None
    }
}

/// Under the store's invariant a lookup by account number has one answer.
pub proof fn lemma_lookup_by_account_is_unique(
    records: Seq<User>,
    account_number: Seq<char>,
    a: Option<User>,
    b: Option<User>,
)
    requires
        distinct_identities(records),
        is_lookup_by_account(records, account_number, a),
        is_lookup_by_account(records, account_number, b),
    ensures
        a == b,
{
    if a is Some && b is Some {
        let i = choose|i: int| 0 <= i < records.len() && records[i] == a->0;
        let j = choose|j: int| 0 <= j < records.len() && records[j] == b->0;
        assert(i == j);
    }
}

/// Under the store's invariant a lookup by id has one answer.
pub proof fn lemma_lookup_by_id_is_unique(
    records: Seq<User>,
    id: u128,
    a: Option<User>,
    b: Option<User>,
)
    requires
        distinct_identities(records),
        is_lookup_by_id(records, id, a),
        is_lookup_by_id(records, id, b),
    ensures
        a == b,
{
    if a is Some && b is Some {
        let i = choose|i: int| 0 <= i < records.len() && records[i] == a->0;
        let j = choose|j: int| 0 <= j < records.len() && records[j] == b->0;
        assert(i == j);
    }
}

/// An insert keeps the store's invariant and changes nothing where it
/// fails; where it succeeds, the row's account number and id are taken from
/// then on; and no record ever leaves the store.
pub proof fn lemma_insertion(records: Seq<User>, row: NewUser, created_at: i64)
    requires
        distinct_identities(records),
    ensures
        distinct_identities(insertion(records, row, created_at).0),
        insertion(records, row, created_at).1 is Err ==> insertion(records, row, created_at).0
            == records,
        insertion(records, row, created_at).1 is Ok ==> holds_account(
            insertion(records, row, created_at).0,
            row.account_number@,
        ) && holds_id(insertion(records, row, created_at).0, row.id),
        forall|i: int|
            0 <= i < records.len() ==> insertion(records, row, created_at).0[i]
                == #[trigger] records[i],
{
    let after = insertion(records, row, created_at).0;
    if insertion(records, row, created_at).1 is Ok {
        assert(after[records.len() as int].account_number@ == row.account_number@);
        assert(after[records.len() as int].id == row.id);
    }
}

} // verus!
