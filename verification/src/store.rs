//! The datastore holding the three tables of the provisioning core, and
//! the transaction through which the write phase reaches them.
//!
//! The store is the logical schema itself: `AllocatedUser`, `User` and
//! `Authentication` as in-memory tables, passed around as an explicit
//! handle.  A [`Transaction`] stages the write phase's changes without
//! touching the store; only [`Transaction::commit`] mutates it, and it
//! applies everything staged in one step.  Any failure before or at commit
//! therefore leaves the store exactly as it was.
//!
//! The write path can be exercised under injected storage faults: each
//! write operation has a fixed index, and a transaction begun with
//! `fail_at = Some(op)` fails at that operation, the way a lost connection
//! or a failed commit would.

use vstd::prelude::*;

use crate::errors::SignupFlowErrors;
use crate::models::AllocatedUser;
use crate::models::AuthRecordV;
use crate::models::AuthenticatedUserRecord;
use crate::models::InvitationV;
use crate::models::User;
use crate::models::UserV;

verus! {

/// Index of the invitation deletion in the write phase.
pub const OP_DELETE_INVITATION: u64 = 0;

/// Index of the user insertion in the write phase.
pub const OP_INSERT_USER: u64 = 1;

/// Index of the authentication-record insertion in the write phase.
pub const OP_INSERT_AUTHENTICATION: u64 = 2;

/// Index of the commit itself.
pub const OP_COMMIT: u64 = 3;

/// Whether an injected fault is scheduled for write operation `op`.
pub open spec fn fault_hits(fail_at: Option<u64>, op: u64) -> bool {
    fail_at == Some(op)
}

/// The three tables of the provisioning schema.
pub struct Datastore {
    pub allocated_users: Vec<AllocatedUser>,
    pub users: Vec<User>,
    pub authentications: Vec<AuthenticatedUserRecord>,
}

/// Ghost image of the whole store.
#[verifier::ext_equal]
pub ghost struct StoreView {
    pub allocated_users: Seq<InvitationV>,
    pub users: Seq<UserV>,
    pub authentications: Seq<AuthRecordV>,
}

impl View for Datastore {
    type V = StoreView;

    open spec fn view(&self) -> StoreView {
        StoreView {
            allocated_users: self.allocated_users@.map_values(|x: AllocatedUser| x@),
            users: self.users@.map_values(|x: User| x@),
            authentications: self.authentications@.map_values(|x: AuthenticatedUserRecord| x@),
        }
    }
}

/// Whether some invitation row carries exactly this username and secret.
pub open spec fn invitation_in(rows: Seq<InvitationV>, username: Seq<char>, secret: Seq<char>) -> bool {
    exists|i: int|
        0 <= i < rows.len() && #[trigger] rows[i].username == username && rows[i].secret == secret
}

/// Whether the store holds an invitation for this username/secret pair.
pub open spec fn invitation_present(s: StoreView, username: Seq<char>, secret: Seq<char>) -> bool {
    invitation_in(s.allocated_users, username, secret)
}

/// Whether the store holds a user row with this id.
pub open spec fn user_id_present(s: StoreView, id: Seq<char>) -> bool {
    exists|i: int| 0 <= i < s.users.len() && (#[trigger] s.users[i]).id == id
}

/// Whether the store holds a user row with this username.
pub open spec fn user_named_present(s: StoreView, username: Seq<char>) -> bool {
    exists|i: int| 0 <= i < s.users.len() && (#[trigger] s.users[i]).username == username
}

/// Whether the store holds an authentication row owned by this user id.
pub open spec fn auth_for_present(s: StoreView, user_id: Seq<char>) -> bool {
    exists|i: int| 0 <= i < s.authentications.len() && (#[trigger] s.authentications[i]).user_id == user_id
}

/// The account invariant of the data model: a user row exists if and only
/// if an authentication row for its id exists — the two are created
/// together and never apart.
pub open spec fn accounts_consistent(s: StoreView) -> bool {
    &&& forall|i: int|
        0 <= i < s.users.len() ==> auth_for_present(s, (#[trigger] s.users[i]).id)
    &&& forall|j: int|
        0 <= j < s.authentications.len() ==> user_id_present(
            s,
            (#[trigger] s.authentications[j]).user_id,
        )
}

impl Datastore {
    /// An empty store.
    pub fn new() -> (r: Datastore)
        ensures
            r@.allocated_users.len() == 0,
            r@.users.len() == 0,
            r@.authentications.len() == 0,
    {
        Datastore { allocated_users: Vec::new(), users: Vec::new(), authentications: Vec::new() }
    }

    /// Whether a user row with this id exists (the `User.id` primary key).
    pub fn user_id_exists(&self, id: &String) -> (r: bool)
        ensures
            r == user_id_present(self@, id@),
    {
        let mut i: usize = 0;
        while i < self.users.len()
            invariant
                i <= self.users.len(),
                forall|j: int| 0 <= j < i ==> (#[trigger] self@.users[j]).id != id@,
            decreases self.users.len() - i,
        {
            assert(self@.users[i as int] == self.users@[i as int]@);
            if self.users[i].id == *id {
                return true;
            }
            i += 1;
        }
        false
    }

    /// Whether an authentication row owned by this user id exists (the
    /// `Authentication.user_id` uniqueness constraint).
    pub fn authentication_exists(&self, user_id: &String) -> (r: bool)
        ensures
            r == auth_for_present(self@, user_id@),
    {
        let mut i: usize = 0;
        while i < self.authentications.len()
            invariant
                i <= self.authentications.len(),
                forall|j: int| 0 <= j < i ==> (#[trigger] self@.authentications[j]).user_id != user_id@,
            decreases self.authentications.len() - i,
        {
            assert(self@.authentications[i as int] == self.authentications@[i as int]@);
            if self.authentications[i].user_id == *user_id {
                return true;
            }
            i += 1;
        }
        false
    }

    /// Open a transaction against this store, optionally scheduling an
    /// injected fault for write operation `fail_at`.
    pub fn begin(&self, fail_at: Option<u64>) -> (tx: Transaction)
        ensures
            tx@ == (TxView {
                fail_at,
                staged_allocated_users: None,
                staged_user: None,
                staged_auth: None,
            }),
    {
        Transaction { fail_at, staged_allocated_users: None, staged_user: None, staged_auth: None }
    }
}

/// An open transaction: the write phase's changes, staged but not applied.
pub struct Transaction {
    pub fail_at: Option<u64>,
    /// Replacement for the invitation table, staged by the deletion.
    pub staged_allocated_users: Option<Vec<AllocatedUser>>,
    /// The user row staged for insertion.
    pub staged_user: Option<User>,
    /// The authentication row staged for insertion.
    pub staged_auth: Option<AuthenticatedUserRecord>,
}

/// Ghost image of an open transaction.
#[verifier::ext_equal]
pub ghost struct TxView {
    pub fail_at: Option<u64>,
    pub staged_allocated_users: Option<Seq<InvitationV>>,
    pub staged_user: Option<UserV>,
    pub staged_auth: Option<AuthRecordV>,
}

impl View for Transaction {
    type V = TxView;

    open spec fn view(&self) -> TxView {
        TxView {
            fail_at: self.fail_at,
            staged_allocated_users: match self.staged_allocated_users {
                Some(rows) => Some(rows@.map_values(|x: AllocatedUser| x@)),
                None => None,
            },
            staged_user: match self.staged_user {
                Some(u) => Some(u@),
                None => None,
            },
            staged_auth: match self.staged_auth {
                Some(a) => Some(a@),
                None => None,
            },
        }
    }
}

/// The store that committing a transaction produces: each staged change
/// applied to the corresponding table, the others untouched.
pub open spec fn apply_txn(pre: StoreView, t: TxView) -> StoreView {
    StoreView {
        allocated_users: match t.staged_allocated_users {
            Some(rows) => rows,
            None => pre.allocated_users,
        },
        users: match t.staged_user {
            Some(u) => pre.users.push(u),
            None => pre.users,
        },
        authentications: match t.staged_auth {
            Some(a) => pre.authentications.push(a),
            None => pre.authentications,
        },
    }
}

impl Transaction {
    /// Apply everything staged to the store in one step, or fail without
    /// touching it.  All mutation of the store happens here and nowhere
    /// else, so a transaction dropped before commit leaves no trace.
    pub fn commit(self, store: &mut Datastore) -> (r: Result<(), SignupFlowErrors>)
        ensures
            match r {
                Ok(()) => !fault_hits(self@.fail_at, OP_COMMIT) && final(store)@ == apply_txn(
                    old(store)@,
                    self@,
                ),
                Err(e) => e == SignupFlowErrors::StorageFailure && fault_hits(
                    self@.fail_at,
                    OP_COMMIT,
                ) && final(store)@ == old(store)@,
            },
    {
        if fault_check(self.fail_at, OP_COMMIT) {
            return Err(SignupFlowErrors::StorageFailure);
        }
        let ghost pre = store@;
        let ghost txv = self@;
        let Transaction { fail_at: _, staged_allocated_users, staged_user, staged_auth } = self;
        match staged_allocated_users {
            Some(rows) => {
                store.allocated_users = rows;
            },
            None => {},
        }
        match staged_user {
            Some(u) => {
                store.users.push(u);
            },
            None => {},
        }
        match staged_auth {
            Some(a) => {
                store.authentications.push(a);
            },
            None => {},
        }
        proof {
            assert(store@.allocated_users =~= apply_txn(pre, txv).allocated_users);
            assert(store@.users =~= apply_txn(pre, txv).users);
            assert(store@.authentications =~= apply_txn(pre, txv).authentications);
            assert(store@ =~= apply_txn(pre, txv));
        }
        Ok(())
    }
}

/// Whether an injected fault is scheduled for this write operation.
pub fn fault_check(fail_at: Option<u64>, op: u64) -> (r: bool)
    ensures
        r == fault_hits(fail_at, op),
{
    match fail_at {
        Some(k) => k == op,
        None => false,
    }
}

} // verus!
