//! The signup orchestrator: from a validated submission to a committed
//! account, or a clean failure with no partial state.
//!
//! The flow runs in the order the design demands: validate the invitation,
//! generate the identifier and timestamps, hash the password — all
//! read-only — and only then open a transaction, stage the deletion of the
//! invitation and the insertion of the user and authentication rows, and
//! commit them as one step.  A failure anywhere leaves the store exactly
//! as it was.

use vstd::prelude::*;

use crate::errors::SignupFlowErrors;
use crate::hashing::hash_incoming_password;
use crate::hashing::password_verifies;
use crate::models::AllocatedUser;
use crate::models::AuthenticatedUserRecord;
use crate::models::InvitationV;
use crate::models::SignupFormDetails;
use crate::models::SignupFormV;
use crate::models::User;
use crate::store::accounts_consistent;
use crate::store::apply_txn;
use crate::store::auth_for_present;
use crate::store::fault_check;
use crate::store::fault_hits;
use crate::store::invitation_in;
use crate::store::invitation_present;
use crate::store::user_id_present;
use crate::store::user_named_present;
use crate::store::Datastore;
use crate::store::StoreView;
use crate::store::Transaction;
use crate::store::TxView;
use crate::store::OP_COMMIT;
use crate::store::OP_DELETE_INVITATION;
use crate::store::OP_INSERT_AUTHENTICATION;
use crate::store::OP_INSERT_USER;

verus! {

/// Relies on `uuid::Uuid::new_v4` and its `Display` impl: a fresh random
/// version-4 UUID, formatted in the canonical hyphenated form of exactly
/// 36 characters.  The value is random; nothing else is promised of it.
#[verifier::external_body]
fn generate_user_id() -> (r: String)
    ensures
        r@.len() == 36,
{
    uuid::Uuid::new_v4().to_string()
}

/// Relies on `chrono::Utc::now`: the current UTC time, in microseconds
/// since the Unix epoch.  The clock decides the value; nothing is promised
/// of it.
#[verifier::external_body]
fn current_timestamp() -> i64 {
    chrono::Utc::now().timestamp_micros()
}

/// The invitation table after deleting every row that carries exactly this
/// username and secret — the effect of the flow's single DELETE statement.
pub open spec fn remove_matching(
    rows: Seq<InvitationV>,
    username: Seq<char>,
    secret: Seq<char>,
) -> Seq<InvitationV>
    decreases rows.len(),
{
    if rows.len() == 0 {
        Seq::empty()
    } else {
        let rest = remove_matching(rows.drop_last(), username, secret);
        if rows.last().username == username && rows.last().secret == secret {
            rest
        } else {
            rest.push(rows.last())
        }
    }
}

/// Deleting a pair removes it entirely: no row matching it survives.
pub proof fn lemma_remove_matching_absent(
    rows: Seq<InvitationV>,
    username: Seq<char>,
    secret: Seq<char>,
)
    ensures
        !invitation_in(remove_matching(rows, username, secret), username, secret),
    decreases rows.len(),
{
    if rows.len() == 0 {
    } else {
        lemma_remove_matching_absent(rows.drop_last(), username, secret);
        let rest = remove_matching(rows.drop_last(), username, secret);
        let out = remove_matching(rows, username, secret);
        if !(rows.last().username == username && rows.last().secret == secret) {
            assert forall|i: int| 0 <= i < out.len() implies !((#[trigger] out[i]).username
                == username && out[i].secret == secret) by {
                if i < rest.len() {
                    assert(out[i] == rest[i]);
                    assert(!(rest[i].username == username && rest[i].secret == secret));
                } else {
                    assert(out[i] == rows.last());
                }
            }
        }
    }
}

/// Look up an invitation by exact equality on both username and secret.
///
/// Read-only.  "No such username" and "wrong secret" are indistinguishable
/// here by design: the result only says whether the pair as a whole
/// matched.
pub fn check_user_allocation(store: &Datastore, proposed_user: AllocatedUser) -> (r: Option<
    AllocatedUser,
>)
    ensures
        match r {
            Some(row) => invitation_present(store@, proposed_user.username@, proposed_user.secret@)
                && row@ == (InvitationV {
                username: proposed_user.username@,
                secret: proposed_user.secret@,
            }),
            None => !invitation_present(store@, proposed_user.username@, proposed_user.secret@),
        },
{
    let mut i: usize = 0;
    while i < store.allocated_users.len()
        invariant
            i <= store.allocated_users.len(),
            forall|j: int|
                0 <= j < i ==> !((#[trigger] store@.allocated_users[j]).username
                    == proposed_user.username@ && store@.allocated_users[j].secret
                    == proposed_user.secret@),
        decreases store.allocated_users.len() - i,
    {
        assert(store@.allocated_users[i as int] == store.allocated_users@[i as int]@);
        let row = &store.allocated_users[i];
        if row.username == proposed_user.username && row.secret == proposed_user.secret {
            proof {
                assert((store@.allocated_users[i as int]).username == proposed_user.username@);
                assert(invitation_in(
                    store@.allocated_users,
                    proposed_user.username@,
                    proposed_user.secret@,
                ));
            }
            return Some(row.clone());
        }
        i += 1;
    }
    None
}

/// Stage the deletion of this invitation: the flow's single DELETE.
///
/// Aborts with `UserNotAllocated` when no row matches — the fate of the
/// loser of a race on one invitation, which observes zero rows affected
/// and must not go on to write an account.
pub fn remove_allocated_user(
    store: &Datastore,
    tx: &mut Transaction,
    allocated_user: AllocatedUser,
) -> (r: Result<(), SignupFlowErrors>)
    ensures
        r is Ok <==> (!fault_hits(old(tx)@.fail_at, OP_DELETE_INVITATION) && invitation_present(
            store@,
            allocated_user.username@,
            allocated_user.secret@,
        )),
        r is Ok ==> final(tx)@ == (TxView {
            staged_allocated_users: Some(
                remove_matching(
                    store@.allocated_users,
                    allocated_user.username@,
                    allocated_user.secret@,
                ),
            ),
            ..old(tx)@
        }),
        r matches Err(e) ==> final(tx)@ == old(tx)@ && (e == SignupFlowErrors::StorageFailure
            <==> fault_hits(old(tx)@.fail_at, OP_DELETE_INVITATION)) && (e
            == SignupFlowErrors::UserNotAllocated <==> !fault_hits(
            old(tx)@.fail_at,
            OP_DELETE_INVITATION,
        )),
{
    if fault_check(tx.fail_at, OP_DELETE_INVITATION) {
        return Err(SignupFlowErrors::StorageFailure);
    }
    let ghost rows = store@.allocated_users;
    let ghost uname = allocated_user.username@;
    let ghost sec = allocated_user.secret@;
    let mut kept: Vec<AllocatedUser> = Vec::new();
    let mut found = false;
    let mut i: usize = 0;
    while i < store.allocated_users.len()
        invariant
            i <= store.allocated_users.len(),
            rows == store@.allocated_users,
            uname == allocated_user.username@,
            sec == allocated_user.secret@,
            kept@.map_values(|x: AllocatedUser| x@) == remove_matching(
                rows.take(i as int),
                uname,
                sec,
            ),
            found == invitation_in(rows.take(i as int), uname, sec),
        decreases store.allocated_users.len() - i,
    {
        proof {
            assert(rows[i as int] == store.allocated_users@[i as int]@);
            assert(rows.take(i as int + 1).drop_last() =~= rows.take(i as int));
            assert(rows.take(i as int + 1).last() == rows[i as int]);
        }
        let ghost prev_kept = kept@.map_values(|x: AllocatedUser| x@);
        let ghost prev_found = found;
        let row = &store.allocated_users[i];
        if row.username == allocated_user.username && row.secret == allocated_user.secret {
            found = true;
            proof {
                assert(invitation_in(rows.take(i as int + 1), uname, sec)) by {
                    assert(rows.take(i as int + 1)[i as int] == rows[i as int]);
                    assert((rows.take(i as int + 1)[i as int]).username == uname);
                    assert((rows.take(i as int + 1)[i as int]).secret == sec);
                }
            }
        } else {
            kept.push(row.clone());
            proof {
                assert(kept@.map_values(|x: AllocatedUser| x@) =~= prev_kept.push(
                    rows[i as int],
                ));
                assert(invitation_in(rows.take(i as int + 1), uname, sec) == prev_found) by {
                    if invitation_in(rows.take(i as int + 1), uname, sec) {
                        let j = choose|j: int|
                            0 <= j < rows.take(i as int + 1).len() && (#[trigger] rows.take(
                                i as int + 1,
                            )[j]).username == uname && rows.take(i as int + 1)[j].secret == sec;
                        if j < i {
                            assert(rows.take(i as int)[j] == rows.take(i as int + 1)[j]);
                            assert(invitation_in(rows.take(i as int), uname, sec));
                        }
                    } else {
                        if prev_found {
                            let j = choose|j: int|
                                0 <= j < rows.take(i as int).len() && (#[trigger] rows.take(
                                    i as int,
                                )[j]).username == uname && rows.take(i as int)[j].secret == sec;
                            assert(rows.take(i as int + 1)[j] == rows.take(i as int)[j]);
                        }
                    }
                }
            }
        }
        i += 1;
    }
    proof {
        assert(rows.take(i as int) =~= rows);
    }
    if !found {
        return Err(SignupFlowErrors::UserNotAllocated);
    }
    tx.staged_allocated_users = Some(kept);
    proof {
        assert(tx@ =~= (TxView {
            staged_allocated_users: Some(remove_matching(rows, uname, sec)),
            ..old(tx)@
        }));
    }
    Ok(())
}

/// Stage the insertion of the user row: the flow's first INSERT.
///
/// The only constraint enforced is the `User.id` primary key.  Username
/// uniqueness across existing users is deliberately not checked — a known,
/// documented gap of the flow, which relies entirely on whatever
/// constraint the storage schema declares.
pub fn insert_user_into_db(user: User, store: &Datastore, tx: &mut Transaction) -> (r: Result<
    (),
    SignupFlowErrors,
>)
    ensures
        r is Ok <==> (!fault_hits(old(tx)@.fail_at, OP_INSERT_USER) && !user_id_present(
            store@,
            user.id@,
        )),
        r is Ok ==> final(tx)@ == (TxView { staged_user: Some(user@), ..old(tx)@ }),
        r matches Err(e) ==> e == SignupFlowErrors::StorageFailure && final(tx)@ == old(tx)@,
{
    if fault_check(tx.fail_at, OP_INSERT_USER) {
        return Err(SignupFlowErrors::StorageFailure);
    }
    if store.user_id_exists(&user.id) {
        return Err(SignupFlowErrors::StorageFailure);
    }
    let ghost userv = user@;
    tx.staged_user = Some(user);
    proof {
        assert(tx@ =~= (TxView { staged_user: Some(userv), ..old(tx)@ }));
    }
    Ok(())
}

/// Stage the insertion of the authentication row: the flow's second
/// INSERT.  The only constraint enforced is uniqueness of
/// `Authentication.user_id`.
pub fn insert_user_authentication_details_into_db(
    store: &Datastore,
    tx: &mut Transaction,
    authenticated_user_record: AuthenticatedUserRecord,
) -> (r: Result<(), SignupFlowErrors>)
    ensures
        r is Ok <==> (!fault_hits(old(tx)@.fail_at, OP_INSERT_AUTHENTICATION) && !auth_for_present(
            store@,
            authenticated_user_record.user_id@,
        )),
        r is Ok ==> final(tx)@ == (TxView {
            staged_auth: Some(authenticated_user_record@),
            ..old(tx)@
        }),
        r matches Err(e) ==> e == SignupFlowErrors::StorageFailure && final(tx)@ == old(tx)@,
{
    if fault_check(tx.fail_at, OP_INSERT_AUTHENTICATION) {
        return Err(SignupFlowErrors::StorageFailure);
    }
    if store.authentication_exists(&authenticated_user_record.user_id) {
        return Err(SignupFlowErrors::StorageFailure);
    }
    let ghost authv = authenticated_user_record@;
    tx.staged_auth = Some(authenticated_user_record);
    proof {
        assert(tx@ =~= (TxView { staged_auth: Some(authv), ..old(tx)@ }));
    }
    Ok(())
}

/// The transition a committed signup performs on the store: the matching
/// invitation rows are gone, and exactly one user row and one
/// authentication row, tied by a fresh id, were appended.
pub open spec fn signup_committed(pre: StoreView, post: StoreView, form: SignupFormV) -> bool {
    &&& invitation_present(pre, form.username, form.secret)
    &&& post.allocated_users == remove_matching(pre.allocated_users, form.username, form.secret)
    &&& post.users.len() == pre.users.len() + 1
    &&& post.users == pre.users.push(post.users.last())
    &&& post.users.last().username == form.username
    &&& post.users.last().email == form.email
    &&& post.users.last().description == Seq::<char>::empty()
    &&& post.users.last().id.len() == 36
    &&& !user_id_present(pre, post.users.last().id)
    &&& post.authentications == pre.authentications.push(post.authentications.last())
    &&& post.authentications.last().user_id == post.users.last().id
    &&& post.authentications.last().stale == false
    &&& !auth_for_present(pre, post.authentications.last().user_id)
}

/// Drive one signup attempt, with an optional storage fault scheduled for
/// write operation `fail_at` (see the operation indices in the store).
///
/// The outcome is exact: the attempt ends not-allocated precisely when no
/// invitation matches the submitted pair — whether the username exists
/// with another secret or not at all is invisible in the result.  Every
/// failure leaves the store untouched; success performs exactly the
/// committed transition, with a stored hash that verifies against the
/// submitted password.
pub fn perform_signup_flow_with_faults(
    store: &mut Datastore,
    form_details: SignupFormDetails,
    fail_at: Option<u64>,
) -> (r: Result<(), SignupFlowErrors>)
    ensures
        (r matches Err(e) && e == SignupFlowErrors::UserNotAllocated) <==> !invitation_present(
            old(store)@,
            form_details.username@,
            form_details.secret@,
        ),
        r is Err ==> final(store)@ == old(store)@,
        r is Ok ==> signup_committed(old(store)@, final(store)@, form_details@)
            && password_verifies(
            form_details.password@,
            final(store)@.authentications.last().pass_hash,
        ),
        (fail_at matches Some(k) && k <= OP_COMMIT) ==> r is Err,
{
    let ghost pre = store@;
    let ghost formv = form_details@;

    let allocated_user_key = AllocatedUser {
        username: form_details.username.clone(),
        secret: form_details.secret.clone(),
    };
    let allocated_user = check_user_allocation(&*store, allocated_user_key);
    if allocated_user.is_none() {
        return Err(SignupFlowErrors::UserNotAllocated);
    }
    let allocated_user = allocated_user.unwrap();

    let user = User {
        id: generate_user_id(),
        username: form_details.username,
        email: form_details.email,
        description: String::new(),
        created: current_timestamp(),
    };
    let password_record = match hash_incoming_password(form_details.password) {
        Ok(rec) => rec,
        Err(e) => {
            return Err(e);
        },
    };
    let authenticated_record = AuthenticatedUserRecord {
        user_id: user.id.clone(),
        pass_hash: password_record.hash,
        salt: password_record.salt,
        stale: false,
        updated: current_timestamp(),
    };
    let ghost userv = user@;
    let ghost authrv = authenticated_record@;

    let mut add_user_transaction = store.begin(fail_at);

    match remove_allocated_user(&*store, &mut add_user_transaction, allocated_user) {
        Ok(()) => {},
        Err(e) => {
            return Err(e);
        },
    }
    match insert_user_into_db(user, &*store, &mut add_user_transaction) {
        Ok(()) => {},
        Err(e) => {
            return Err(e);
        },
    }
    match insert_user_authentication_details_into_db(
        &*store,
        &mut add_user_transaction,
        authenticated_record,
    ) {
        Ok(()) => {},
        Err(e) => {
            return Err(e);
        },
    }
    let ghost txv = add_user_transaction@;
    match add_user_transaction.commit(store) {
        Ok(()) => {},
        Err(e) => {
            return Err(e);
        },
    }
    proof {
        assert(store@ == apply_txn(pre, txv));
        assert(store@.users == pre.users.push(userv));
        assert(store@.users.last() == userv);
        assert(store@.authentications.last() == authrv);
        assert(signup_committed(pre, store@, formv));
    }
    Ok(())
}

/// Drive one signup attempt end to end, without injected faults: validate
/// the invitation, hash the password, then consume the invitation and
/// create the user and authentication rows in one atomic commit.
pub fn perform_signup_flow(store: &mut Datastore, form_details: SignupFormDetails) -> (r: Result<
    (),
    SignupFlowErrors,
>)
    ensures
        (r matches Err(e) && e == SignupFlowErrors::UserNotAllocated) <==> !invitation_present(
            old(store)@,
            form_details.username@,
            form_details.secret@,
        ),
        r is Err ==> final(store)@ == old(store)@,
        r is Ok ==> signup_committed(old(store)@, final(store)@, form_details@)
            && password_verifies(
            form_details.password@,
            final(store)@.authentications.last().pass_hash,
        ),
{
    perform_signup_flow_with_faults(store, form_details, None)
}

/// Atomicity: however a signup attempt ends — committed, or failed at any
/// point of the write phase — the store never shows the invitation gone
/// without the account.  Either the invitation is still present
/// unconsumed, or a user row with the submitted username exists together
/// with its authentication row.
pub proof fn lemma_signup_atomic(pre: StoreView, post: StoreView, form: SignupFormV)
    requires
        invitation_present(pre, form.username, form.secret),
        signup_committed(pre, post, form) || post == pre,
    ensures
        invitation_present(post, form.username, form.secret) || (user_named_present(
            post,
            form.username,
        ) && auth_for_present(post, post.users.last().id)),
{
    if signup_committed(pre, post, form) {
        let n = post.users.len() - 1;
        assert(post.users[n] == post.users.last());
        assert(user_named_present(post, form.username));
        let m = post.authentications.len() - 1;
        assert(post.authentications[m] == post.authentications.last());
        assert(auth_for_present(post, post.users.last().id));
    }
}

/// Consume-once: a committed signup removes every invitation row for the
/// submitted pair, so no second attempt with the same pair can commit
/// from the resulting store — by the flow's contract it ends in the
/// not-allocated outcome instead.
pub proof fn lemma_consume_once(
    pre: StoreView,
    mid: StoreView,
    post: StoreView,
    form: SignupFormV,
    form2: SignupFormV,
)
    requires
        signup_committed(pre, mid, form),
        form2.username == form.username,
        form2.secret == form.secret,
    ensures
        !invitation_present(mid, form2.username, form2.secret),
        !signup_committed(mid, post, form2),
{
    lemma_remove_matching_absent(pre.allocated_users, form.username, form.secret);
}

/// Anti-enumeration: a pair whose username occurs only with other secrets
/// matches nothing, exactly as a username that occurs nowhere — the flow
/// therefore ends both in the same outcome, the one it pins to an absent
/// match.
pub proof fn lemma_wrong_secret_indistinguishable(
    s: StoreView,
    username: Seq<char>,
    secret: Seq<char>,
)
    requires
        forall|i: int|
            0 <= i < s.allocated_users.len() && (#[trigger] s.allocated_users[i]).username
                == username ==> s.allocated_users[i].secret != secret,
    ensures
        !invitation_present(s, username, secret),
{
}

/// A committed signup keeps the account invariant: in a store where every
/// user has its credentials and every credential its user, the one user
/// row and the one authentication row it appends arrive together, tied by
/// the fresh id.
pub proof fn lemma_committed_keeps_accounts_consistent(
    pre: StoreView,
    post: StoreView,
    form: SignupFormV,
)
    requires
        accounts_consistent(pre),
        signup_committed(pre, post, form),
    ensures
        accounts_consistent(post),
{
    let n = pre.users.len() as int;
    let m = pre.authentications.len() as int;
    assert forall|i: int| 0 <= i < post.users.len() implies auth_for_present(
        post,
        (#[trigger] post.users[i]).id,
    ) by {
        if i < n {
            assert(post.users[i] == pre.users[i]);
            let j = choose|j: int|
                0 <= j < pre.authentications.len() && (#[trigger] pre.authentications[j]).user_id
                    == pre.users[i].id;
            assert(post.authentications[j] == pre.authentications[j]);
        } else {
            assert(post.users[i] == post.users.last());
            assert(post.authentications[m] == post.authentications.last());
        }
    }
    assert forall|j: int| 0 <= j < post.authentications.len() implies user_id_present(
        post,
        (#[trigger] post.authentications[j]).user_id,
    ) by {
        if j < m {
            assert(post.authentications[j] == pre.authentications[j]);
            let i = choose|i: int|
                0 <= i < pre.users.len() && (#[trigger] pre.users[i]).id
                    == pre.authentications[j].user_id;
            assert(post.users[i] == pre.users[i]);
        } else {
            assert(post.authentications[j] == post.authentications.last());
            assert(post.users[n] == post.users.last());
        }
    }
}

/// The signal handed back to the page layer.
#[derive(Clone, Copy, Debug, PartialEq, Eq, Structural)]
pub enum SignupResponse {
    /// The account was provisioned: send the user to the landing page.
    RedirectToLanding,
    /// The attempt failed: render the signup form again, unpopulated and
    /// without a specific reason, whatever the failure was.
    RenderSignupForm,
}

/// Map a signup outcome to the user-visible signal.  Every failure maps to
/// the same re-render, so the response reveals nothing about why.
pub fn signup_response(result: &Result<(), SignupFlowErrors>) -> (r: SignupResponse)
    ensures
        r == (match result {
            Ok(_) => SignupResponse::RedirectToLanding,
            Err(_) => SignupResponse::RenderSignupForm,
        }),
{
    match result {
        Ok(_) => SignupResponse::RedirectToLanding,
        Err(_) => SignupResponse::RenderSignupForm,
    }
}

} // verus!
