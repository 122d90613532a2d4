use hrefsurf::errors::SignupFlowErrors;
use hrefsurf::hashing::hash_incoming_password;
use hrefsurf::hashing::verify_user_password;
use hrefsurf::models::AllocatedUser;
use hrefsurf::models::SignupFormDetails;
use hrefsurf::signup::check_user_allocation;
use hrefsurf::signup::insert_user_authentication_details_into_db;
use hrefsurf::signup::insert_user_into_db;
use hrefsurf::signup::perform_signup_flow;
use hrefsurf::signup::perform_signup_flow_with_faults;
use hrefsurf::signup::remove_allocated_user;
use hrefsurf::signup::signup_response;
use hrefsurf::signup::SignupResponse;
use hrefsurf::store::Datastore;
use hrefsurf::store::OP_COMMIT;
use hrefsurf::store::OP_DELETE_INVITATION;
use hrefsurf::store::OP_INSERT_AUTHENTICATION;
use hrefsurf::store::OP_INSERT_USER;

fn store_with(invitations: &[(&str, &str)]) -> Datastore {
    let mut store = Datastore::new();
    for (username, secret) in invitations {
        store.allocated_users.push(AllocatedUser {
            username: (*username).to_owned(),
            secret: (*secret).to_owned(),
        });
    }
    store
}

fn form(username: &str, password: &str, email: &str, secret: &str) -> SignupFormDetails {
    SignupFormDetails {
        username: username.to_owned(),
        password: password.to_owned(),
        email: email.to_owned(),
        secret: secret.to_owned(),
    }
}

#[test]
fn happy_path_provisions_account() {
    let mut store = store_with(&[("bob", "xyz")]);
    let result = perform_signup_flow(&mut store, form("bob", "hunter2", "bob@example.com", "xyz"));
    assert!(result.is_ok());
    assert_eq!(signup_response(&result), SignupResponse::RedirectToLanding);

    assert!(store.allocated_users.is_empty(), "invitation bob/xyz must be consumed");

    assert_eq!(store.users.len(), 1);
    let user = &store.users[0];
    assert_eq!(user.username, "bob");
    assert_eq!(user.email, "bob@example.com");
    assert_eq!(user.description, "");
    assert!(!user.id.is_empty());
    assert_eq!(user.id.len(), 36);

    assert_eq!(store.authentications.len(), 1);
    let auth = &store.authentications[0];
    assert_eq!(auth.user_id, user.id);
    assert!(!auth.stale);
    assert!(!auth.salt.is_empty());
    assert!(verify_user_password(&"hunter2".to_owned(), &auth.pass_hash));
    assert!(!verify_user_password(&"not-hunter2".to_owned(), &auth.pass_hash));
}

#[test]
fn rejected_path_writes_nothing() {
    let mut store = store_with(&[("bob", "xyz")]);
    let result = perform_signup_flow(&mut store, form("carol", "pw", "carol@example.com", "wrong"));
    assert_eq!(result, Err(SignupFlowErrors::UserNotAllocated));
    assert_eq!(signup_response(&result), SignupResponse::RenderSignupForm);
    assert_eq!(store.allocated_users.len(), 1);
    assert!(store.users.is_empty());
    assert!(store.authentications.is_empty());
}

#[test]
fn hashing_is_salted_and_non_deterministic() {
    let password = "hunter2".to_owned();
    let first = hash_incoming_password(password.clone()).expect("hashing must succeed");
    let second = hash_incoming_password(password.clone()).expect("hashing must succeed");
    assert_ne!(first.hash, second.hash, "fresh salts must yield different encodings");
    assert_ne!(first.salt, second.salt);
    assert!(verify_user_password(&password, &first.hash));
    assert!(verify_user_password(&password, &second.hash));
    assert_ne!(first.hash, password, "the encoding must not be the plaintext");
}

#[test]
fn anti_enumeration_same_outcome_for_unknown_user_and_wrong_secret() {
    let mut store = store_with(&[("alice", "s3cr3t")]);

    let wrong_secret =
        perform_signup_flow(&mut store, form("alice", "pw", "a@example.com", "wr0ng"));
    let unknown_user =
        perform_signup_flow(&mut store, form("mallory", "pw", "m@example.com", "wr0ng"));

    assert_eq!(wrong_secret, Err(SignupFlowErrors::UserNotAllocated));
    assert_eq!(unknown_user, Err(SignupFlowErrors::UserNotAllocated));
    assert_eq!(wrong_secret, unknown_user);
    assert_eq!(
        wrong_secret.unwrap_err().message(),
        unknown_user.unwrap_err().message(),
        "the user-visible message must not depend on which half was wrong"
    );
    assert_eq!(signup_response(&wrong_secret), signup_response(&unknown_user));

    assert_eq!(store.allocated_users.len(), 1, "failed attempts must not consume the invitation");
    assert!(store.users.is_empty());
}

#[test]
fn consume_once_second_attempt_is_rejected() {
    let mut store = store_with(&[("alice", "s3cr3t")]);

    let first = perform_signup_flow(&mut store, form("alice", "pw1", "a@example.com", "s3cr3t"));
    let second = perform_signup_flow(&mut store, form("alice", "pw2", "a@example.com", "s3cr3t"));

    assert!(first.is_ok());
    assert_eq!(second, Err(SignupFlowErrors::UserNotAllocated));
    assert!(store.allocated_users.is_empty(), "the invitation must be gone");
    assert_eq!(store.users.len(), 1, "exactly one account may come from one invitation");
    assert_eq!(store.authentications.len(), 1);
}

#[test]
fn write_phase_faults_leave_no_partial_state() {
    for op in [OP_DELETE_INVITATION, OP_INSERT_USER, OP_INSERT_AUTHENTICATION, OP_COMMIT] {
        let mut store = store_with(&[("bob", "xyz")]);
        let result = perform_signup_flow_with_faults(
            &mut store,
            form("bob", "hunter2", "bob@example.com", "xyz"),
            Some(op),
        );
        assert_eq!(result, Err(SignupFlowErrors::StorageFailure), "fault at op {op}");
        assert_eq!(store.allocated_users.len(), 1, "fault at op {op}: invitation must survive");
        assert_eq!(store.allocated_users[0].username, "bob");
        assert_eq!(store.allocated_users[0].secret, "xyz");
        assert!(store.users.is_empty(), "fault at op {op}: no user may be written");
        assert!(store.authentications.is_empty(), "fault at op {op}: no credentials may be written");
    }
}

#[test]
fn fault_after_write_phase_does_not_block_commit() {
    let mut store = store_with(&[("bob", "xyz")]);
    let result = perform_signup_flow_with_faults(
        &mut store,
        form("bob", "hunter2", "bob@example.com", "xyz"),
        Some(OP_COMMIT + 1),
    );
    assert!(result.is_ok());
    assert_eq!(store.users.len(), 1);
}

#[test]
fn missing_invitation_is_reported_before_any_write_fault() {
    let mut store = Datastore::new();
    let result = perform_signup_flow_with_faults(
        &mut store,
        form("carol", "pw", "c@example.com", "nope"),
        Some(OP_DELETE_INVITATION),
    );
    assert_eq!(result, Err(SignupFlowErrors::UserNotAllocated));
}

#[test]
fn check_user_allocation_matches_on_both_fields() {
    let store = store_with(&[("alice", "s3cr3t"), ("bob", "xyz")]);

    let hit = check_user_allocation(
        &store,
        AllocatedUser { username: "alice".to_owned(), secret: "s3cr3t".to_owned() },
    );
    let row = hit.expect("exact pair must match");
    assert_eq!(row.username, "alice");
    assert_eq!(row.secret, "s3cr3t");

    let wrong_secret = check_user_allocation(
        &store,
        AllocatedUser { username: "alice".to_owned(), secret: "xyz".to_owned() },
    );
    assert!(wrong_secret.is_none(), "another row's secret must not match alice");

    let unknown = check_user_allocation(
        &store,
        AllocatedUser { username: "carol".to_owned(), secret: "s3cr3t".to_owned() },
    );
    assert!(unknown.is_none());
}

#[test]
fn empty_username_and_secret_are_legal() {
    let mut store = store_with(&[("", "")]);
    let result = perform_signup_flow(&mut store, form("", "pw", "", ""));
    assert!(result.is_ok(), "no format constraint is enforced on the fields");
    assert_eq!(store.users.len(), 1);
    assert_eq!(store.users[0].username, "");
}

#[test]
fn removal_deletes_every_matching_row() {
    let store = store_with(&[("alice", "s3cr3t"), ("bob", "xyz"), ("alice", "s3cr3t")]);
    let mut tx = store.begin(None);
    let removed = remove_allocated_user(
        &store,
        &mut tx,
        AllocatedUser { username: "alice".to_owned(), secret: "s3cr3t".to_owned() },
    );
    assert!(removed.is_ok());
    let mut store = store;
    assert!(tx.commit(&mut store).is_ok());
    assert_eq!(store.allocated_users.len(), 1);
    assert_eq!(store.allocated_users[0].username, "bob");
}

#[test]
fn removal_of_absent_pair_aborts_as_not_allocated() {
    let store = store_with(&[("alice", "s3cr3t")]);
    let mut tx = store.begin(None);
    let removed = remove_allocated_user(
        &store,
        &mut tx,
        AllocatedUser { username: "alice".to_owned(), secret: "other".to_owned() },
    );
    assert_eq!(removed, Err(SignupFlowErrors::UserNotAllocated));
}

#[test]
fn duplicate_user_id_violates_the_primary_key() {
    let mut store = store_with(&[("bob", "xyz")]);
    assert!(perform_signup_flow(&mut store, form("bob", "pw", "b@example.com", "xyz")).is_ok());
    let taken_id = store.users[0].id.clone();

    let mut tx = store.begin(None);
    let clash = insert_user_into_db(
        hrefsurf::models::User {
            id: taken_id.clone(),
            username: "eve".to_owned(),
            email: "e@example.com".to_owned(),
            description: String::new(),
            created: 0,
        },
        &store,
        &mut tx,
    );
    assert_eq!(clash, Err(SignupFlowErrors::StorageFailure));

    let auth_clash = insert_user_authentication_details_into_db(
        &store,
        &mut tx,
        hrefsurf::models::AuthenticatedUserRecord {
            user_id: taken_id,
            pass_hash: "h".to_owned(),
            salt: "s".to_owned(),
            stale: false,
            updated: 0,
        },
    );
    assert_eq!(auth_clash, Err(SignupFlowErrors::StorageFailure));
}

#[test]
fn two_signups_get_distinct_ids() {
    let mut store = store_with(&[("bob", "xyz"), ("dana", "abc")]);
    assert!(perform_signup_flow(&mut store, form("bob", "pw1", "b@example.com", "xyz")).is_ok());
    assert!(perform_signup_flow(&mut store, form("dana", "pw2", "d@example.com", "abc")).is_ok());
    assert_eq!(store.users.len(), 2);
    assert_ne!(store.users[0].id, store.users[1].id);
    assert_eq!(store.authentications.len(), 2);
    assert_eq!(store.authentications[0].user_id, store.users[0].id);
    assert_eq!(store.authentications[1].user_id, store.users[1].id);
}

#[test]
fn error_messages_are_fixed_per_kind() {
    assert_eq!(
        SignupFlowErrors::UserNotAllocated.message(),
        "You haven't been invited to use hrefsurf yet, or you provided an incorrect username/secret. We cannot specify more for security reasons."
    );
    assert_eq!(
        SignupFlowErrors::HashingFailure.message(),
        "Your password could not be processed. Please try again later."
    );
    assert_eq!(
        SignupFlowErrors::StorageFailure.message(),
        "Signup could not be completed. Please try again later."
    );
}

#[test]
fn every_failure_renders_the_form_again() {
    assert_eq!(signup_response(&Ok(())), SignupResponse::RedirectToLanding);
    assert_eq!(
        signup_response(&Err(SignupFlowErrors::UserNotAllocated)),
        SignupResponse::RenderSignupForm
    );
    assert_eq!(
        signup_response(&Err(SignupFlowErrors::HashingFailure)),
        SignupResponse::RenderSignupForm
    );
    assert_eq!(
        signup_response(&Err(SignupFlowErrors::StorageFailure)),
        SignupResponse::RenderSignupForm
    );
}
