//! The data model of the provisioning core.
//!
//! Timestamps are carried as microseconds since the Unix epoch, UTC; user
//! identifiers are carried as their canonical hyphenated string form.  Each
//! executable record type has a ghost view so that contracts can speak of
//! the records as plain mathematical values.

use vstd::prelude::*;

verus! {

/// An invitation: pre-authorization for a specific username to sign up.
///
/// The secret is stored in the clear on purpose: it is short-lived and only
/// gates the one-time signup, it protects nothing after that.  An
/// invitation is valid for exactly one successful signup; consuming it
/// removes it so it cannot be replayed.
pub struct AllocatedUser {
    pub username: String,
    pub secret: String,
}

/// Ghost image of an [`AllocatedUser`] row.
pub ghost struct InvitationV {
    pub username: Seq<char>,
    pub secret: Seq<char>,
}

impl View for AllocatedUser {
    type V = InvitationV;

    open spec fn view(&self) -> InvitationV {
        InvitationV { username: self.username@, secret: self.secret@ }
    }
}

impl Clone for AllocatedUser {
    fn clone(&self) -> (r: AllocatedUser)
        ensures
            r@ == self@,
    {
        AllocatedUser { username: self.username.clone(), secret: self.secret.clone() }
    }
}

/// The durable account record.
pub struct User {
    /// Globally unique identifier, generated at creation, immutable.
    pub id: String,
    /// Must equal the consumed invitation's username.
    pub username: String,
    /// Caller-supplied; deliberately not validated here (known gap, kept).
    pub email: String,
    /// Defaults to the empty string at signup.
    pub description: String,
    /// Creation time, microseconds since the Unix epoch, UTC.
    pub created: i64,
}

/// Ghost image of a [`User`] row.
pub ghost struct UserV {
    pub id: Seq<char>,
    pub username: Seq<char>,
    pub email: Seq<char>,
    pub description: Seq<char>,
    pub created: int,
}

impl View for User {
    type V = UserV;

    open spec fn view(&self) -> UserV {
        UserV {
            id: self.id@,
            username: self.username@,
            email: self.email@,
            description: self.description@,
            created: self.created as int,
        }
    }
}

/// Credential material for a user: exclusive 1:1 ownership keyed by
/// `user_id`.
pub struct AuthenticatedUserRecord {
    /// References the owning [`User`]'s id; at most one live record per id.
    pub user_id: String,
    /// Salted password hash, self-describing encoded string.
    pub pass_hash: String,
    /// The salt, as its own encoded string.
    pub salt: String,
    /// Signals a hash in need of rotation; false at creation.
    pub stale: bool,
    /// Last update time, microseconds since the Unix epoch, UTC.
    pub updated: i64,
}

/// Ghost image of an [`AuthenticatedUserRecord`] row.
pub ghost struct AuthRecordV {
    pub user_id: Seq<char>,
    pub pass_hash: Seq<char>,
    pub salt: Seq<char>,
    pub stale: bool,
    pub updated: int,
}

impl View for AuthenticatedUserRecord {
    type V = AuthRecordV;

    open spec fn view(&self) -> AuthRecordV {
        AuthRecordV {
            user_id: self.user_id@,
            pass_hash: self.pass_hash@,
            salt: self.salt@,
            stale: self.stale,
            updated: self.updated as int,
        }
    }
}

/// A deserialized signup submission, as the HTTP layer hands it over.
pub struct SignupFormDetails {
    pub username: String,
    pub password: String,
    pub email: String,
    pub secret: String,
}

/// Ghost image of a signup submission.
pub ghost struct SignupFormV {
    pub username: Seq<char>,
    pub password: Seq<char>,
    pub email: Seq<char>,
    pub secret: Seq<char>,
}

impl View for SignupFormDetails {
    type V = SignupFormV;

    open spec fn view(&self) -> SignupFormV {
        SignupFormV {
            username: self.username@,
            password: self.password@,
            email: self.email@,
            secret: self.secret@,
        }
    }
}

/// A freshly produced password hash together with the salt that was used,
/// both as self-describing encoded strings.
pub struct HashedPasswordRecord {
    pub hash: String,
    pub salt: String,
}

} // verus!
