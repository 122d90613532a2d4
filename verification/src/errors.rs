//! The error taxonomy of the signup flow.
//!
//! The three kinds are kept distinct internally (for logging and for
//! callers that need to react), even though the user-facing message stays
//! deliberately vague: revealing whether a username exists would let an
//! attacker enumerate the invitation table.

use vstd::prelude::*;

verus! {

/// Why a signup attempt failed.
#[derive(Clone, Copy, Debug, PartialEq, Eq, Structural)]
pub enum SignupFlowErrors {
    /// No invitation matches the submitted username/secret pair.  A single
    /// kind deliberately covers both "unknown username" and "wrong secret",
    /// so the two are indistinguishable from the outside.
    UserNotAllocated,
    /// The password hashing primitive failed.
    HashingFailure,
    /// The datastore failed during the write phase (constraint violation,
    /// lost connection, failed commit).
    StorageFailure,
}

impl SignupFlowErrors {
    /// The user-facing description.  The not-allocated message names no
    /// specific field, on purpose.
    pub fn message(&self) -> (r: String)
        ensures
            self is UserNotAllocated ==> r@ == "You haven't been invited to use hrefsurf yet, or you provided an incorrect username/secret. We cannot specify more for security reasons."@,
            self is HashingFailure ==> r@ == "Your password could not be processed. Please try again later."@,
            self is StorageFailure ==> r@ == "Signup could not be completed. Please try again later."@,
    {
        match self {
            SignupFlowErrors::UserNotAllocated => "You haven't been invited to use hrefsurf yet, or you provided an incorrect username/secret. We cannot specify more for security reasons.".to_owned(),
            SignupFlowErrors::HashingFailure => "Your password could not be processed. Please try again later.".to_owned(),
            SignupFlowErrors::StorageFailure => "Signup could not be completed. Please try again later.".to_owned(),
        }
    }
}

} // verus!
