//! Verified core of the hrefsurf signup provisioning service.
//!
//! An administrator allocates an invitation (a username together with a
//! shared secret) ahead of time.  A signup submission is accepted exactly
//! when it presents a matching invitation; accepting it consumes the
//! invitation and creates the user record and its authentication record in
//! one atomic step, so the store never holds a consumed invitation without
//! the account, nor an account without its credentials.

pub mod errors;
pub mod hashing;
pub mod models;
pub mod signup;
pub mod store;
