//! The ways in which a request is turned away.

use vstd::prelude::*;

verus! {

/// Why the session core turned a request away.
#[derive(Debug, Clone, Copy, PartialEq, Eq, Structural)]
pub enum Rejection {
    /// A registry holds no entry for the session hash.
    NotFound,
    /// The bearer token is missing, empty, or not that of an authenticated
    /// session; or a join could not be confirmed.
    Unauthorized,
    /// The session hash is already in use by an authenticated session.
    Conflict,
}

/// The identity backend could not vouch for a join.
#[derive(Debug, Clone, Copy, PartialEq, Eq, Structural)]
pub struct IdentityError;

/// The configuration source could not produce a snapshot.
#[derive(Debug, Clone, Copy, PartialEq, Eq, Structural)]
pub enum ConfigError {
    Unreadable,
    Unparsable,
}

} // verus!
