//! Who a session belongs to.

use vstd::prelude::*;

verus! {

/// The identity backend that vouched for a user. The registries store and
/// return it; they never act on it.
#[derive(Debug, Clone, Copy, PartialEq, Eq, Structural)]
pub enum AuthSystem {
    Internal,
    ElyBy,
    Mojang,
}

/// A resolved user: the name claimed at the join request, the identifier the
/// identity backend gave for it, and the backend itself.
#[derive(Debug, Clone, PartialEq, Eq)]
pub struct Userinfo {
    pub username: String,
    pub uuid: u128,
    pub auth_system: AuthSystem,
}

/// The mathematical value of a [`Userinfo`].
pub struct UserIdentity {
    pub username: Seq<char>,
    pub uuid: u128,
    pub auth_system: AuthSystem,
}

impl View for Userinfo {
    type V = UserIdentity;

    open spec fn view(&self) -> UserIdentity {
        UserIdentity { username: self.username@, uuid: self.uuid, auth_system: self.auth_system }
    }
}

/// What the identity backend answers for a confirmed join.
#[derive(Debug, Clone, Copy, PartialEq, Eq, Structural)]
pub struct Resolution {
    pub uuid: u128,
    pub auth_system: AuthSystem,
}

impl Userinfo {
    /// The identity of `username` as the backend resolved it.
    pub open spec fn assemble(username: Seq<char>, resolution: Resolution) -> UserIdentity {
        UserIdentity { username, uuid: resolution.uuid, auth_system: resolution.auth_system }
    }

    /// Builds the identity of `username` from the backend's answer.
    pub fn new(username: String, resolution: Resolution) -> (user: Userinfo)
        ensures
            user@ == Self::assemble(username@, resolution),
    {
        Userinfo { username, uuid: resolution.uuid, auth_system: resolution.auth_system }
    }

    /// An independent copy with the same value.
    pub fn duplicate(&self) -> (copy: Userinfo)
        ensures
            copy@ == self@,
    {
        Userinfo {
            username: self.username.clone(),
            uuid: self.uuid,
            auth_system: self.auth_system,
        }
    }
}

} // verus!
