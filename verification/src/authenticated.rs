//! Sessions whose join was confirmed. Their hashes are bearer tokens.

use crate::dash::{identity_entries, identity_get, identity_insert, identity_len, identity_new, identity_remove};
use crate::error::Rejection;
use crate::identity::{UserIdentity, Userinfo};
use dashmap::DashMap;
use vstd::prelude::*;

verus! {

/// Maps each session hash of a confirmed join to the identity behind it.
#[derive(Debug)]
pub struct AuthenticatedRegistry {
    entries: DashMap<String, Userinfo>,
}

impl View for AuthenticatedRegistry {
    type V = Map<Seq<char>, UserIdentity>;

    closed spec fn view(&self) -> Map<Seq<char>, UserIdentity> {
        identity_entries(self.entries)
    }
}

impl AuthenticatedRegistry {
    /// A registry is well formed when it holds finitely many entries.
    pub open spec fn wf(&self) -> bool {
        self@.dom().finite()
    }

    /// A registry without entries.
    pub fn new() -> (registry: AuthenticatedRegistry)
        ensures
            registry.wf(),
            registry@ == Map::<Seq<char>, UserIdentity>::empty(),
    {
        AuthenticatedRegistry { entries: identity_new() }
    }

    /// Makes `session_hash` the token of `identity`. Promoting a hash again
    /// replaces the identity it stood for.
    pub fn promote(&mut self, session_hash: String, identity: Userinfo)
        requires
            old(self).wf(),
        ensures
            final(self).wf(),
            final(self)@ == old(self)@.insert(session_hash@, identity@),
    {
        identity_insert(&mut self.entries, session_hash, identity);
    }

    /// The identity that `session_hash` stands for. The registry is not
    /// touched: using a session does not extend it.
    pub fn resolve(&self, session_hash: &str) -> (resolved: Result<Userinfo, Rejection>)
        ensures
            match resolved {
                Ok(identity) => self@.contains_key(session_hash@)
                    && identity@ == self@[session_hash@],
                Err(rejection) => rejection == Rejection::NotFound
                    && !self@.contains_key(session_hash@),
            },
    {
        match identity_get(&self.entries, session_hash) {
            Some(identity) => Ok(identity),
            None => Err(Rejection::NotFound),
        }
    }

    /// Ends the session of `session_hash`. A hash without a session is left
    /// as it is; that is no error.
    pub fn revoke(&mut self, session_hash: &str)
        requires
            old(self).wf(),
        ensures
            final(self).wf(),
            final(self)@ == old(self)@.remove(session_hash@),
    {
        identity_remove(&mut self.entries, session_hash);
    }

    /// The number of authenticated sessions.
    pub fn len(&self) -> (count: usize)
        ensures
            count == self@.len(),
    {
        identity_len(&self.entries)
    }
}

} // verus!
