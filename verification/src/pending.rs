//! Joins that were requested and not yet confirmed.

use crate::dash::{pending_contains, pending_entries, pending_insert, pending_len, pending_new, pending_remove};
use crate::error::Rejection;
use dashmap::DashMap;
use vstd::prelude::*;

verus! {

/// Maps each session hash of a requested join to the username it claims.
#[derive(Debug)]
pub struct PendingRegistry {
    entries: DashMap<String, String>,
}

impl View for PendingRegistry {
    type V = Map<Seq<char>, Seq<char>>;

    closed spec fn view(&self) -> Map<Seq<char>, Seq<char>> {
        pending_entries(self.entries)
    }
}

impl PendingRegistry {
    /// A registry is well formed when it holds finitely many entries.
    pub open spec fn wf(&self) -> bool {
        self@.dom().finite()
    }

    /// A registry without entries.
    pub fn new() -> (registry: PendingRegistry)
        ensures
            registry.wf(),
            registry@ == Map::<Seq<char>, Seq<char>>::empty(),
    {
        PendingRegistry { entries: pending_new() }
    }

    /// Records that `session_hash` claims `username`. A hash that is already
    /// pending is a retry by the client: the later claim replaces the
    /// earlier one. Several hashes may claim one name.
    pub fn begin_join(&mut self, session_hash: String, username: String)
        requires
            old(self).wf(),
        ensures
            final(self).wf(),
            final(self)@ == old(self)@.insert(session_hash@, username@),
    {
        pending_insert(&mut self.entries, session_hash, username);
    }

    /// Reads and removes the entry of `session_hash` in one step, so that of
    /// any number of confirmations of one hash only the first finds it.
    pub fn take_pending(&mut self, session_hash: &str) -> (taken: Result<String, Rejection>)
        requires
            old(self).wf(),
        ensures
            final(self).wf(),
            final(self)@ == old(self)@.remove(session_hash@),
            match taken {
                Ok(username) => old(self)@.contains_key(session_hash@)
                    && username@ == old(self)@[session_hash@],
                Err(rejection) => rejection == Rejection::NotFound
                    && !old(self)@.contains_key(session_hash@),
            },
    {
        match pending_remove(&mut self.entries, session_hash) {
            Some(username) => Ok(username),
            None => Err(Rejection::NotFound),
        }
    }

    /// Whether a join under `session_hash` awaits confirmation.
    pub fn is_pending(&self, session_hash: &str) -> (pending: bool)
        ensures
            pending == self@.contains_key(session_hash@),
    {
        pending_contains(&self.entries, session_hash)
    }

    /// The number of joins that await confirmation.
    pub fn len(&self) -> (count: usize)
        ensures
            count == self@.len(),
    {
        pending_len(&self.entries)
    }
}

} // verus!
