//! The state that every request works on, and the handshake over it.

use crate::authenticated::AuthenticatedRegistry;
use crate::broadcast::BroadcastRegistry;
use crate::config::ConfigSnapshot;
use crate::error::{IdentityError, Rejection};
use crate::identity::{Resolution, UserIdentity, Userinfo};
use crate::pending::PendingRegistry;
use crate::sessions::{handshake_keeps_exclusive, Sessions};
use vstd::prelude::*;

verus! {

/// The registries and the configuration snapshot that the whole process
/// shares.
#[derive(Debug)]
pub struct AppState {
    /// Joins that were requested and not yet confirmed.
    pub pending: PendingRegistry,
    /// Confirmed joins; their hashes are bearer tokens.
    pub authenticated: AuthenticatedRegistry,
    /// The channels of the open live connections.
    pub broadcasts: BroadcastRegistry,
    /// The configuration snapshot in force.
    pub advanced_users: ConfigSnapshot,
}

/// The bearer token of a request, as mathematics.
pub open spec fn token_view(token: Option<&str>) -> Option<Seq<char>> {
    match token {
        Some(t) => Some(t@),
        None => None,
    }
}

/// An identity as mathematics, or the rejection that stands in its place.
pub open spec fn verdict_view(verdict: Result<Userinfo, Rejection>) -> Result<
    UserIdentity,
    Rejection,
> {
    match verdict {
        Ok(identity) => Ok(identity@),
        Err(rejection) => Err(rejection),
    }
}

impl AppState {
    /// The two session registries as maps.
    pub open spec fn sessions(&self) -> Sessions {
        Sessions { pending: self.pending@, authenticated: self.authenticated@ }
    }

    /// The state is sound when each part is well formed and no session hash
    /// is pending and authenticated at once.
    pub open spec fn inv(&self) -> bool {
        &&& self.pending.wf()
        &&& self.authenticated.wf()
        &&& self.broadcasts.wf()
        &&& self.advanced_users.wf()
        &&& self.sessions().exclusive()
    }

    /// Whether two states differ in their session registries at most.
    pub open spec fn same_surroundings(&self, other: &AppState) -> bool {
        &&& self.broadcasts == other.broadcasts
        &&& self.advanced_users == other.advanced_users
    }

    /// The state of a process that has just started: no session, no live
    /// connection, and the configuration it was started with.
    pub fn new(advanced_users: ConfigSnapshot) -> (state: AppState)
        requires
            advanced_users.wf(),
        ensures
            state.inv(),
            state.pending@ == Map::<Seq<char>, Seq<char>>::empty(),
            state.authenticated@ == Map::<Seq<char>, UserIdentity>::empty(),
            state.broadcasts@ == Set::<u128>::empty(),
            state.advanced_users == advanced_users,
    {
        AppState {
            pending: PendingRegistry::new(),
            authenticated: AuthenticatedRegistry::new(),
            broadcasts: BroadcastRegistry::new(),
            advanced_users,
        }
    }

    /// A join request: `session_hash` claims `username`.
    ///
    /// A hash that is the token of an authenticated session cannot start a
    /// new handshake: the request is a conflict and changes nothing. Any
    /// other request is accepted and recorded, over an earlier claim under
    /// the same hash if there is one.
    pub fn begin_join(&mut self, session_hash: String, username: String) -> (verdict: Result<(), Rejection>)
        requires
            old(self).inv(),
        ensures
            final(self).inv(),
            final(self).same_surroundings(old(self)),
            verdict == old(self).sessions().begin_join_verdict(session_hash@),
            final(self).sessions() == old(self).sessions().begin_join(session_hash@, username@),
    {
        proof {
            handshake_keeps_exclusive(
                self.sessions(),
                session_hash@,
                username@,
                arbitrary(),
                arbitrary(),
            );
        }
        match self.authenticated.resolve(session_hash.as_str()) {
            Ok(_) => Err(Rejection::Conflict),
            Err(_) => {
                self.pending.begin_join(session_hash, username);
                Ok(())
            },
        }
    }

    /// First half of a confirmation: takes the pending entry of
    /// `session_hash` and returns the username it claimed, for the identity
    /// backend to resolve. Of several confirmations of one hash only the
    /// first gets the name.
    pub fn take_pending(&mut self, session_hash: &str) -> (taken: Result<String, Rejection>)
        requires
            old(self).inv(),
        ensures
            final(self).inv(),
            final(self).same_surroundings(old(self)),
            final(self).sessions() == old(self).sessions().take_pending(session_hash@),
            match taken {
                Ok(username) => old(self).pending@.contains_key(session_hash@)
                    && username@ == old(self).pending@[session_hash@],
                Err(rejection) => rejection == Rejection::NotFound
                    && !old(self).pending@.contains_key(session_hash@),
            },
    {
        proof {
            handshake_keeps_exclusive(
                self.sessions(),
                session_hash@,
                arbitrary(),
                arbitrary(),
                arbitrary(),
            );
        }
        self.pending.take_pending(session_hash)
    }

    /// Makes `session_hash` the token of `identity`. The caller has taken the
    /// pending entry of the hash before.
    pub fn promote(&mut self, session_hash: String, identity: Userinfo)
        requires
            old(self).inv(),
            !old(self).pending@.contains_key(session_hash@),
        ensures
            final(self).inv(),
            final(self).same_surroundings(old(self)),
            final(self).sessions() == old(self).sessions().promote(session_hash@, identity@),
    {
        proof {
            handshake_keeps_exclusive(
                self.sessions(),
                session_hash@,
                arbitrary(),
                identity@,
                arbitrary(),
            );
        }
        self.authenticated.promote(session_hash, identity);
    }

    /// Second half of a confirmation: given the username that `take_pending`
    /// returned and what the identity backend made of it, promotes the
    /// resolved identity and returns it, or reports the join unauthorized
    /// and changes nothing.
    pub fn complete_join(
        &mut self,
        session_hash: String,
        username: String,
        outcome: Result<Resolution, IdentityError>,
    ) -> (verdict: Result<Userinfo, Rejection>)
        requires
            old(self).inv(),
            !old(self).pending@.contains_key(session_hash@),
        ensures
            final(self).inv(),
            final(self).same_surroundings(old(self)),
            match outcome {
                Ok(resolution) => verdict_view(verdict) == Ok::<UserIdentity, Rejection>(
                    Userinfo::assemble(username@, resolution),
                ) && final(self).sessions() == old(self).sessions().promote(
                    session_hash@,
                    Userinfo::assemble(username@, resolution),
                ),
                Err(_) => verdict_view(verdict) == Err::<UserIdentity, Rejection>(
                    Rejection::Unauthorized,
                ) && final(self).sessions() == old(self).sessions(),
            },
    {
        match outcome {
            Ok(resolution) => {
                let identity = Userinfo::new(username, resolution);
                self.promote(session_hash, identity.duplicate());
                Ok(identity)
            },
            Err(_) => Err(Rejection::Unauthorized),
        }
    }

    /// A join confirmation, given what the identity backend says of the
    /// join.
    ///
    /// The pending entry of `session_hash` is used up whatever the backend
    /// said. With an entry and a resolved identity the session is
    /// authenticated and the identity returned; without either the
    /// confirmation is unauthorized, and a hash that is already
    /// authenticated keeps the identity it has.
    pub fn confirm_join(&mut self, session_hash: String, outcome: Result<Resolution, IdentityError>) -> (verdict: Result<Userinfo, Rejection>)
        requires
            old(self).inv(),
        ensures
            final(self).inv(),
            final(self).same_surroundings(old(self)),
            verdict_view(verdict) == old(self).sessions().confirm_join_verdict(session_hash@, outcome),
            final(self).sessions() == old(self).sessions().confirm_join(session_hash@, outcome),
    {
        match self.take_pending(session_hash.as_str()) {
            Ok(username) => self.complete_join(session_hash, username, outcome),
            Err(_) => {
                assert(self.pending@ =~= old(self).pending@);
                Err(Rejection::Unauthorized)
            },
        }
    }

    /// The check before every protected request: the identity behind the
    /// bearer token, or unauthorized. The state is not touched, so a
    /// session is not extended by being used.
    pub fn check_access(&self, token: Option<&str>) -> (verdict: Result<Userinfo, Rejection>)
        ensures
            verdict_view(verdict) == self.sessions().access(token_view(token)),
    {
        match token {
            Some(presented) => {
                if presented.is_empty() {
                    Err(Rejection::Unauthorized)
                } else {
                    match self.authenticated.resolve(presented) {
                        Ok(identity) => Ok(identity),
                        Err(_) => Err(Rejection::Unauthorized),
                    }
                }
            },
            None => Err(Rejection::Unauthorized),
        }
    }

    /// Ends the session of `session_hash`, if it has one.
    pub fn revoke(&mut self, session_hash: &str)
        requires
            old(self).inv(),
        ensures
            final(self).inv(),
            final(self).same_surroundings(old(self)),
            final(self).sessions() == old(self).sessions().revoke(session_hash@),
    {
        proof {
            handshake_keeps_exclusive(
                self.sessions(),
                session_hash@,
                arbitrary(),
                arbitrary(),
                arbitrary(),
            );
        }
        self.authenticated.revoke(session_hash);
    }
}

} // verus!
