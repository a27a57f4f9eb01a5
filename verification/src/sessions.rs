//! The handshake as mathematics: the two session registries as maps, and
//! what each operation of the handshake makes of them.

use crate::error::{IdentityError, Rejection};
use crate::identity::{Resolution, UserIdentity, Userinfo};
use vstd::prelude::*;

verus! {

/// The two session registries at one instant.
pub struct Sessions {
    /// Session hash to claimed username, for joins awaiting confirmation.
    pub pending: Map<Seq<char>, Seq<char>>,
    /// Session hash to identity, for confirmed joins.
    pub authenticated: Map<Seq<char>, UserIdentity>,
}

impl Sessions {
    /// No session hash is pending and authenticated at once.
    pub open spec fn exclusive(self) -> bool {
        forall|h: Seq<char>|
            !(#[trigger] self.pending.contains_key(h) && self.authenticated.contains_key(h))
    }

    /// A join request under `h` is answered with a conflict when `h` is the
    /// token of an authenticated session, and accepted otherwise.
    pub open spec fn begin_join_verdict(self, h: Seq<char>) -> Result<(), Rejection> {
        if self.authenticated.contains_key(h) {
            Err(Rejection::Conflict)
        } else {
            Ok(())
        }
    }

    /// The registries after a join request: an accepted one records the
    /// claim, over any earlier claim under the same hash.
    pub open spec fn begin_join(self, h: Seq<char>, username: Seq<char>) -> Sessions {
        if self.authenticated.contains_key(h) {
            self
        } else {
            Sessions { pending: self.pending.insert(h, username), ..self }
        }
    }

    /// The registries after the pending entry of `h` was taken.
    pub open spec fn take_pending(self, h: Seq<char>) -> Sessions {
        Sessions { pending: self.pending.remove(h), ..self }
    }

    /// The registries after `h` became the token of `identity`.
    pub open spec fn promote(self, h: Seq<char>, identity: UserIdentity) -> Sessions {
        Sessions { authenticated: self.authenticated.insert(h, identity), ..self }
    }

    /// The registries after the session of `h` was ended.
    pub open spec fn revoke(self, h: Seq<char>) -> Sessions {
        Sessions { authenticated: self.authenticated.remove(h), ..self }
    }

    /// A confirmation of `h` yields the identity of the name that `h`
    /// claimed, as the backend resolved it; it is unauthorized when no join
    /// under `h` is pending or the backend did not vouch for it.
    pub open spec fn confirm_join_verdict(
        self,
        h: Seq<char>,
        outcome: Result<Resolution, IdentityError>,
    ) -> Result<UserIdentity, Rejection> {
        match outcome {
            Ok(resolution) if self.pending.contains_key(h) => Ok(
                Userinfo::assemble(self.pending[h], resolution),
            ),
            _ => Err(Rejection::Unauthorized),
        }
    }

    /// The registries after a confirmation of `h`: the pending entry is used
    /// up whatever the backend said, and a resolved identity is promoted.
    pub open spec fn confirm_join(
        self,
        h: Seq<char>,
        outcome: Result<Resolution, IdentityError>,
    ) -> Sessions {
        match self.confirm_join_verdict(h, outcome) {
            Ok(identity) => self.take_pending(h).promote(h, identity),
            Err(_) => self.take_pending(h),
        }
    }

    /// The answer to a bearer token: the identity it stands for
    /// when it is present, not empty, and the hash of an authenticated
    /// session; unauthorized in every other case, with no word on which.
    pub open spec fn access(self, token: Option<Seq<char>>) -> Result<UserIdentity, Rejection> {
        match token {
            Some(t) if t.len() > 0 && self.authenticated.contains_key(t) => Ok(
                self.authenticated[t],
            ),
            _ => Err(Rejection::Unauthorized),
        }
    }
}

/// A session hash is never pending and authenticated at once: each
/// operation of the handshake takes registries of which this holds to
/// registries of which it holds. A promotion does so when the pending entry
/// of the hash was taken before, as its callers must.
pub proof fn handshake_keeps_exclusive(
    s: Sessions,
    h: Seq<char>,
    username: Seq<char>,
    identity: UserIdentity,
    outcome: Result<Resolution, IdentityError>,
)
    requires
        s.exclusive(),
    ensures
        s.begin_join(h, username).exclusive(),
        s.take_pending(h).exclusive(),
        !s.pending.contains_key(h) ==> s.promote(h, identity).exclusive(),
        s.confirm_join(h, outcome).exclusive(),
        s.revoke(h).exclusive(),
{
    assert forall|k: Seq<char>|
        !(#[trigger] s.begin_join(h, username).pending.contains_key(k) && s.begin_join(
            h,
            username,
        ).authenticated.contains_key(k)) by {
        assert(!(s.pending.contains_key(k) && s.authenticated.contains_key(k)));
    }
    assert forall|k: Seq<char>|
        !(#[trigger] s.take_pending(h).pending.contains_key(k) && s.take_pending(
            h,
        ).authenticated.contains_key(k)) by {
        assert(!(s.pending.contains_key(k) && s.authenticated.contains_key(k)));
    }
    if !s.pending.contains_key(h) {
        assert forall|k: Seq<char>|
            !(#[trigger] s.promote(h, identity).pending.contains_key(k) && s.promote(
                h,
                identity,
            ).authenticated.contains_key(k)) by {
            assert(!(s.pending.contains_key(k) && s.authenticated.contains_key(k)));
        }
    }
    assert forall|k: Seq<char>|
        !(#[trigger] s.confirm_join(h, outcome).pending.contains_key(k) && s.confirm_join(
            h,
            outcome,
        ).authenticated.contains_key(k)) by {
        assert(!(s.pending.contains_key(k) && s.authenticated.contains_key(k)));
    }
    assert forall|k: Seq<char>|
        !(#[trigger] s.revoke(h).pending.contains_key(k) && s.revoke(h).authenticated.contains_key(
            k,
        )) by {
        assert(!(s.pending.contains_key(k) && s.authenticated.contains_key(k)));
    }
}

/// A join is confirmed at most once. Whatever a first confirmation of `h`
/// came to, a second one is unauthorized, and it leaves the registries as
/// the first left them.
pub proof fn confirm_join_succeeds_once(
    s: Sessions,
    h: Seq<char>,
    first: Result<Resolution, IdentityError>,
    second: Result<Resolution, IdentityError>,
)
    ensures
        s.confirm_join(h, first).confirm_join_verdict(h, second) == Err::<UserIdentity, Rejection>(
            Rejection::Unauthorized,
        ),
        s.confirm_join(h, first).confirm_join(h, second) == s.confirm_join(h, first),
{
    let once = s.confirm_join(h, first);
    assert(!once.pending.contains_key(h));
    assert(once.pending.remove(h) =~= once.pending);
}

/// A valid token keeps its identity. While `token` is the hash of an
/// authenticated session, no join request, no taking of a pending entry, no
/// confirmation, and no revocation of another hash changes the answer to
/// it.
pub proof fn access_is_stable(
    s: Sessions,
    token: Seq<char>,
    h: Seq<char>,
    username: Seq<char>,
    outcome: Result<Resolution, IdentityError>,
)
    requires
        s.exclusive(),
        s.access(Some(token)) is Ok,
    ensures
        s.begin_join(h, username).access(Some(token)) == s.access(Some(token)),
        s.take_pending(h).access(Some(token)) == s.access(Some(token)),
        s.confirm_join(h, outcome).access(Some(token)) == s.access(Some(token)),
        h != token ==> s.revoke(h).access(Some(token)) == s.access(Some(token)),
{
    assert(!(s.pending.contains_key(token) && s.authenticated.contains_key(token)));
}

/// After its session was revoked a token is unauthorized, as is a request
/// without a token or with an empty one at any time.
pub proof fn access_ends_with_revoke(s: Sessions, token: Seq<char>)
    ensures
        s.revoke(token).access(Some(token)) == Err::<UserIdentity, Rejection>(
            Rejection::Unauthorized,
        ),
        s.access(None) == Err::<UserIdentity, Rejection>(Rejection::Unauthorized),
        s.access(Some(Seq::<char>::empty())) == Err::<UserIdentity, Rejection>(
            Rejection::Unauthorized,
        ),
{
}

/// A confirmed join grants access. When a join under `h` is pending and
/// the backend resolves it, the confirmation returns the identity of the
/// claimed name, and from then on the token `h`, if it is not empty, is
/// answered with that identity.
pub proof fn confirmed_join_grants_access(
    s: Sessions,
    h: Seq<char>,
    resolution: Resolution,
)
    requires
        s.pending.contains_key(h),
    ensures
        s.confirm_join_verdict(h, Ok(resolution)) == Ok::<UserIdentity, Rejection>(
            Userinfo::assemble(s.pending[h], resolution),
        ),
        h.len() > 0 ==> s.confirm_join(h, Ok(resolution)).access(Some(h)) == s.confirm_join_verdict(
            h,
            Ok(resolution),
        ),
{
}

} // verus!
