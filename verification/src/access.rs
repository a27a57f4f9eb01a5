//! The access check that every request passes before it reaches a handler.

use crate::error::Rejection;
use crate::identity::{UserIdentity, Userinfo};
use crate::sessions::Sessions;
use crate::state::{token_view, AppState};
use vstd::prelude::*;

verus! {

/// The routes that the gateway serves.
#[derive(Debug, Clone, Copy, PartialEq, Eq, Structural)]
pub enum Route {
    /// Health of the gateway.
    Status,
    /// First step of the handshake.
    JoinRequest,
    /// Second step of the handshake.
    JoinConfirm,
    Limits,
    Version,
    Motd,
    Equip,
    UserInfo,
    DownloadAvatar,
    UploadAvatar,
    DeleteAvatar,
    /// Upgrade to a live connection.
    LiveUpdates,
}

impl Route {
    /// The routes that need no token: the status route, which is public, and
    /// the two routes of the handshake, which a client calls before it can
    /// have a token.
    pub open spec fn exempt(self) -> bool {
        self == Route::Status || self == Route::JoinRequest || self == Route::JoinConfirm
    }

    /// Whether the route needs no token.
    pub fn is_exempt(self) -> (exempt: bool)
        ensures
            exempt == self.exempt(),
    {
        match self {
            Route::Status | Route::JoinRequest | Route::JoinConfirm => true,
            _ => false,
        }
    }
}

impl Sessions {
    /// What is decided for a request to `route` that carries `token`:
    /// an exempt route is let through with no identity, whatever it carries;
    /// any other route is let through with the identity behind its token, or
    /// turned away.
    pub open spec fn admission(self, route: Route, token: Option<Seq<char>>) -> Result<
        Option<UserIdentity>,
        Rejection,
    > {
        if route.exempt() {
            Ok(None)
        } else {
            match self.access(token) {
                Ok(identity) => Ok(Some(identity)),
                Err(rejection) => Err(rejection),
            }
        }
    }
}

/// The decision on a request as mathematics.
pub open spec fn admission_view(admission: Result<Option<Userinfo>, Rejection>) -> Result<
    Option<UserIdentity>,
    Rejection,
> {
    match admission {
        Ok(Some(identity)) => Ok(Some(identity@)),
        Ok(None) => Ok(None),
        Err(rejection) => Err(rejection),
    }
}

impl AppState {
    /// Decides whether a request to `route` that carries `token` may reach
    /// its handler, and on whose behalf. A request that is turned away has
    /// changed nothing.
    pub fn screen(&self, route: Route, token: Option<&str>) -> (admission: Result<Option<Userinfo>, Rejection>)
        ensures
            admission_view(admission) == self.sessions().admission(route, token_view(token)),
    {
        if route.is_exempt() {
            Ok(None)
        } else {
            match self.check_access(token) {
                Ok(identity) => Ok(Some(identity)),
                Err(rejection) => Err(rejection),
            }
        }
    }
}

/// A protected route is never reached without a valid token: when a request
/// to a route that is not exempt is let through, the request carried
/// a token that is not empty and is the hash of an authenticated session,
/// and the identity handed to the handler is that session's.
pub proof fn only_sessions_pass(s: Sessions, route: Route, token: Option<Seq<char>>)
    requires
        !route.exempt(),
        s.admission(route, token) is Ok,
    ensures
        token matches Some(t) && t.len() > 0 && s.authenticated.contains_key(t) && s.admission(
            route,
            token,
        ) == Ok::<Option<UserIdentity>, Rejection>(Some(s.authenticated[t])),
{
}

} // verus!
