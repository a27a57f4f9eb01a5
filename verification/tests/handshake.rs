use sculptor::authenticated::AuthenticatedRegistry;
use sculptor::config::ConfigSnapshot;
use sculptor::error::{IdentityError, Rejection};
use sculptor::identity::{AuthSystem, Resolution, Userinfo};
use sculptor::pending::PendingRegistry;
use sculptor::state::AppState;

fn fresh_state() -> AppState {
    AppState::new(ConfigSnapshot::new())
}

fn mojang(uuid: u128) -> Resolution {
    Resolution { uuid, auth_system: AuthSystem::Mojang }
}

fn alice() -> Userinfo {
    Userinfo {
        username: "Alice".to_string(),
        uuid: 0x0123_4567_89ab_4def_8123_4567_89ab_cdef,
        auth_system: AuthSystem::Mojang,
    }
}

#[test]
fn join_then_confirm_returns_identity_once() {
    let mut state = fresh_state();
    assert_eq!(state.begin_join("abc123".to_string(), "Alice".to_string()), Ok(()));
    let first = state.confirm_join("abc123".to_string(), Ok(mojang(alice().uuid)));
    assert_eq!(first, Ok(alice()));
    let second = state.confirm_join("abc123".to_string(), Ok(mojang(alice().uuid)));
    assert_eq!(second, Err(Rejection::Unauthorized));
    assert_eq!(state.check_access(Some("abc123")), Ok(alice()));
}

#[test]
fn access_is_refused_before_confirmation_and_granted_after() {
    let mut state = fresh_state();
    assert_eq!(state.check_access(Some("abc123")), Err(Rejection::Unauthorized));
    assert_eq!(state.begin_join("abc123".to_string(), "Alice".to_string()), Ok(()));
    assert_eq!(state.check_access(Some("abc123")), Err(Rejection::Unauthorized));
    assert_eq!(
        state.confirm_join("abc123".to_string(), Ok(mojang(alice().uuid))),
        Ok(alice())
    );
    assert_eq!(state.check_access(Some("abc123")), Ok(alice()));
}

#[test]
fn access_repeats_until_revoked() {
    let mut state = fresh_state();
    state.begin_join("tok".to_string(), "Alice".to_string()).unwrap();
    state.confirm_join("tok".to_string(), Ok(mojang(alice().uuid))).unwrap();
    for _ in 0..3 {
        assert_eq!(state.check_access(Some("tok")), Ok(alice()));
    }
    state.revoke("tok");
    assert_eq!(state.check_access(Some("tok")), Err(Rejection::Unauthorized));
    assert_eq!(state.check_access(Some("tok")), Err(Rejection::Unauthorized));
    assert_eq!(state.authenticated.len(), 0);
}

#[test]
fn access_survives_what_happens_to_other_hashes() {
    let mut state = fresh_state();
    state.begin_join("tok".to_string(), "Alice".to_string()).unwrap();
    state.confirm_join("tok".to_string(), Ok(mojang(alice().uuid))).unwrap();
    state.begin_join("other".to_string(), "Bob".to_string()).unwrap();
    assert_eq!(state.check_access(Some("tok")), Ok(alice()));
    state.confirm_join("other".to_string(), Ok(mojang(7))).unwrap();
    assert_eq!(state.check_access(Some("tok")), Ok(alice()));
    state.revoke("other");
    assert_eq!(state.check_access(Some("tok")), Ok(alice()));
    assert_eq!(state.begin_join("tok".to_string(), "Mallory".to_string()), Err(Rejection::Conflict));
    assert_eq!(state.confirm_join("tok".to_string(), Ok(mojang(9))), Err(Rejection::Unauthorized));
    assert_eq!(state.check_access(Some("tok")), Ok(alice()));
}

#[test]
fn missing_and_empty_tokens_are_unauthorized() {
    let mut state = fresh_state();
    assert_eq!(state.check_access(None), Err(Rejection::Unauthorized));
    assert_eq!(state.check_access(Some("")), Err(Rejection::Unauthorized));
    state.begin_join("".to_string(), "Ghost".to_string()).unwrap();
    state.confirm_join("".to_string(), Ok(mojang(1))).unwrap();
    assert_eq!(state.check_access(Some("")), Err(Rejection::Unauthorized));
}

#[test]
fn a_hash_is_in_at_most_one_registry() {
    let mut state = fresh_state();
    let in_both = |s: &AppState, h: &str| s.pending.is_pending(h) && s.authenticated.resolve(h).is_ok();
    state.begin_join("h".to_string(), "Alice".to_string()).unwrap();
    assert!(state.pending.is_pending("h"));
    assert!(!in_both(&state, "h"));
    state.confirm_join("h".to_string(), Ok(mojang(alice().uuid))).unwrap();
    assert!(!state.pending.is_pending("h"));
    assert!(state.authenticated.resolve("h").is_ok());
    assert_eq!(state.begin_join("h".to_string(), "Alice".to_string()), Err(Rejection::Conflict));
    assert!(!in_both(&state, "h"));
    state.revoke("h");
    assert!(!state.pending.is_pending("h"));
    assert!(state.authenticated.resolve("h").is_err());
    assert_eq!(state.begin_join("h".to_string(), "Alice".to_string()), Ok(()));
    assert!(!in_both(&state, "h"));
}

#[test]
fn a_later_claim_replaces_an_earlier_one() {
    let mut state = fresh_state();
    state.begin_join("h".to_string(), "Alice".to_string()).unwrap();
    state.begin_join("h".to_string(), "Bob".to_string()).unwrap();
    assert_eq!(state.pending.len(), 1);
    assert_eq!(state.take_pending("h"), Ok("Bob".to_string()));
}

#[test]
fn several_hashes_may_claim_one_name() {
    let mut state = fresh_state();
    state.begin_join("h1".to_string(), "Alice".to_string()).unwrap();
    state.begin_join("h2".to_string(), "Alice".to_string()).unwrap();
    assert_eq!(state.pending.len(), 2);
    assert_eq!(state.take_pending("h1"), Ok("Alice".to_string()));
    assert_eq!(state.take_pending("h2"), Ok("Alice".to_string()));
}

#[test]
fn a_pending_entry_is_taken_once() {
    let mut pending = PendingRegistry::new();
    pending.begin_join("h".to_string(), "Alice".to_string());
    assert!(pending.is_pending("h"));
    assert!(!pending.is_pending("g"));
    assert_eq!(pending.len(), 1);
    assert_eq!(pending.take_pending("h"), Ok("Alice".to_string()));
    assert_eq!(pending.take_pending("h"), Err(Rejection::NotFound));
    assert!(!pending.is_pending("h"));
    assert_eq!(pending.len(), 0);
}

#[test]
fn taking_an_unknown_hash_is_not_found() {
    let mut state = fresh_state();
    state.begin_join("h".to_string(), "Alice".to_string()).unwrap();
    assert_eq!(state.take_pending("nope"), Err(Rejection::NotFound));
    assert_eq!(state.pending.len(), 1);
}

#[test]
fn a_join_the_backend_refuses_is_unauthorized_and_used_up() {
    let mut state = fresh_state();
    state.begin_join("h".to_string(), "Alice".to_string()).unwrap();
    assert_eq!(state.confirm_join("h".to_string(), Err(IdentityError)), Err(Rejection::Unauthorized));
    assert!(!state.pending.is_pending("h"));
    assert_eq!(state.authenticated.len(), 0);
    assert_eq!(
        state.confirm_join("h".to_string(), Ok(mojang(alice().uuid))),
        Err(Rejection::Unauthorized)
    );
    assert_eq!(state.check_access(Some("h")), Err(Rejection::Unauthorized));
}

#[test]
fn confirming_an_unknown_hash_is_unauthorized() {
    let mut state = fresh_state();
    assert_eq!(state.confirm_join("h".to_string(), Ok(mojang(1))), Err(Rejection::Unauthorized));
    assert_eq!(state.pending.len(), 0);
    assert_eq!(state.authenticated.len(), 0);
}

#[test]
fn a_confirmation_in_two_halves() {
    let mut state = fresh_state();
    state.begin_join("h".to_string(), "Alice".to_string()).unwrap();
    let username = state.take_pending("h").unwrap();
    assert_eq!(username, "Alice");
    let identity = state.complete_join("h".to_string(), username, Ok(mojang(alice().uuid)));
    assert_eq!(identity, Ok(alice()));
    assert_eq!(state.check_access(Some("h")), Ok(alice()));

    state.begin_join("g".to_string(), "Bob".to_string()).unwrap();
    let username = state.take_pending("g").unwrap();
    assert_eq!(
        state.complete_join("g".to_string(), username, Err(IdentityError)),
        Err(Rejection::Unauthorized)
    );
    assert_eq!(state.check_access(Some("g")), Err(Rejection::Unauthorized));
    assert_eq!(state.authenticated.len(), 1);
}

#[test]
fn promoting_again_replaces_the_identity() {
    let mut registry = AuthenticatedRegistry::new();
    registry.promote("h".to_string(), alice());
    let bob = Userinfo { username: "Bob".to_string(), uuid: 2, auth_system: AuthSystem::ElyBy };
    registry.promote("h".to_string(), bob.clone());
    assert_eq!(registry.len(), 1);
    assert_eq!(registry.resolve("h"), Ok(bob));
}

#[test]
fn resolving_reads_without_removing() {
    let mut registry = AuthenticatedRegistry::new();
    assert_eq!(registry.resolve("h"), Err(Rejection::NotFound));
    registry.promote("h".to_string(), alice());
    assert_eq!(registry.resolve("h"), Ok(alice()));
    assert_eq!(registry.resolve("h"), Ok(alice()));
    assert_eq!(registry.resolve("other"), Err(Rejection::NotFound));
    assert_eq!(registry.len(), 1);
}

#[test]
fn revoking_an_absent_hash_is_no_error() {
    let mut registry = AuthenticatedRegistry::new();
    registry.promote("h".to_string(), alice());
    registry.revoke("other");
    assert_eq!(registry.len(), 1);
    registry.revoke("h");
    registry.revoke("h");
    assert_eq!(registry.len(), 0);
    assert_eq!(registry.resolve("h"), Err(Rejection::NotFound));
}

#[test]
fn the_auth_system_is_stored_as_given() {
    let mut state = fresh_state();
    for (hash, system) in [("a", AuthSystem::Internal), ("b", AuthSystem::ElyBy), ("c", AuthSystem::Mojang)] {
        state.begin_join(hash.to_string(), "Alice".to_string()).unwrap();
        let identity = state
            .confirm_join(hash.to_string(), Ok(Resolution { uuid: 5, auth_system: system }))
            .unwrap();
        assert_eq!(identity.auth_system, system);
        assert_eq!(state.check_access(Some(hash)).unwrap().auth_system, system);
    }
}

#[test]
fn an_identity_is_built_from_name_and_resolution() {
    let built = Userinfo::new("Alice".to_string(), mojang(alice().uuid));
    assert_eq!(built, alice());
    assert_eq!(built.duplicate(), alice());
}

#[test]
fn a_new_state_is_empty() {
    let state = fresh_state();
    assert_eq!(state.pending.len(), 0);
    assert_eq!(state.authenticated.len(), 0);
    assert_eq!(state.broadcasts.len(), 0);
    assert_eq!(state.advanced_users.get("anything"), None);
}
