use sculptor::config::ConfigSnapshot;
use sculptor::error::Rejection;
use sculptor::access::Route;
use sculptor::identity::{AuthSystem, Resolution, Userinfo};
use sculptor::state::AppState;

const PROTECTED: [Route; 9] = [
    Route::Limits,
    Route::Version,
    Route::Motd,
    Route::Equip,
    Route::UserInfo,
    Route::DownloadAvatar,
    Route::UploadAvatar,
    Route::DeleteAvatar,
    Route::LiveUpdates,
];

fn state_with_session(token: &str) -> (AppState, Userinfo) {
    let mut state = AppState::new(ConfigSnapshot::new());
    state.begin_join(token.to_string(), "Alice".to_string()).unwrap();
    let identity = state
        .confirm_join(token.to_string(), Ok(Resolution { uuid: 42, auth_system: AuthSystem::Internal }))
        .unwrap();
    (state, identity)
}

#[test]
fn only_status_and_handshake_routes_are_exempt() {
    assert!(Route::Status.is_exempt());
    assert!(Route::JoinRequest.is_exempt());
    assert!(Route::JoinConfirm.is_exempt());
    for route in PROTECTED {
        assert!(!route.is_exempt());
    }
}

#[test]
fn exempt_routes_pass_without_a_token() {
    let (state, _) = state_with_session("tok");
    for route in [Route::Status, Route::JoinRequest, Route::JoinConfirm] {
        assert_eq!(state.screen(route, None), Ok(None));
        assert_eq!(state.screen(route, Some("")), Ok(None));
        assert_eq!(state.screen(route, Some("bogus")), Ok(None));
        assert_eq!(state.screen(route, Some("tok")), Ok(None));
    }
}

#[test]
fn protected_routes_need_a_valid_token() {
    let (state, identity) = state_with_session("tok");
    for route in PROTECTED {
        assert_eq!(state.screen(route, None), Err(Rejection::Unauthorized));
        assert_eq!(state.screen(route, Some("")), Err(Rejection::Unauthorized));
        assert_eq!(state.screen(route, Some("bogus")), Err(Rejection::Unauthorized));
        assert_eq!(state.screen(route, Some("tok")), Ok(Some(identity.clone())));
    }
}

#[test]
fn access_ends_when_the_session_is_revoked() {
    let (mut state, identity) = state_with_session("tok");
    assert_eq!(state.screen(Route::Equip, Some("tok")), Ok(Some(identity)));
    state.revoke("tok");
    assert_eq!(state.screen(Route::Equip, Some("tok")), Err(Rejection::Unauthorized));
    assert_eq!(state.screen(Route::Status, Some("tok")), Ok(None));
}

#[test]
fn a_pending_hash_is_no_token() {
    let mut state = AppState::new(ConfigSnapshot::new());
    state.begin_join("tok".to_string(), "Alice".to_string()).unwrap();
    assert_eq!(state.screen(Route::LiveUpdates, Some("tok")), Err(Rejection::Unauthorized));
    assert!(state.pending.is_pending("tok"));
}
