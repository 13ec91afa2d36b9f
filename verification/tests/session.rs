use gvm_mcp::gateway::error::GatewayError;
use gvm_mcp::gateway::models::SessionCreated;
use gvm_mcp::gateway::session::{SessionState, SessionStep};

fn created(token: &str) -> SessionCreated {
    SessionCreated { session_token: token.into(), expires_in: 300, gmp_version: "22.7".into() }
}

#[test]
fn first_request_logs_in_and_later_ones_reuse_the_session() {
    let mut state = SessionState::new();
    assert!(matches!(state.current(), SessionStep::Login));
    let session = state.login_finished(Ok(created("token-a"))).unwrap();
    assert_eq!(session.bearer_token(), "token-a");
    assert_eq!(session.expires_in, 300);
    assert_eq!(session.gmp_version, "22.7");
    match state.current() {
        SessionStep::Use(s) => assert_eq!(s.bearer_token(), "token-a"),
        SessionStep::Login => panic!("expected the held session"),
    }
}

#[test]
fn concurrent_401s_trigger_a_single_renewal() {
    let mut state = SessionState::new();
    let a = state.login_finished(Ok(created("token-a"))).unwrap();
    // Two requests failed with token-a; the first renewal logs in...
    assert!(matches!(state.renew(a.serial), SessionStep::Login));
    let b = state.login_finished(Ok(created("token-b"))).unwrap();
    assert_ne!(a.serial, b.serial);
    // ...and the second reuses what the first obtained.
    match state.renew(a.serial) {
        SessionStep::Use(s) => assert_eq!(s.bearer_token(), "token-b"),
        SessionStep::Login => panic!("a second login was requested"),
    }
}

#[test]
fn failed_login_leaves_no_session_behind() {
    let mut state = SessionState::new();
    let a = state.login_finished(Ok(created("token-a"))).unwrap();
    assert!(matches!(state.renew(a.serial), SessionStep::Login));
    let failure = GatewayError::UnexpectedStatus { status: 401, body: "bad credentials".into() };
    let err = match state.login_finished(Err(failure)) {
        Err(err) => err,
        Ok(_) => panic!("expected the login failure"),
    };
    assert!(err.is_unauthorized());
    assert!(matches!(state.current(), SessionStep::Login));
}

#[test]
fn a_fresh_state_can_number_a_login() {
    let mut state = SessionState::new();
    assert!(state.can_log_in());
    state.login_finished(Ok(created("token-a"))).unwrap();
    assert!(state.can_log_in());
}
