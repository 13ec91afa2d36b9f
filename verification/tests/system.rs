use gvm_mcp::gateway::error::{GatewayError, ProblemDetail};
use gvm_mcp::gateway::models::{HealthStatus, SessionCreated, SessionInfo, VersionInfo};
use gvm_mcp::json::JsonValue;
use gvm_mcp::mcp::http::{host_guard, HostGuard};
use gvm_mcp::mcp::tools::common::{CallAuth, HttpMethod, Reply, Shape, ToolOutput};
use gvm_mcp::mcp::tools::system::{advance_check, start_check, CheckAction, CheckContext, CheckEvent, ConnectionCheck};

fn context() -> CheckContext {
    CheckContext { gateway_url: "http://gw:8080/".into(), read_only: true, toolsets: "system,tasks".into() }
}

#[test]
fn reports_full_stack_health_on_success() {
    let (state, call) = start_check();
    assert!(call.root && matches!(call.auth, CallAuth::Anonymous));
    assert_eq!(call.segments, vec!["health".to_string()]);
    let (state, call) = match advance_check(state, CheckEvent::Health(HealthStatus { status: "ok".into() }), &context()) {
        CheckAction::Call(next, call) => (next, call),
        CheckAction::Finish(_) => panic!("expected the version query"),
    };
    assert!(!call.root && matches!(call.auth, CallAuth::Anonymous));
    assert_eq!(call.segments, vec!["version".to_string()]);
    let version = VersionInfo { api_version: "0.1.0".into(), gmp_version: "22.7".into() };
    let (state, call) = match advance_check(state, CheckEvent::Version(version), &context()) {
        CheckAction::Call(next, call) => (next, call),
        CheckAction::Finish(_) => panic!("expected the session login"),
    };
    assert!(matches!(call.auth, CallAuth::Configured));
    assert_eq!(call.method, HttpMethod::Post);
    assert_eq!(call.segments, vec!["session".to_string()]);
    assert!(call.query.is_empty() && call.body.is_none());
    assert!(matches!(call.reply, Reply::Decoded(Shape::Session)));
    let created = SessionCreated { session_token: "token-a".into(), expires_in: 300, gmp_version: "22.7".into() };
    let (state, call) = match advance_check(state, CheckEvent::LoggedIn(created), &context()) {
        CheckAction::Call(next, call) => (next, call),
        CheckAction::Finish(_) => panic!("expected the session read"),
    };
    assert!(matches!(&call.auth, CallAuth::Bearer(token) if token == "token-a"));
    assert_eq!(call.method, HttpMethod::Get);
    assert_eq!(call.segments, vec!["session".to_string()]);
    assert!(matches!(call.reply, Reply::Decoded(Shape::SessionInfo)));
    let session = SessionInfo {
        user: "admin".into(),
        state: "active".into(),
        created_at: "2026-08-09T21:00:00Z".into(),
        last_used_at: "2026-08-09T21:01:00Z".into(),
        expires_in: 300,
    };
    match advance_check(state, CheckEvent::Session(session), &context()) {
        CheckAction::Finish(ToolOutput::Json(report)) => {
            assert_eq!(report.get("gatewayStatus"), Some(&JsonValue::Str("ok".into())));
            assert_eq!(report.get("gmpVersion"), Some(&JsonValue::Str("22.7".into())));
            assert_eq!(report.get("sessionUser"), Some(&JsonValue::Str("admin".into())));
            assert_eq!(report.get("sessionState"), Some(&JsonValue::Str("active".into())));
            let expected: Vec<(String, JsonValue)> = vec![
                ("gatewayUrl".into(), JsonValue::Str("http://gw:8080/".into())),
                ("gatewayStatus".into(), JsonValue::Str("ok".into())),
                ("apiVersion".into(), JsonValue::Str("0.1.0".into())),
                ("gmpVersion".into(), JsonValue::Str("22.7".into())),
                ("sessionUser".into(), JsonValue::Str("admin".into())),
                ("sessionState".into(), JsonValue::Str("active".into())),
                ("authenticated".into(), JsonValue::Bool(true)),
                ("readOnly".into(), JsonValue::Bool(true)),
                ("toolsets".into(), JsonValue::Str("system,tasks".into())),
            ];
            assert_eq!(report, JsonValue::Object(expected));
        }
        _ => panic!("expected the report"),
    }
}

#[test]
fn unreachable_gateway_is_a_legible_tool_error() {
    let failure = GatewayError::Transport { message: "connection refused".into(), status: None };
    match advance_check(ConnectionCheck::Liveness, CheckEvent::Failed(failure), &context()) {
        CheckAction::Finish(ToolOutput::Error(m)) => {
            assert!(m.starts_with("GVM gateway unreachable while checking gateway liveness (GET /health)"));
        }
        _ => panic!("expected an error"),
    }
}

#[test]
fn bad_credentials_are_a_legible_tool_error() {
    let state = ConnectionCheck::Login {
        health: HealthStatus { status: "ok".into() },
        version: VersionInfo { api_version: "0.1.0".into(), gmp_version: "22.7".into() },
    };
    let failure = GatewayError::Api(Box::new(ProblemDetail {
        type_uri: String::new(),
        code: "unauthorized".into(),
        title: "Unauthorized".into(),
        status: 401,
        detail: None,
        instance: None,
    }));
    match advance_check(state, CheckEvent::Failed(failure), &context()) {
        CheckAction::Finish(ToolOutput::Error(m)) => assert_eq!(
            m,
            "Authentication failed while creating a gateway session (POST /api/v1/session): Unauthorized (unauthorized, HTTP 401)"
        ),
        _ => panic!("expected an error"),
    }
}

#[test]
fn host_guard_follows_the_allowed_hosts() {
    assert!(matches!(host_guard(&vec!["localhost".into(), "*".into()]), HostGuard::Disabled));
    assert!(matches!(host_guard(&vec![]), HostGuard::Default));
    match host_guard(&vec!["mcp.example".into()]) {
        HostGuard::Allow(hosts) => assert_eq!(hosts, vec!["mcp.example".to_string()]),
        other => panic!("expected an allow list, got {other:?}"),
    }
}
