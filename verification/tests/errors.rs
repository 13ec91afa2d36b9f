use gvm_mcp::gateway::error::{error_from_response, GatewayError, ProblemDetail};
use gvm_mcp::mcp::error::{describe, gateway_tool_error};
use gvm_mcp::mcp::tools::common::ToolOutput;

fn problem(status: u16, code: &str) -> GatewayError {
    GatewayError::Api(Box::new(ProblemDetail {
        type_uri: String::new(),
        code: code.into(),
        title: "Some Problem".into(),
        status,
        detail: Some("details here".into()),
        instance: None,
    }))
}

#[test]
fn problem_detail_display_includes_code_status_detail() {
    let problem = ProblemDetail {
        type_uri: "https://gvm-gateway.greenbone.net/errors/not-found".into(),
        code: "not_found".into(),
        title: "Resource Not Found".into(),
        status: 404,
        detail: Some("Target 'x' not found.".into()),
        instance: None,
    };
    let text = problem.to_string();
    assert!(text.contains("not_found"));
    assert!(text.contains("404"));
    assert!(text.contains("Target 'x' not found."));
    assert_eq!(
        text,
        "Resource Not Found (not_found, HTTP 404): Target 'x' not found."
    );
}

#[test]
fn problem_without_detail_has_no_trailing_colon() {
    let problem = ProblemDetail {
        type_uri: String::new(),
        code: "conflict".into(),
        title: "Conflict".into(),
        status: 409,
        detail: None,
        instance: None,
    };
    assert_eq!(problem.to_string(), "Conflict (conflict, HTTP 409)");
}

#[test]
fn unauthorized_detection() {
    let err = GatewayError::Api(Box::new(ProblemDetail {
        type_uri: String::new(),
        code: "session_expired".into(),
        title: "Unauthorized".into(),
        status: 401,
        detail: None,
        instance: None,
    }));
    assert!(err.is_unauthorized());

    let err = GatewayError::UnexpectedStatus {
        status: 500,
        body: "boom".into(),
    };
    assert!(!err.is_unauthorized());
}

#[test]
fn status_is_what_the_gateway_answered() {
    assert_eq!(problem(404, "not_found").status(), Some(404));
    let unexpected = GatewayError::UnexpectedStatus { status: 502, body: String::new() };
    assert_eq!(unexpected.status(), Some(502));
    let transport = GatewayError::Transport { message: "connection refused".into(), status: None };
    assert_eq!(transport.status(), None);
    assert!(!transport.is_unauthorized());
    let rejected = GatewayError::Transport { message: "401".into(), status: Some(401) };
    assert!(rejected.is_unauthorized());
    let decode = GatewayError::Decode { endpoint: "http://gw/api/v1/tasks".into(), message: "bad".into() };
    assert_eq!(decode.status(), None);
}

#[test]
fn gateway_errors_have_one_line_messages() {
    assert_eq!(
        GatewayError::UnexpectedStatus { status: 500, body: "boom".into() }.message(),
        "gateway returned unexpected HTTP 500: boom"
    );
    assert_eq!(
        GatewayError::Transport { message: "timed out".into(), status: None }.message(),
        "gateway unreachable: timed out"
    );
    assert_eq!(
        problem(403, "forbidden").message(),
        "gateway error: Some Problem (forbidden, HTTP 403): details here"
    );
    assert_eq!(
        GatewayError::Decode { endpoint: "http://gw/x".into(), message: "eof".into() }.message(),
        "failed to decode gateway response from http://gw/x: eof"
    );
}

#[test]
fn api_errors_keep_code_title_detail() {
    let text = describe("listing targets", &problem(404, "not_found"));
    assert!(text.contains("Not found"));
    assert!(text.contains("listing targets"));
    assert!(text.contains("not_found"));
    assert!(text.contains("details here"));
}

#[test]
fn status_classes_are_distinguishable() {
    assert!(describe("x", &problem(401, "unauthorized")).contains("Authentication failed"));
    assert!(describe("x", &problem(403, "forbidden")).contains("Permission denied"));
    assert!(describe("x", &problem(502, "bad_gateway")).contains("cannot reach gvmd"));
}

#[test]
fn tool_error_result_is_flagged_as_error() {
    let result = gateway_tool_error("testing", &problem(500, "internal"));
    assert!(matches!(result, ToolOutput::Error(_)));
}

#[test]
fn every_failure_kind_is_worded_distinctly() {
    assert_eq!(
        describe("listing targets", &problem(404, "not_found")),
        "Not found while listing targets: Some Problem (not_found, HTTP 404): details here"
    );
    assert_eq!(
        describe("x", &problem(409, "conflict")),
        "Request rejected while x: Some Problem (conflict, HTTP 409): details here"
    );
    assert_eq!(
        describe("x", &problem(504, "timeout")),
        "Gateway cannot reach gvmd while x: Some Problem (timeout, HTTP 504): details here"
    );
    assert_eq!(
        describe("x", &problem(500, "internal")),
        "Gateway error while x: Some Problem (internal, HTTP 500): details here"
    );
    assert_eq!(
        describe("x", &GatewayError::Transport { message: "connection refused".into(), status: None }),
        "GVM gateway unreachable while x: connection refused. Check GVM_GATEWAY_URL and that the rust-gvm-api gateway is running."
    );
    assert_eq!(
        describe("x", &GatewayError::UnexpectedStatus { status: 418, body: "teapot".into() }),
        "Gateway returned unexpected HTTP 418 while x: teapot"
    );
    assert_eq!(
        describe("x", &GatewayError::Decode { endpoint: "http://gw/api/v1/tasks".into(), message: "missing field".into() }),
        "Gateway response from http://gw/api/v1/tasks could not be decoded while x: missing field. The gateway and this server may be running incompatible versions."
    );
}

#[test]
fn problem_json_answers_become_api_errors() {
    let parsed = ProblemDetail {
        type_uri: String::new(),
        code: "not_found".into(),
        title: "Not Found".into(),
        status: 404,
        detail: None,
        instance: None,
    };
    let err = error_from_response(
        404,
        Some("application/problem+json; charset=utf-8"),
        "{...}".into(),
        Some(parsed.clone()),
    );
    match err {
        GatewayError::Api(p) => assert_eq!(*p, parsed),
        other => panic!("expected an API error, got {other:?}"),
    }
}

#[test]
fn other_answers_keep_status_and_body() {
    let err = error_from_response(503, Some("text/plain"), "down for maintenance".into(), None);
    match err {
        GatewayError::UnexpectedStatus { status, body } => {
            assert_eq!(status, 503);
            assert_eq!(body, "down for maintenance");
        }
        other => panic!("expected an unexpected status, got {other:?}"),
    }
    // A problem content type whose body does not parse is not a problem.
    let err = error_from_response(500, Some("application/problem+json"), "oops".into(), None);
    assert!(matches!(err, GatewayError::UnexpectedStatus { status: 500, .. }));
    // A parsed problem under another content type is ignored.
    let parsed = ProblemDetail {
        type_uri: String::new(),
        code: "x".into(),
        title: "X".into(),
        status: 400,
        detail: None,
        instance: None,
    };
    let err = error_from_response(400, None, "{}".into(), Some(parsed));
    assert!(matches!(err, GatewayError::UnexpectedStatus { status: 400, .. }));
}

#[test]
fn long_error_bodies_are_cut_to_500_bytes() {
    let body = "x".repeat(1200);
    match error_from_response(500, Some("text/html"), body, None) {
        GatewayError::UnexpectedStatus { body, .. } => assert_eq!(body, "x".repeat(500)),
        other => panic!("expected an unexpected status, got {other:?}"),
    }
    let exact = "y".repeat(500);
    match error_from_response(500, None, exact.clone(), None) {
        GatewayError::UnexpectedStatus { body, .. } => assert_eq!(body, exact),
        other => panic!("expected an unexpected status, got {other:?}"),
    }
    // Multi-byte characters: 250 two-byte characters are exactly 500 bytes.
    let wide = "é".repeat(300);
    match error_from_response(500, None, wide, None) {
        GatewayError::UnexpectedStatus { body, .. } => assert_eq!(body, "é".repeat(250)),
        other => panic!("expected an unexpected status, got {other:?}"),
    }
}
