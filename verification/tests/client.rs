use gvm_mcp::config::{Cli, Config};
use gvm_mcp::gateway::client::{content_disposition_filename, join_url, GatewayClient, GatewayUrl};
use gvm_mcp::mcp::tools::common::GetByIdParams;
use gvm_mcp::mcp::tools::system::{health_call, login_call, session_call, version_call};
use gvm_mcp::mcp::tools::tasks::get_task;

#[test]
fn join_url_appends_segments() {
    let base = GatewayUrl::parse("http://gw:8080").unwrap();
    assert_eq!(
        join_url(&base, &["api", "v1", "session"]),
        "http://gw:8080/api/v1/session"
    );
}

#[test]
fn join_url_preserves_base_path_prefix() {
    let base = GatewayUrl::parse("http://proxy/gvm/").unwrap();
    assert_eq!(join_url(&base, &["health"]), "http://proxy/gvm/health");
}

#[test]
fn join_url_percent_encodes_segments() {
    let base = GatewayUrl::parse("https://gw").unwrap();
    assert_eq!(join_url(&base, &["nvts", "a/b c"]), "https://gw/nvts/a%2Fb%20c");
}

#[test]
fn gateway_urls_must_be_http_with_a_host() {
    assert!(GatewayUrl::parse("unix:/run/gvmd.sock").is_err());
    assert!(GatewayUrl::parse("relative/path").is_err());
    assert_eq!(GatewayUrl::parse("HTTP://GW:80").unwrap().as_str(), "http://gw/");
}

fn client() -> GatewayClient {
    let config = Config::from_cli(Cli {
        gateway_url: "http://gw.example:8080/base".into(),
        username: Some("admin".into()),
        password: Some("s3cret".into()),
        ..Cli::default()
    })
    .unwrap();
    GatewayClient::new(&config)
}

#[test]
fn client_builds_api_and_root_urls() {
    let client = client();
    assert_eq!(
        client.api_url(&["tasks".to_string(), "t-1".to_string()]),
        "http://gw.example:8080/base/api/v1/tasks/t-1"
    );
    assert_eq!(
        client.root_url(&["health".to_string()]),
        "http://gw.example:8080/base/health"
    );
    assert_eq!(client.call_url(&health_call()), "http://gw.example:8080/base/health");
    assert_eq!(
        client.call_url(&version_call()),
        "http://gw.example:8080/base/api/v1/version"
    );
}

#[test]
fn fallback_identity_is_basic_of_the_configured_credentials() {
    let client = client();
    assert_eq!(client.fallback_auth(), Some("Basic YWRtaW46czNjcmV0"));
    let call = get_task(&GetByIdParams { id: "t-1".into() });
    assert_eq!(
        client.authorization(&call, None).as_deref(),
        Some("Basic YWRtaW46czNjcmV0")
    );
    assert_eq!(
        client.authorization(&call, Some("Bearer caller".into())).as_deref(),
        Some("Bearer caller")
    );
    // Version and health probes are unauthenticated.
    assert_eq!(client.authorization(&version_call(), Some("Bearer caller".into())), None);
}

#[test]
fn session_calls_carry_the_configured_login_then_the_session_token() {
    let client = client();
    assert_eq!(
        client.authorization(&login_call(), Some("Bearer caller".into())).as_deref(),
        Some("Basic YWRtaW46czNjcmV0")
    );
    assert_eq!(client.call_url(&login_call()), "http://gw.example:8080/base/api/v1/session");
    let read = session_call("token-a".into());
    assert_eq!(
        client.authorization(&read, Some("Bearer caller".into())).as_deref(),
        Some("Bearer token-a")
    );
    assert_eq!(client.call_url(&read), "http://gw.example:8080/base/api/v1/session");
}

#[test]
fn content_disposition_file_names() {
    assert_eq!(
        content_disposition_filename("attachment; filename=\"report.pdf\"").as_deref(),
        Some("report.pdf")
    );
    assert_eq!(
        content_disposition_filename("attachment; filename=report.xml").as_deref(),
        Some("report.xml")
    );
    assert_eq!(content_disposition_filename("inline"), None);
    assert_eq!(
        content_disposition_filename("attachment; filename=\"a\"; filename=\"b\"").as_deref(),
        Some("a\"; ")
    );
    assert_eq!(content_disposition_filename("filename=\"\"").as_deref(), Some(""));
}
