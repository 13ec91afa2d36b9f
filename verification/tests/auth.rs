use gvm_mcp::gateway::auth::{basic_auth, current_authorization};

#[test]
fn no_scope_uses_fallback_or_none() {
    assert_eq!(
        current_authorization(None, Some("Basic fallback")).as_deref(),
        Some("Basic fallback")
    );
    assert_eq!(current_authorization(None, None), None);
}

#[test]
fn caller_authorization_wins_over_the_fallback() {
    assert_eq!(
        current_authorization(Some("Bearer caller-token".into()), Some("Basic fallback")).as_deref(),
        Some("Bearer caller-token")
    );
    assert_eq!(
        current_authorization(Some("Bearer caller-token".into()), None).as_deref(),
        Some("Bearer caller-token")
    );
}

#[test]
fn basic_auth_encodes_credentials() {
    let header = basic_auth("admin", "s3cret");
    assert_eq!(header, "Basic YWRtaW46czNjcmV0");
}

#[test]
fn basic_auth_encodes_utf8_and_pads() {
    // "a:b" -> YTpi (no padding); "ab:c" -> YWI6Yw== (two pad characters).
    assert_eq!(basic_auth("a", "b"), "Basic YTpi");
    assert_eq!(basic_auth("ab", "c"), "Basic YWI6Yw==");
    // "ü:" is 3 bytes of UTF-8 plus the colon.
    assert_eq!(basic_auth("ü", ""), "Basic w7w6");
}
