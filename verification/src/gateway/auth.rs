//! Per-request authentication for gateway calls.
//!
//! gvm-mcp holds no session and invents no auth of its own: it forwards a
//! caller's identity to the rust-gvm-api gateway, and the gateway (backed by
//! gvmd) is the sole authority. The `Authorization` value used for a gateway
//! request comes from, in order of precedence:
//!
//! 1. the inbound MCP request's `Authorization` header (streamable HTTP), so
//!    each HTTP caller authenticates as themselves; or
//! 2. a fallback built from configured gvmd credentials (`GVM_USERNAME` /
//!    `GVM_PASSWORD`), used for stdio and for HTTP callers that send none.
//!
//! When neither is present the request goes out unauthenticated and the
//! gateway answers `401`, which surfaces as a legible tool error. No token is
//! ever cached; a `Basic` header is (re)built per request from the in-memory
//! credentials.

use vstd::prelude::*;
use vstd::utf8::encode_utf8;
use crate::codec::{base64_encode, base64_standard};

verus! {

/// The `Basic` authorization value of a username and password:
/// `Basic ` and the base64 of the UTF-8 bytes of `<username>:<password>`.
pub open spec fn basic_auth_spec(username: Seq<char>, password: Seq<char>) -> Seq<char> {
    "Basic "@ + base64_standard(encode_utf8(username + ":"@ + password))
}

/// Build an HTTP `Basic` authorization value from gvmd credentials.
pub fn basic_auth(username: &str, password: &str) -> (r: String)
    requires
        encode_utf8(username@ + ":"@ + password@).len() <= usize::MAX / 2,
    ensures
        r@ == basic_auth_spec(username@, password@),
{
    let mut raw = String::from_str(username);
    raw.append(":");
    raw.append(password);
    let text = raw.as_str();
    let bytes = text.as_bytes();
    assert(bytes@ == encode_utf8(username@ + ":"@ + password@));
    let encoded = base64_encode(bytes);
    let mut r = String::from_str("Basic ");
    r.append(encoded.as_str());
    r
}

/// The `Authorization` for a gateway request: the caller's forwarded header
/// when there is one, otherwise the configured fallback, otherwise none.
pub open spec fn authorization_spec(caller: Option<Seq<char>>, fallback: Option<Seq<char>>) -> Option<Seq<char>> {
    match caller {
        Some(c) => Some(c),
        None => fallback,
    }
}

/// The view of an optional owned string.
pub open spec fn opt_string_view(o: Option<String>) -> Option<Seq<char>> {
    match o {
        Some(s) => Some(s@),
        None => None,
    }
}

/// The view of an optional string slice.
pub open spec fn opt_str_view(o: Option<&str>) -> Option<Seq<char>> {
    match o {
        Some(s) => Some(s@),
        None => None,
    }
}

/// Resolve the `Authorization` value for a gateway request: `caller`, the
/// inbound request's forwarded header (`None` when it sent none), if
/// present, otherwise the configured fallback.
pub fn current_authorization(caller: Option<String>, fallback: Option<&str>) -> (r: Option<String>)
    ensures
        opt_string_view(r) == authorization_spec(opt_string_view(caller), opt_str_view(fallback)),
{
    match caller {
        Some(c) => Some(c),
        None => match fallback {
            Some(f) => Some(String::from_str(f)),
            None => None,
        },
    }
}

} // verus!
