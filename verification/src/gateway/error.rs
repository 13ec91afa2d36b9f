//! Typed gateway errors: RFC 9457 problem+json answers, other failing
//! answers, transport failures and undecodable answers.

use vstd::prelude::*;
use vstd::string::StringSliceAdditionalSpecFns;
use vstd::utf8::{decode_utf8, encode_utf8, is_char_boundary};
use crate::text::{decimal, has_prefix, starts_with, u64_to_decimal};

verus! {

broadcast use vstd::utf8::encode_utf8_decode_utf8;

/// RFC 9457 Problem Detail as served by the gateway on every error response.
#[derive(Debug, Clone, PartialEq, Eq)]
pub struct ProblemDetail {
    pub type_uri: String,
    /// Stable machine-readable problem identity (e.g. `not_found`).
    pub code: String,
    pub title: String,
    pub status: u16,
    pub detail: Option<String>,
    pub instance: Option<String>,
}

/// The display form of a problem: `<title> (<code>, HTTP <status>)`, then
/// `: <detail>` when there is a detail.
pub open spec fn problem_text(p: ProblemDetail) -> Seq<char> {
    p.title@ + " ("@ + p.code@ + ", HTTP "@ + decimal(p.status as nat) + ")"@ + match p.detail {
        Some(d) => ": "@ + d@,
        None => Seq::empty(),
    }
}

impl ProblemDetail {
    /// The problem as text, for messages.
    pub fn to_string(&self) -> (r: String)
        ensures
            r@ == problem_text(*self),
    {
        let mut r = String::new();
        r.append(self.title.as_str());
        r.append(" (");
        r.append(self.code.as_str());
        r.append(", HTTP ");
        r.append(u64_to_decimal(self.status as u64).as_str());
        r.append(")");
        match &self.detail {
            Some(d) => {
                r.append(": ");
                r.append(d.as_str());
            },
            None => {},
        }
        assert(r@ =~= problem_text(*self));
        r
    }
}

/// A failed gateway call.
#[derive(Debug)]
pub enum GatewayError {
    /// The gateway could not be reached, timed out, or the connection failed:
    /// the HTTP client's message and the status it saw, if any.
    Transport { message: String, status: Option<u16> },
    /// The gateway answered with an RFC 9457 problem+json error.
    Api(Box<ProblemDetail>),
    /// The gateway answered with an error status but no problem+json body.
    UnexpectedStatus { status: u16, body: String },
    /// A success response could not be decoded into the expected shape.
    Decode { endpoint: String, message: String },
}

impl GatewayError {
    /// HTTP status of the gateway's answer, if it answered at all.
    pub open spec fn status_spec(&self) -> Option<u16> {
        match self {
            GatewayError::Transport { status, .. } => *status,
            GatewayError::Api(problem) => Some(problem.status),
            GatewayError::UnexpectedStatus { status, .. } => Some(*status),
            GatewayError::Decode { .. } => None,
        }
    }

    /// HTTP status of the gateway's answer, if it answered at all.
    pub fn status(&self) -> (r: Option<u16>)
        ensures
            r == self.status_spec(),
    {
        match self {
            GatewayError::Transport { status, .. } => *status,
            GatewayError::Api(problem) => Some(problem.status),
            GatewayError::UnexpectedStatus { status, .. } => Some(*status),
            GatewayError::Decode { .. } => None,
        }
    }

    /// Whether the failing request should be retried once with a fresh
    /// session: the gateway answered 401.
    pub fn is_unauthorized(&self) -> (r: bool)
        ensures
            r == (self.status_spec() == Some(401u16)),
    {
        match self.status() {
            Some(s) => s == 401,
            None => false,
        }
    }

    /// The error as one line of text.
    pub open spec fn text(&self) -> Seq<char> {
        match self {
            GatewayError::Transport { message, .. } => "gateway unreachable: "@ + message@,
            GatewayError::Api(problem) => "gateway error: "@ + problem_text(**problem),
            GatewayError::UnexpectedStatus { status, body } => "gateway returned unexpected HTTP "@
                + decimal(*status as nat) + ": "@ + body@,
            GatewayError::Decode { endpoint, message } => "failed to decode gateway response from "@
                + endpoint@ + ": "@ + message@,
        }
    }

    /// The error as one line of text.
    pub fn message(&self) -> (r: String)
        ensures
            r@ == self.text(),
    {
        let mut r = String::new();
        match self {
            GatewayError::Transport { message, .. } => {
                r.append("gateway unreachable: ");
                r.append(message.as_str());
            },
            GatewayError::Api(problem) => {
                r.append("gateway error: ");
                r.append(problem.to_string().as_str());
            },
            GatewayError::UnexpectedStatus { status, body } => {
                r.append("gateway returned unexpected HTTP ");
                r.append(u64_to_decimal(*status as u64).as_str());
                r.append(": ");
                r.append(body.as_str());
            },
            GatewayError::Decode { endpoint, message } => {
                r.append("failed to decode gateway response from ");
                r.append(endpoint.as_str());
                r.append(": ");
                r.append(message.as_str());
            },
        }
        assert(r@ =~= self.text());
        r
    }
}

/// The answer is a problem document: its content type starts with
/// `application/problem+json`.
pub open spec fn is_problem_content(content_type: Option<Seq<char>>) -> bool {
    match content_type {
        Some(ct) => has_prefix(ct, "application/problem+json"@),
        None => false,
    }
}

/// Longest error body kept, in UTF-8 bytes.
pub const MAX_ERROR_BODY_BYTES: usize = 500;

/// The body cut to its first [`MAX_ERROR_BODY_BYTES`] UTF-8 bytes.
pub open spec fn truncated_body(body: Seq<char>) -> Seq<char> {
    if encode_utf8(body).len() <= MAX_ERROR_BODY_BYTES {
        body
    } else {
        decode_utf8(encode_utf8(body).subrange(0, MAX_ERROR_BODY_BYTES as int))
    }
}

/// The body can be cut at the byte limit: it is short enough, or the limit
/// falls on a character boundary.
pub open spec fn truncatable(body: Seq<char>) -> bool {
    encode_utf8(body).len() <= MAX_ERROR_BODY_BYTES || is_char_boundary(
        encode_utf8(body),
        MAX_ERROR_BODY_BYTES as int,
    )
}

fn truncate_body(body: String) -> (r: String)
    requires
        truncatable(body@),
    ensures
        r@ == truncated_body(body@),
{
    let text = body.as_str();
    assert(text.spec_bytes() == encode_utf8(body@));
    if text.as_bytes().len() <= MAX_ERROR_BODY_BYTES {
        body
    } else {
        let (head, _) = text.split_at(MAX_ERROR_BODY_BYTES);
        let r = String::from_str(head);
        assert(encode_utf8(head@) == encode_utf8(body@).subrange(0, MAX_ERROR_BODY_BYTES as int));
        assert(head@ == decode_utf8(encode_utf8(head@)));
        r
    }
}

/// Convert a non-success gateway answer into a typed error: its status,
/// `Content-Type` and body text, and `problem`, the body parsed as a problem
/// document where it is one.
///
/// Cutting the body at 500 bytes inside a character panics in std, so such
/// bodies are left out.
pub fn error_from_response(status: u16, content_type: Option<&str>, body: String, problem: Option<ProblemDetail>) -> (r: GatewayError)
    requires
        (is_problem_content(opt_str_view(content_type)) && problem is Some) || truncatable(body@),
    ensures
        match r {
            GatewayError::Api(p) => is_problem_content(opt_str_view(content_type)) && problem == Some(*p),
            GatewayError::UnexpectedStatus { status: s, body: b } => !(is_problem_content(
                opt_str_view(content_type),
            ) && problem is Some) && s == status && b@ == truncated_body(body@),
            _ => false,
        },
{
    let is_problem = match content_type {
        Some(ct) => starts_with(ct, "application/problem+json"),
        None => false,
    };
    if is_problem {
        match problem {
            Some(p) => {
                return GatewayError::Api(Box::new(p));
            },
            None => {},
        }
    }
    GatewayError::UnexpectedStatus { status, body: truncate_body(body) }
}

/// The view of an optional string slice.
pub open spec fn opt_str_view(o: Option<&str>) -> Option<Seq<char>> {
    match o {
        Some(s) => Some(s@),
        None => None,
    }
}

/// A kept error body is at most 500 bytes of UTF-8.
pub proof fn law_error_bodies_are_short(body: Seq<char>)
    requires
        truncatable(body),
    ensures
        encode_utf8(truncated_body(body)).len() <= MAX_ERROR_BODY_BYTES,
{
    let bytes = encode_utf8(body);
    if bytes.len() > MAX_ERROR_BODY_BYTES {
        vstd::utf8::encode_utf8_valid_utf8(body);
        vstd::utf8::valid_utf8_split(bytes, MAX_ERROR_BODY_BYTES as int);
        let cut = bytes.subrange(0, MAX_ERROR_BODY_BYTES as int);
        vstd::utf8::decode_utf8_encode_utf8(cut);
    }
}

/// A body within the limit is kept whole.
pub proof fn law_short_error_bodies_are_kept(body: Seq<char>)
    requires
        encode_utf8(body).len() <= MAX_ERROR_BODY_BYTES,
    ensures
        truncated_body(body) == body,
{
}

} // verus!
