//! Map gateway failures to user-legible MCP tool errors.
//!
//! Gateway/tool failures are reported as tool-level errors so the calling
//! model sees the message and can react. Transport failures, 4xx and 5xx are
//! worded distinctly so the model can tell "gateway down" from "bad request"
//! from "gateway bug".

use vstd::prelude::*;
use crate::gateway::error::{problem_text, GatewayError};
use crate::mcp::tools::common::{OutputSpec, ToolOutput};
use crate::text::{decimal, u64_to_decimal};

verus! {

/// The class a problem's HTTP status puts it in.
pub open spec fn problem_class(status: u16) -> Seq<char> {
    if status == 401 {
        "Authentication failed"@
    } else if status == 403 {
        "Permission denied"@
    } else if status == 404 {
        "Not found"@
    } else if 400 <= status <= 499 {
        "Request rejected"@
    } else if status == 502 || status == 504 {
        "Gateway cannot reach gvmd"@
    } else {
        "Gateway error"@
    }
}

/// The message for a gateway failure during `stage`.
pub open spec fn describe_spec(stage: Seq<char>, err: GatewayError) -> Seq<char> {
    match err {
        GatewayError::Transport { message, .. } => "GVM gateway unreachable while "@ + stage + ": "@
            + message@
            + ". Check GVM_GATEWAY_URL and that the rust-gvm-api gateway is running."@,
        GatewayError::Api(problem) => problem_class(problem.status) + " while "@ + stage + ": "@
            + problem_text(*problem),
        GatewayError::UnexpectedStatus { status, body } => "Gateway returned unexpected HTTP "@
            + decimal(status as nat) + " while "@ + stage + ": "@ + body@,
        GatewayError::Decode { endpoint, message } => "Gateway response from "@ + endpoint@
            + " could not be decoded while "@ + stage + ": "@ + message@
            + ". The gateway and this server may be running incompatible versions."@,
    }
}

fn problem_class_text(status: u16) -> (r: &'static str)
    ensures
        r@ == problem_class(status),
{
    if status == 401 {
        "Authentication failed"
    } else if status == 403 {
        "Permission denied"
    } else if status == 404 {
        "Not found"
    } else if 400 <= status && status <= 499 {
        "Request rejected"
    } else if status == 502 || status == 504 {
        "Gateway cannot reach gvmd"
    } else {
        "Gateway error"
    }
}

/// The message for a gateway failure during `stage` ("listing targets").
pub fn describe(stage: &str, err: &GatewayError) -> (r: String)
    ensures
        r@ == describe_spec(stage@, *err),
{
    let mut r = String::new();
    match err {
        GatewayError::Transport { message, .. } => {
            r.append("GVM gateway unreachable while ");
            r.append(stage);
            r.append(": ");
            r.append(message.as_str());
            r.append(". Check GVM_GATEWAY_URL and that the rust-gvm-api gateway is running.");
        },
        GatewayError::Api(problem) => {
            r.append(problem_class_text(problem.status));
            r.append(" while ");
            r.append(stage);
            r.append(": ");
            r.append(problem.to_string().as_str());
        },
        GatewayError::UnexpectedStatus { status, body } => {
            r.append("Gateway returned unexpected HTTP ");
            r.append(u64_to_decimal(*status as u64).as_str());
            r.append(" while ");
            r.append(stage);
            r.append(": ");
            r.append(body.as_str());
        },
        GatewayError::Decode { endpoint, message } => {
            r.append("Gateway response from ");
            r.append(endpoint.as_str());
            r.append(" could not be decoded while ");
            r.append(stage);
            r.append(": ");
            r.append(message.as_str());
            r.append(". The gateway and this server may be running incompatible versions.");
        },
    }
    assert(r@ =~= describe_spec(stage@, *err));
    r
}

/// Render a gateway failure during `stage` as a tool-level error result.
pub fn gateway_tool_error(stage: &str, err: &GatewayError) -> (r: ToolOutput)
    ensures
        r.model() == OutputSpec::Error(describe_spec(stage@, *err)),
{
    ToolOutput::Error(describe(stage, err))
}

/// A rejected request (4xx) is never worded like a failure on the gateway's
/// side (5xx): the classes differ, and only gateway-side classes start with
/// "Gateway".
pub proof fn law_client_and_gateway_failures_are_distinct(rejected: u16, failed: u16)
    requires
        400 <= rejected <= 499,
        500 <= failed <= 599,
    ensures
        problem_class(rejected) != problem_class(failed),
        problem_class(rejected)[0] != 'G',
        problem_class(failed)[0] == 'G',
{
    reveal_strlit("Authentication failed");
    reveal_strlit("Permission denied");
    reveal_strlit("Not found");
    reveal_strlit("Request rejected");
    reveal_strlit("Gateway cannot reach gvmd");
    reveal_strlit("Gateway error");
    if problem_class(rejected) == problem_class(failed) {
        assert(problem_class(rejected)[0] == problem_class(failed)[0]);
    }
}

/// Every failure message names the stage it happened in.
pub proof fn law_descriptions_name_the_stage(stage: Seq<char>, err: GatewayError)
    ensures
        exists|i: int| 0 <= i && i + stage.len() <= describe_spec(stage, err).len()
            && #[trigger] describe_spec(stage, err).subrange(i, i + stage.len()) == stage,
{
    let d = describe_spec(stage, err);
    let prefix = match err {
        GatewayError::Transport { .. } => "GVM gateway unreachable while "@,
        GatewayError::Api(problem) => problem_class(problem.status) + " while "@,
        GatewayError::UnexpectedStatus { status, .. } => "Gateway returned unexpected HTTP "@ + decimal(
            status as nat,
        ) + " while "@,
        GatewayError::Decode { endpoint, .. } => "Gateway response from "@ + endpoint@
            + " could not be decoded while "@,
    };
    let i = prefix.len() as int;
    assert(d.subrange(i, i + stage.len()) =~= stage);
}

} // verus!
