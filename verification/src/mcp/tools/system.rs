//! System toolset: connectivity and version tools.
//!
//! `openvas_test_connection` checks four things in turn, stopping at the
//! first failure: gateway liveness, the gvmd version, a session login with
//! the configured credentials, and a read of that session with its bearer
//! token. The caller performs each gateway call; [`advance_check`] decides
//! what comes next.

use vstd::prelude::*;
use crate::body::Body;
use crate::gateway::error::GatewayError;
use crate::gateway::models::{version_json, HealthStatus, SessionCreated, SessionInfo, VersionInfo};
use crate::json::{Json, JsonValue};
use crate::mcp::error::{describe_spec, gateway_tool_error};
use crate::text::owned;
use super::common::{
    single, AuthSpec, CallAuth, CallSpec, HttpMethod, OutputSpec, Reply, ReplySpec, Shape,
    ToolCall, ToolOutput,
};

verus! {

/// What the liveness probe reports when it fails.
pub open spec fn liveness_stage() -> Seq<char> {
    "checking gateway liveness (GET /health)"@
}

/// What the version query reports when it fails.
pub open spec fn version_stage() -> Seq<char> {
    "querying gvmd version (GET /api/v1/version)"@
}

/// What the session login reports when it fails.
pub open spec fn login_stage() -> Seq<char> {
    "creating a gateway session (POST /api/v1/session)"@
}

/// What the session read reports when it fails.
pub open spec fn session_stage() -> Seq<char> {
    "reading the gateway session (GET /api/v1/session)"@
}

/// `GET /health` at the unversioned root, unauthenticated.
pub open spec fn health_call_spec() -> CallSpec {
    CallSpec {
        method: HttpMethod::Get,
        root: true,
        auth: AuthSpec::Anonymous,
        segments: seq!["health"@],
        query: Seq::empty(),
        body: None,
        reply: ReplySpec::Decoded(Shape::Health),
        stage: liveness_stage(),
    }
}

/// `GET /api/v1/version`, unauthenticated.
pub open spec fn version_call_spec() -> CallSpec {
    CallSpec {
        method: HttpMethod::Get,
        root: false,
        auth: AuthSpec::Anonymous,
        segments: seq!["version"@],
        query: Seq::empty(),
        body: None,
        reply: ReplySpec::Decoded(Shape::Version),
        stage: version_stage(),
    }
}

/// `POST /api/v1/session` with the configured credentials (Basic), no body.
pub open spec fn login_call_spec() -> CallSpec {
    CallSpec {
        method: HttpMethod::Post,
        root: false,
        auth: AuthSpec::Configured,
        segments: seq!["session"@],
        query: Seq::empty(),
        body: None,
        reply: ReplySpec::Decoded(Shape::Session),
        stage: login_stage(),
    }
}

/// `GET /api/v1/session` with the session's bearer token.
pub open spec fn session_call_spec(token: Seq<char>) -> CallSpec {
    CallSpec {
        method: HttpMethod::Get,
        root: false,
        auth: AuthSpec::Bearer(token),
        segments: seq!["session"@],
        query: Seq::empty(),
        body: None,
        reply: ReplySpec::Decoded(Shape::SessionInfo),
        stage: session_stage(),
    }
}

fn probe(method: HttpMethod, root: bool, auth: CallAuth, segment: &str, reply: Reply, stage: &str) -> (c: ToolCall)
    ensures
        c.spec() == (CallSpec {
            method,
            root,
            auth: auth.spec(),
            segments: seq![segment@],
            query: Seq::empty(),
            body: None,
            reply: reply.spec(),
            stage: stage@,
        }),
{
    let query: Vec<(String, String)> = Vec::new();
    let c = ToolCall {
        method,
        root,
        auth,
        segments: single(segment),
        query,
        body: None,
        reply,
        stage: owned(stage),
    };
    assert(c.spec().query =~= Seq::<(Seq<char>, Seq<char>)>::empty());
    c
}

/// The liveness probe.
pub fn health_call() -> (c: ToolCall)
    ensures
        c.spec() == health_call_spec(),
{
    probe(HttpMethod::Get, true, CallAuth::Anonymous, "health", Reply::Decoded(Shape::Health), "checking gateway liveness (GET /health)")
}

/// The version query.
pub fn version_call() -> (c: ToolCall)
    ensures
        c.spec() == version_call_spec(),
{
    probe(HttpMethod::Get, false, CallAuth::Anonymous, "version", Reply::Decoded(Shape::Version), "querying gvmd version (GET /api/v1/version)")
}

/// The session login.
pub fn login_call() -> (c: ToolCall)
    ensures
        c.spec() == login_call_spec(),
{
    probe(
        HttpMethod::Post,
        false,
        CallAuth::Configured,
        "session",
        Reply::Decoded(Shape::Session),
        "creating a gateway session (POST /api/v1/session)",
    )
}

/// The session read, with the token that the login handed out.
pub fn session_call(token: String) -> (c: ToolCall)
    ensures
        c.spec() == session_call_spec(token@),
{
    probe(
        HttpMethod::Get,
        false,
        CallAuth::Bearer(token),
        "session",
        Reply::Decoded(Shape::SessionInfo),
        "reading the gateway session (GET /api/v1/session)",
    )
}

/// The `openvas_get_version` call: the REST API contract version and the
/// GMP version reported by gvmd.
pub fn get_version() -> (c: ToolCall)
    ensures
        c.spec() == version_call_spec(),
{
    version_call()
}

/// The report of a successful connection test.
pub open spec fn connection_report_json(
    gateway_url: Seq<char>,
    health: HealthStatus,
    version: VersionInfo,
    session: SessionInfo,
    read_only: bool,
    toolsets: Seq<char>,
) -> Json {
    Json::Object(
        Seq::empty() + seq![("gatewayUrl"@, Json::Str(gateway_url))] + seq![
            ("gatewayStatus"@, Json::Str(health.status@)),
        ] + seq![("apiVersion"@, Json::Str(version.api_version@))] + seq![
            ("gmpVersion"@, Json::Str(version.gmp_version@)),
        ] + seq![("sessionUser"@, Json::Str(session.user@))] + seq![
            ("sessionState"@, Json::Str(session.state@)),
        ] + seq![("authenticated"@, Json::Bool(true))] + seq![("readOnly"@, Json::Bool(read_only))]
            + seq![("toolsets"@, Json::Str(toolsets))],
    )
}

/// The report of a successful connection test: where the gateway is, its
/// liveness status, both versions, whose session the gateway opened and in
/// what state, and how this server is configured.
pub fn connection_report(
    gateway_url: &str,
    health: HealthStatus,
    version: VersionInfo,
    session: SessionInfo,
    read_only: bool,
    toolsets: &str,
) -> (r: JsonValue)
    ensures
        r.model() == connection_report_json(gateway_url@, health, version, session, read_only, toolsets@),
{
    Body::new().set("gatewayUrl", JsonValue::Str(owned(gateway_url))).set(
        "gatewayStatus",
        JsonValue::Str(health.status),
    ).set("apiVersion", JsonValue::Str(version.api_version)).set(
        "gmpVersion",
        JsonValue::Str(version.gmp_version),
    ).set("sessionUser", JsonValue::Str(session.user)).set(
        "sessionState",
        JsonValue::Str(session.state),
    ).set("authenticated", JsonValue::Bool(true)).set("readOnly", JsonValue::Bool(read_only)).set(
        "toolsets",
        JsonValue::Str(owned(toolsets)),
    ).into_value()
}

/// Where a connection test stands: the step whose answer is awaited, with
/// what the earlier steps found.
pub enum ConnectionCheck {
    /// Waiting for the liveness probe.
    Liveness,
    /// Waiting for the version query.
    Version { health: HealthStatus },
    /// Waiting for the session login.
    Login { health: HealthStatus, version: VersionInfo },
    /// Waiting for the session read.
    Session { health: HealthStatus, version: VersionInfo },
}

/// The answer to the awaited step.
pub enum CheckEvent {
    /// The liveness probe answered.
    Health(HealthStatus),
    /// The version query answered.
    Version(VersionInfo),
    /// The login created a session.
    LoggedIn(SessionCreated),
    /// The session read answered.
    Session(SessionInfo),
    /// The awaited call failed.
    Failed(GatewayError),
}

/// What to do next.
pub enum CheckAction {
    /// Make this call, and report its answer to the next state.
    Call(ConnectionCheck, ToolCall),
    /// The test is over: return this result.
    Finish(ToolOutput),
}

/// How the test is configured: the gateway URL, the mode and the toolset
/// selection as shown in the report.
pub struct CheckContext {
    pub gateway_url: String,
    pub read_only: bool,
    pub toolsets: String,
}

impl ConnectionCheck {
    /// The event answers this step (a failure answers any step).
    pub open spec fn awaits(&self, event: CheckEvent) -> bool {
        match event {
            CheckEvent::Failed(_) => true,
            CheckEvent::Health(_) => self is Liveness,
            CheckEvent::Version(_) => self is Version,
            CheckEvent::LoggedIn(_) => self is Login,
            CheckEvent::Session(_) => self is Session,
        }
    }

    /// The stage named when this step fails.
    pub open spec fn stage(&self) -> Seq<char> {
        match self {
            ConnectionCheck::Liveness => liveness_stage(),
            ConnectionCheck::Version { .. } => version_stage(),
            ConnectionCheck::Login { .. } => login_stage(),
            ConnectionCheck::Session { .. } => session_stage(),
        }
    }
}

/// Start a connection test: probe liveness first.
pub fn start_check() -> (r: (ConnectionCheck, ToolCall))
    ensures
        r.0 is Liveness,
        r.1.spec() == health_call_spec(),
{
    (ConnectionCheck::Liveness, health_call())
}

/// Take the answer to the awaited step: a failure ends the test with an
/// error naming that step; liveness leads to the version query, the version
/// to the session login, the login to a read of the session with the token
/// it handed out, and the session read ends the test with the report.
pub fn advance_check(state: ConnectionCheck, event: CheckEvent, context: &CheckContext) -> (r: CheckAction)
    requires
        state.awaits(event),
    ensures
        match event {
            CheckEvent::Failed(err) => r matches CheckAction::Finish(out) && out.model() == OutputSpec::Error(
                describe_spec(state.stage(), err),
            ),
            CheckEvent::Health(health) => r matches CheckAction::Call(next, call) && next == (
            ConnectionCheck::Version { health }) && call.spec() == version_call_spec(),
            CheckEvent::Version(version) => state matches ConnectionCheck::Version { health } && r matches CheckAction::Call(
                next,
                call,
            ) && next == (ConnectionCheck::Login { health, version }) && call.spec() == login_call_spec(),
            CheckEvent::LoggedIn(created) => state matches ConnectionCheck::Login { health, version } && r matches CheckAction::Call(
                next,
                call,
            ) && next == (ConnectionCheck::Session { health, version }) && call.spec()
                == session_call_spec(created.session_token@),
            CheckEvent::Session(session) => state matches ConnectionCheck::Session { health, version } && r matches CheckAction::Finish(
                out,
            ) && out.model() == OutputSpec::Json(
                connection_report_json(
                    context.gateway_url@,
                    health,
                    version,
                    session,
                    context.read_only,
                    context.toolsets@,
                ),
            ),
        },
{
    match event {
        CheckEvent::Failed(err) => {
            let out = match state {
                ConnectionCheck::Liveness => gateway_tool_error("checking gateway liveness (GET /health)", &err),
                ConnectionCheck::Version { .. } => gateway_tool_error(
                    "querying gvmd version (GET /api/v1/version)",
                    &err,
                ),
                ConnectionCheck::Login { .. } => gateway_tool_error(
                    "creating a gateway session (POST /api/v1/session)",
                    &err,
                ),
                ConnectionCheck::Session { .. } => gateway_tool_error(
                    "reading the gateway session (GET /api/v1/session)",
                    &err,
                ),
            };
            CheckAction::Finish(out)
        },
        CheckEvent::Health(health) => CheckAction::Call(ConnectionCheck::Version { health }, version_call()),
        CheckEvent::Version(version) => match state {
            ConnectionCheck::Version { health } => CheckAction::Call(
                ConnectionCheck::Login { health, version },
                login_call(),
            ),
            _ => {
                assert(false);
                CheckAction::Call(ConnectionCheck::Liveness, health_call())
            },
        },
        CheckEvent::LoggedIn(created) => match state {
            ConnectionCheck::Login { health, version } => CheckAction::Call(
                ConnectionCheck::Session { health, version },
                session_call(created.session_token),
            ),
            _ => {
                assert(false);
                CheckAction::Call(ConnectionCheck::Liveness, health_call())
            },
        },
        CheckEvent::Session(session) => match state {
            ConnectionCheck::Session { health, version } => CheckAction::Finish(
                ToolOutput::Json(
                    connection_report(
                        context.gateway_url.as_str(),
                        health,
                        version,
                        session,
                        context.read_only,
                        context.toolsets.as_str(),
                    ),
                ),
            ),
            _ => {
                assert(false);
                CheckAction::Call(ConnectionCheck::Liveness, health_call())
            },
        },
    }
}

/// What `openvas_get_version` returns for the version answer.
pub fn version_output(version: VersionInfo) -> (r: ToolOutput)
    ensures
        r.model() == OutputSpec::Json(version_json(version)),
{
    ToolOutput::Json(version.to_json())
}

} // verus!
