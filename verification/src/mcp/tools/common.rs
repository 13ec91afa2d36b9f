//! Shared tool parameter shapes, the request-body builder and the
//! description of one gateway call that a tool makes.

use vstd::prelude::*;
use crate::json::{entry_models, str_views, Json, JsonValue};
use crate::text::{bool_text, bool_to_text, decimal, owned, u64_to_decimal};
pub use crate::body::{
    opt_bool, opt_bool_json, opt_field, opt_i32, opt_i32_json, opt_i64, opt_i64_json, opt_model,
    opt_str_json, opt_string, opt_string_map, opt_string_map_json, opt_strings, opt_strings_json,
    string_map, string_map_json, Body,
};

verus! {

/// A query entry with the value when present, nothing otherwise.
pub open spec fn opt_query(key: Seq<char>, value: Option<Seq<char>>) -> Seq<(Seq<char>, Seq<char>)> {
    match value {
        Some(v) => seq![(key, v)],
        None => Seq::empty(),
    }
}

/// The view of an optional string.
pub open spec fn opt_view(o: Option<String>) -> Option<Seq<char>> {
    match o {
        Some(s) => Some(s@),
        None => None,
    }
}

/// The decimal text of an optional number.
pub open spec fn opt_decimal(o: Option<u32>) -> Option<Seq<char>> {
    match o {
        Some(n) => Some(decimal(n as nat)),
        None => None,
    }
}

/// The views of query pairs.
pub open spec fn query_views(q: Seq<(&str, String)>) -> Seq<(Seq<char>, Seq<char>)> {
    q.map_values(|e: (&str, String)| (e.0@, e.1@))
}

/// The views of owned query pairs.
pub open spec fn pair_views(q: Seq<(String, String)>) -> Seq<(Seq<char>, Seq<char>)> {
    q.map_values(|e: (String, String)| (e.0@, e.1@))
}

proof fn lemma_query_views_push(q: Seq<(&str, String)>, e: (&str, String))
    ensures
        query_views(q.push(e)) == query_views(q).push((e.0@, e.1@)),
{
    assert(query_views(q.push(e)) =~= query_views(q).push((e.0@, e.1@)));
}

/// Standard listing parameters shared by all gateway list endpoints.
#[derive(Debug)]
pub struct ListParams {
    /// GMP filter expression, e.g. `name~webserver and severity>5`
    pub filter: Option<String>,
    /// UUID of a saved filter to apply
    pub filter_id: Option<String>,
    /// Page number, 1-indexed (default 1)
    pub page: Option<u32>,
    /// Items per page, 1-1000 (default 25)
    pub per_page: Option<u32>,
}

impl ListParams {
    /// The gateway query for these parameters: `filter`, `filterId`, `page`
    /// and `perPage`, in that order, each only when set.
    pub open spec fn query_spec(&self) -> Seq<(Seq<char>, Seq<char>)> {
        opt_query("filter"@, opt_view(self.filter)) + opt_query("filterId"@, opt_view(self.filter_id))
            + opt_query("page"@, opt_decimal(self.page)) + opt_query(
            "perPage"@,
            opt_decimal(self.per_page),
        )
    }

    /// Map to the gateway's query parameters, omitting unset values.
    pub fn to_query(&self) -> (q: Vec<(&'static str, String)>)
        ensures
            query_views(q@) == self.query_spec(),
    {
        let mut q: Vec<(&'static str, String)> = Vec::new();
        let ghost s0 = query_views(q@);
        assert(s0 =~= Seq::<(Seq<char>, Seq<char>)>::empty());
        if let Some(filter) = &self.filter {
            let e = ("filter", filter.clone());
            proof {
                lemma_query_views_push(q@, e);
            }
            q.push(e);
        }
        assert(query_views(q@) =~= opt_query("filter"@, opt_view(self.filter)));
        let ghost s1 = query_views(q@);
        if let Some(filter_id) = &self.filter_id {
            let e = ("filterId", filter_id.clone());
            proof {
                lemma_query_views_push(q@, e);
            }
            q.push(e);
        }
        assert(query_views(q@) =~= s1 + opt_query("filterId"@, opt_view(self.filter_id)));
        let ghost s2 = query_views(q@);
        if let Some(page) = self.page {
            let e = ("page", u64_to_decimal(page as u64));
            proof {
                lemma_query_views_push(q@, e);
            }
            q.push(e);
        }
        assert(query_views(q@) =~= s2 + opt_query("page"@, opt_decimal(self.page)));
        let ghost s3 = query_views(q@);
        if let Some(per_page) = self.per_page {
            let e = ("perPage", u64_to_decimal(per_page as u64));
            proof {
                lemma_query_views_push(q@, e);
            }
            q.push(e);
        }
        assert(query_views(q@) =~= s3 + opt_query("perPage"@, opt_decimal(self.per_page)));
        q
    }
}

impl Default for ListParams {
    fn default() -> (r: Self)
        ensures
            r.filter is None,
            r.filter_id is None,
            r.page is None,
            r.per_page is None,
    {
        ListParams { filter: None, filter_id: None, page: None, per_page: None }
    }
}

/// Parameters for tools that address one resource by UUID.
#[derive(Debug)]
pub struct GetByIdParams {
    /// Resource UUID
    pub id: String,
}

/// Parameters for delete tools.
#[derive(Debug)]
pub struct DeleteParams {
    /// Resource UUID
    pub id: String,
    /// Permanently delete instead of moving to the trashcan (default false)
    pub ultimate: Option<bool>,
}

impl DeleteParams {
    /// The gateway query: `ultimate` only when it was given.
    pub open spec fn query_spec(&self) -> Seq<(Seq<char>, Seq<char>)> {
        match self.ultimate {
            Some(u) => seq![("ultimate"@, bool_text(u))],
            None => Seq::empty(),
        }
    }

    /// Map to the gateway's query parameters: `ultimate` only when set.
    pub fn to_query(&self) -> (q: Vec<(&'static str, String)>)
        ensures
            query_views(q@) == self.query_spec(),
    {
        match self.ultimate {
            Some(ultimate) => {
                let mut q: Vec<(&'static str, String)> = Vec::new();
                q.push(("ultimate", bool_to_text(ultimate)));
                assert(query_views(q@) =~= self.query_spec());
                q
            },
            None => {
                let q: Vec<(&'static str, String)> = Vec::new();
                assert(query_views(q@) =~= self.query_spec());
                q
            },
        }
    }
}

/// HTTP method of a gateway call.
#[derive(Debug, Clone, Copy, PartialEq, Eq, Structural)]
pub enum HttpMethod {
    Get,
    Post,
    Put,
    Delete,
}

/// A typed gateway answer that is decoded and rendered back.
#[derive(Debug, Clone, Copy, PartialEq, Eq, Structural)]
pub enum Shape {
    Target,
    Task,
    Created,
    TaskAction,
    Version,
    Health,
    Session,
    SessionInfo,
}

/// How a successful gateway answer becomes the tool's output.
#[derive(Debug)]
pub enum Reply {
    /// The gateway's JSON, unchanged.
    Passthrough,
    /// List rows summarized to `keys` under `out_key`, pagination kept.
    Summarize { out_key: String, keys: Vec<String> },
    /// A success whose body carries nothing, acknowledged as
    /// `{<flag>: true, "id": <id>}`.
    Acknowledge { flag: String, id: String },
    /// A target list, summarized row by row.
    TargetRows,
    /// A task list, summarized row by row.
    TaskRows,
    /// A typed answer, decoded and rendered back.
    Decoded(Shape),
    /// A downloadable artifact (raw bytes plus content type and file name).
    Artifact,
}

/// The mathematical form of [`Reply`].
pub enum ReplySpec {
    Passthrough,
    Summarize { out_key: Seq<char>, keys: Seq<Seq<char>> },
    Acknowledge { flag: Seq<char>, id: Seq<char> },
    TargetRows,
    TaskRows,
    Decoded(Shape),
    Artifact,
}

/// The views of a list of owned strings.
pub open spec fn owned_views(v: Seq<String>) -> Seq<Seq<char>> {
    v.map_values(|s: String| s@)
}

impl Reply {
    pub open spec fn spec(&self) -> ReplySpec {
        match self {
            Reply::Passthrough => ReplySpec::Passthrough,
            Reply::Summarize { out_key, keys } => ReplySpec::Summarize {
                out_key: out_key@,
                keys: owned_views(keys@),
            },
            Reply::Acknowledge { flag, id } => ReplySpec::Acknowledge { flag: flag@, id: id@ },
            Reply::TargetRows => ReplySpec::TargetRows,
            Reply::TaskRows => ReplySpec::TaskRows,
            Reply::Decoded(shape) => ReplySpec::Decoded(*shape),
            Reply::Artifact => ReplySpec::Artifact,
        }
    }
}

/// The identity a gateway call carries.
#[derive(Debug)]
pub enum CallAuth {
    /// No identity (the version and health probes).
    Anonymous,
    /// The caller's forwarded `Authorization` when there is one, otherwise
    /// the configured gvmd credentials.
    Forwarded,
    /// The configured gvmd credentials (session login).
    Configured,
    /// This session's bearer token.
    Bearer(String),
}

/// The mathematical form of [`CallAuth`].
pub enum AuthSpec {
    Anonymous,
    Forwarded,
    Configured,
    Bearer(Seq<char>),
}

impl CallAuth {
    pub open spec fn spec(&self) -> AuthSpec {
        match self {
            CallAuth::Anonymous => AuthSpec::Anonymous,
            CallAuth::Forwarded => AuthSpec::Forwarded,
            CallAuth::Configured => AuthSpec::Configured,
            CallAuth::Bearer(token) => AuthSpec::Bearer(token@),
        }
    }
}

/// One gateway call made by a tool: what to send, and what to do with a
/// successful answer. A failure is reported as a tool error naming `stage`.
#[derive(Debug)]
pub struct ToolCall {
    pub method: HttpMethod,
    /// Path at the unversioned root (health probe) instead of under `/api/v1`.
    pub root: bool,
    /// The identity the call carries.
    pub auth: CallAuth,
    pub segments: Vec<String>,
    pub query: Vec<(String, String)>,
    pub body: Option<JsonValue>,
    pub reply: Reply,
    /// What the server was doing, for error messages ("listing targets").
    pub stage: String,
}

/// The mathematical form of [`ToolCall`].
pub struct CallSpec {
    pub method: HttpMethod,
    pub root: bool,
    pub auth: AuthSpec,
    pub segments: Seq<Seq<char>>,
    pub query: Seq<(Seq<char>, Seq<char>)>,
    pub body: Option<Json>,
    pub reply: ReplySpec,
    pub stage: Seq<char>,
}

impl ToolCall {
    pub open spec fn spec(&self) -> CallSpec {
        CallSpec {
            method: self.method,
            root: self.root,
            auth: self.auth.spec(),
            segments: owned_views(self.segments@),
            query: pair_views(self.query@),
            body: opt_model(self.body),
            reply: self.reply.spec(),
            stage: self.stage@,
        }
    }
}

/// A call under `/api/v1` with the caller's identity.
pub open spec fn api_call(
    method: HttpMethod,
    segments: Seq<Seq<char>>,
    query: Seq<(Seq<char>, Seq<char>)>,
    body: Option<Json>,
    reply: ReplySpec,
    stage: Seq<char>,
) -> CallSpec {
    CallSpec { method, root: false, auth: AuthSpec::Forwarded, segments, query, body, reply, stage }
}

/// A list tool: `GET /<resource>` with the list query, rows summarized to
/// `keys` under `out_key`.
pub open spec fn list_call_spec(
    resource: Seq<char>,
    out_key: Seq<char>,
    keys: Seq<Seq<char>>,
    query: Seq<(Seq<char>, Seq<char>)>,
    stage: Seq<char>,
) -> CallSpec {
    list_at_call_spec(seq![resource], out_key, keys, query, stage)
}

/// A list tool on a nested path.
pub open spec fn list_at_call_spec(
    segments: Seq<Seq<char>>,
    out_key: Seq<char>,
    keys: Seq<Seq<char>>,
    query: Seq<(Seq<char>, Seq<char>)>,
    stage: Seq<char>,
) -> CallSpec {
    api_call(
        HttpMethod::Get,
        segments,
        query,
        None,
        ReplySpec::Summarize { out_key, keys },
        stage,
    )
}

/// A get tool: `GET` the path, answer passed through.
pub open spec fn get_call_spec(segments: Seq<Seq<char>>, stage: Seq<char>) -> CallSpec {
    api_call(HttpMethod::Get, segments, Seq::empty(), None, ReplySpec::Passthrough, stage)
}

/// A create tool: `POST /<resource>` with the body, answer passed through.
pub open spec fn create_call_spec(resource: Seq<char>, body: Seq<(Seq<char>, Json)>, stage: Seq<char>) -> CallSpec {
    api_call(
        HttpMethod::Post,
        seq![resource],
        Seq::empty(),
        Some(Json::Object(body)),
        ReplySpec::Passthrough,
        stage,
    )
}

/// An update tool: `PUT` the path with the body, answer passed through.
pub open spec fn update_call_spec(segments: Seq<Seq<char>>, body: Seq<(Seq<char>, Json)>, stage: Seq<char>) -> CallSpec {
    api_call(
        HttpMethod::Put,
        segments,
        Seq::empty(),
        Some(Json::Object(body)),
        ReplySpec::Passthrough,
        stage,
    )
}

/// A delete tool: `DELETE /<resource>/<id>` (with `ultimate` when given),
/// acknowledged as `{"deleted": true, "id": <id>}`.
pub open spec fn delete_call_spec(resource: Seq<char>, id: Seq<char>, query: Seq<(Seq<char>, Seq<char>)>, stage: Seq<char>) -> CallSpec {
    api_call(
        HttpMethod::Delete,
        seq![resource, id],
        query,
        None,
        ReplySpec::Acknowledge { flag: "deleted"@, id },
        stage,
    )
}

/// Owned copies of string slices.
pub fn owned_all(items: &[&str]) -> (r: Vec<String>)
    ensures
        owned_views(r@) == str_views(items@),
{
    let mut r: Vec<String> = Vec::new();
    let mut i: usize = 0;
    while i < items.len()
        invariant
            i <= items@.len(),
            owned_views(r@) == str_views(items@).take(i as int),
        decreases items@.len() - i,
    {
        let s = owned(items[i]);
        let ghost before = r@;
        r.push(s);
        assert(owned_views(r@) =~= owned_views(before).push(s@));
        assert(str_views(items@).take(i + 1) =~= str_views(items@).take(i as int).push(items@[i as int]@));
        i = i + 1;
    }
    assert(str_views(items@).take(items@.len() as int) =~= str_views(items@));
    r
}

/// Owned copies of query pairs.
pub fn owned_query(q: Vec<(&'static str, String)>) -> (r: Vec<(String, String)>)
    ensures
        pair_views(r@) == query_views(q@),
{
    let mut r: Vec<(String, String)> = Vec::new();
    let mut i: usize = 0;
    while i < q.len()
        invariant
            i <= q@.len(),
            pair_views(r@) == query_views(q@).take(i as int),
        decreases q@.len() - i,
    {
        let e = (owned(q[i].0), q[i].1.clone());
        let ghost before = r@;
        r.push(e);
        assert(pair_views(r@) =~= pair_views(before).push((e.0@, e.1@)));
        assert(query_views(q@).take(i + 1) =~= query_views(q@).take(i as int).push(
            (q@[i as int].0@, q@[i as int].1@),
        ));
        i = i + 1;
    }
    assert(query_views(q@).take(q@.len() as int) =~= query_views(q@));
    r
}

/// Path segments from string slices.
pub fn segments(items: &[&str]) -> (r: Vec<String>)
    ensures
        owned_views(r@) == str_views(items@),
{
    owned_all(items)
}

/// A list tool: fetch `{data, pagination}` from `GET /<resource>`, reduce
/// each row to `keys`, and return `{<out_key>, pagination}`.
pub fn list_call(resource: &str, out_key: &str, keys: &[&str], params: &ListParams, stage: &str) -> (c: ToolCall)
    ensures
        c.spec() == list_call_spec(resource@, out_key@, str_views(keys@), params.query_spec(), stage@),
{
    let mut segs: Vec<String> = Vec::new();
    segs.push(owned(resource));
    assert(owned_views(segs@) =~= seq![resource@]);
    list_at_call(segs, out_key, keys, params, stage)
}

/// A list tool on a nested path (e.g. a report's result page).
pub fn list_at_call(segments: Vec<String>, out_key: &str, keys: &[&str], params: &ListParams, stage: &str) -> (c: ToolCall)
    ensures
        c.spec() == list_at_call_spec(owned_views(segments@), out_key@, str_views(keys@), params.query_spec(), stage@),
{
    ToolCall {
        method: HttpMethod::Get,
        root: false,
        auth: CallAuth::Forwarded,
        segments,
        query: owned_query(params.to_query()),
        body: None,
        reply: Reply::Summarize { out_key: owned(out_key), keys: owned_all(keys) },
        stage: owned(stage),
    }
}

/// A get tool: fetch one resource and pass the gateway's JSON through
/// unchanged.
pub fn get_call(segments: Vec<String>, stage: &str) -> (c: ToolCall)
    ensures
        c.spec() == get_call_spec(owned_views(segments@), stage@),
{
    let q: Vec<(String, String)> = Vec::new();
    assert(pair_views(q@) =~= Seq::<(Seq<char>, Seq<char>)>::empty());
    ToolCall {
        method: HttpMethod::Get,
        root: false,
        auth: CallAuth::Forwarded,
        segments,
        query: q,
        body: None,
        reply: Reply::Passthrough,
        stage: owned(stage),
    }
}

/// A create tool: POST the body and return the gateway's `{id}` envelope.
pub fn create_call(resource: &str, body: Body, stage: &str) -> (c: ToolCall)
    ensures
        c.spec() == create_call_spec(resource@, body@, stage@),
{
    let mut segs: Vec<String> = Vec::new();
    segs.push(owned(resource));
    assert(owned_views(segs@) =~= seq![resource@]);
    let q: Vec<(String, String)> = Vec::new();
    assert(pair_views(q@) =~= Seq::<(Seq<char>, Seq<char>)>::empty());
    ToolCall {
        method: HttpMethod::Post,
        root: false,
        auth: CallAuth::Forwarded,
        segments: segs,
        query: q,
        body: Some(body.into_value()),
        reply: Reply::Passthrough,
        stage: owned(stage),
    }
}

/// An update tool: PUT the body and pass the updated resource through.
pub fn update_call(segments: Vec<String>, body: Body, stage: &str) -> (c: ToolCall)
    ensures
        c.spec() == update_call_spec(owned_views(segments@), body@, stage@),
{
    let q: Vec<(String, String)> = Vec::new();
    assert(pair_views(q@) =~= Seq::<(Seq<char>, Seq<char>)>::empty());
    ToolCall {
        method: HttpMethod::Put,
        root: false,
        auth: CallAuth::Forwarded,
        segments,
        query: q,
        body: Some(body.into_value()),
        reply: Reply::Passthrough,
        stage: owned(stage),
    }
}

/// A delete tool (204 expected; `ultimate` skips the trashcan).
pub fn delete_call(resource: &str, params: &DeleteParams, stage: &str) -> (c: ToolCall)
    ensures
        c.spec() == delete_call_spec(resource@, params.id@, params.query_spec(), stage@),
{
    let mut segs: Vec<String> = Vec::new();
    segs.push(owned(resource));
    segs.push(params.id.clone());
    assert(owned_views(segs@) =~= seq![resource@, params.id@]);
    ToolCall {
        method: HttpMethod::Delete,
        root: false,
        auth: CallAuth::Forwarded,
        segments: segs,
        query: owned_query(params.to_query()),
        body: None,
        reply: Reply::Acknowledge { flag: owned("deleted"), id: params.id.clone() },
        stage: owned(stage),
    }
}

/// Two path segments: a resource and an id.
pub fn resource_id(resource: &str, id: &String) -> (r: Vec<String>)
    ensures
        owned_views(r@) == seq![resource@, id@],
{
    let mut segs: Vec<String> = Vec::new();
    segs.push(owned(resource));
    segs.push(id.clone());
    assert(owned_views(segs@) =~= seq![resource@, id@]);
    segs
}

/// Three path segments: a resource, an id and a sub-resource.
pub fn resource_id_sub(resource: &str, id: &String, sub: &str) -> (r: Vec<String>)
    ensures
        owned_views(r@) == seq![resource@, id@, sub@],
{
    let mut segs: Vec<String> = Vec::new();
    segs.push(owned(resource));
    segs.push(id.clone());
    segs.push(owned(sub));
    assert(owned_views(segs@) =~= seq![resource@, id@, sub@]);
    segs
}

/// A get-by-id tool: `GET /<resource>/<id>`, answer passed through.
pub fn get_by_id_call(resource: &str, params: &GetByIdParams, stage: &str) -> (c: ToolCall)
    ensures
        c.spec() == get_call_spec(seq![resource@, params.id@], stage@),
{
    get_call(resource_id(resource, &params.id), stage)
}

/// A call under `/api/v1` with the caller's identity and no query.
pub fn api_tool_call(method: HttpMethod, segments: Vec<String>, body: Option<JsonValue>, reply: Reply, stage: &str) -> (c: ToolCall)
    ensures
        c.spec() == api_call(method, owned_views(segments@), Seq::empty(), opt_model(body), reply.spec(), stage@),
{
    let q: Vec<(String, String)> = Vec::new();
    assert(pair_views(q@) =~= Seq::<(Seq<char>, Seq<char>)>::empty());
    ToolCall { method, root: false, auth: CallAuth::Forwarded, segments, query: q, body, reply, stage: owned(stage) }
}

/// One path segment.
pub fn single(resource: &str) -> (r: Vec<String>)
    ensures
        owned_views(r@) == seq![resource@],
{
    let mut segs: Vec<String> = Vec::new();
    segs.push(owned(resource));
    assert(owned_views(segs@) =~= seq![resource@]);
    segs
}

/// What a tool hands back to the MCP client.
#[derive(Debug)]
pub enum ToolOutput {
    /// Success, rendered as pretty-printed JSON.
    Json(JsonValue),
    /// Success, passed on as text.
    Text(String),
    /// A tool-level error: the calling model sees the message.
    Error(String),
}

/// The mathematical form of [`ToolOutput`].
pub enum OutputSpec {
    Json(Json),
    Text(Seq<char>),
    Error(Seq<char>),
}

impl ToolOutput {
    pub open spec fn model(&self) -> OutputSpec {
        match self {
            ToolOutput::Json(v) => OutputSpec::Json(v.model()),
            ToolOutput::Text(t) => OutputSpec::Text(t@),
            ToolOutput::Error(m) => OutputSpec::Error(m@),
        }
    }
}

/// The acknowledgement of a bodyless success: `{<flag>: true, "id": <id>}`.
pub open spec fn acknowledge_json(flag: Seq<char>, id: Seq<char>) -> Json {
    Json::Object(seq![(flag, Json::Bool(true)), ("id"@, Json::Str(id))])
}

/// Acknowledge a success whose answer carries nothing (a delete, a task
/// stop, a job cancel).
pub fn acknowledge(flag: &str, id: &str) -> (r: JsonValue)
    ensures
        r.model() == acknowledge_json(flag@, id@),
{
    let mut out: Vec<(String, JsonValue)> = Vec::new();
    out.push((owned(flag), JsonValue::Bool(true)));
    out.push((owned("id"), JsonValue::Str(owned(id))));
    proof {
        crate::json::lemma_entry_models(out@);
        assert(entry_models(out@) =~= seq![(flag@, Json::Bool(true)), ("id"@, Json::Str(id@))]);
    }
    JsonValue::Object(out)
}

} // verus!
