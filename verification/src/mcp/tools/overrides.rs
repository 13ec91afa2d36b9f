//! Overrides toolset: read surface plus create/update/delete.

use vstd::prelude::*;
use crate::json::{key_count, lemma_entries_algebra, str_views, Json, JsonValue};
use super::common::{
    create_call, create_call_spec, delete_call, delete_call_spec, get_by_id_call, get_call_spec,
    list_call, list_call_spec, opt_bool, opt_bool_json, opt_field, opt_str_json, opt_string,
    opt_strings, opt_strings_json, resource_id, update_call, update_call_spec, Body, DeleteParams,
    GetByIdParams, ListParams, ToolCall,
};
use crate::body::lemma_opt_field_algebra;

verus! {

/// Row keys kept by `openvas_list_overrides`.
pub open spec fn list_overrides_keys() -> Seq<Seq<char>> {
    seq!["id"@, "text"@, "nvt"@, "hosts"@, "severity"@, "newSeverity"@, "active"@]
}

fn list_overrides_key_list() -> (r: Vec<&'static str>)
    ensures
        str_views(r@) == list_overrides_keys(),
{
    let r: Vec<&'static str> = vec!["id", "text", "nvt", "hosts", "severity", "newSeverity", "active"];
    assert(str_views(r@) =~= list_overrides_keys());
    r
}

/// The `openvas_list_overrides` call: `GET /overrides` with the list query, each row summarized to
/// its key fields, pagination kept.
pub fn list_overrides(params: &ListParams) -> (c: ToolCall)
    ensures
        c.spec() == list_call_spec("overrides"@, "overrides"@, list_overrides_keys(), params.query_spec(), "listing overrides"@),
{
    let keys = list_overrides_key_list();
    list_call("overrides", "overrides", keys.as_slice(), params, "listing overrides")
}

/// The `openvas_get_override` call: `GET /overrides/<id>`, the gateway's JSON passed through.
pub fn get_override(params: &GetByIdParams) -> (c: ToolCall)
    ensures
        c.spec() == get_call_spec(seq!["overrides"@, params.id@], "fetching the override"@),
{
    get_by_id_call("overrides", params, "fetching the override")
}

/// Arguments for `openvas_create_override`.
#[derive(Debug)]
pub struct CreateOverrideParams {
    /// OID of the NVT the override applies to
    pub nvt_oid: String,
    /// Justification text
    pub text: Option<String>,
    /// Restrict to these hosts
    pub hosts: Option<Vec<String>>,
    /// Restrict to a port, e.g. "22/tcp"
    pub port: Option<String>,
    /// Match results with this severity (string per GMP, e.g. "7.5")
    pub severity: Option<String>,
    /// Severity to report instead (string per GMP, e.g. "0.0" for false positive)
    pub new_severity: Option<String>,
    /// Restrict to one task by UUID
    pub task_id: Option<String>,
    /// Attach to one specific result by UUID
    pub result_id: Option<String>,
    /// Whether the override is active
    pub active: Option<bool>,
}

/// The request body of `create_override`: the set fields under their gateway keys.
pub open spec fn create_override_body(p: CreateOverrideParams) -> Seq<(Seq<char>, Json)> {
    Seq::empty()
        + seq![("nvtOid"@, Json::Str(p.nvt_oid@))]
        + opt_field("text"@, opt_str_json(p.text))
        + opt_field("hosts"@, opt_strings_json(p.hosts))
        + opt_field("port"@, opt_str_json(p.port))
        + opt_field("severity"@, opt_str_json(p.severity))
        + opt_field("newSeverity"@, opt_str_json(p.new_severity))
        + opt_field("taskId"@, opt_str_json(p.task_id))
        + opt_field("resultId"@, opt_str_json(p.result_id))
        + opt_field("active"@, opt_bool_json(p.active))
}

/// Each argument of `openvas_create_override` lands under its own gateway key: the body
/// holds every given field under its key, omits the absent ones, carries
/// no other key, and no key twice.
pub proof fn law_create_override_body(p: CreateOverrideParams)
    ensures
        Json::Object(create_override_body(p)).get("nvtOid"@) == Some(Json::Str(p.nvt_oid@)),
        Json::Object(create_override_body(p)).get("text"@) == opt_str_json(p.text),
        Json::Object(create_override_body(p)).get("hosts"@) == opt_strings_json(p.hosts),
        Json::Object(create_override_body(p)).get("port"@) == opt_str_json(p.port),
        Json::Object(create_override_body(p)).get("severity"@) == opt_str_json(p.severity),
        Json::Object(create_override_body(p)).get("newSeverity"@) == opt_str_json(p.new_severity),
        Json::Object(create_override_body(p)).get("taskId"@) == opt_str_json(p.task_id),
        Json::Object(create_override_body(p)).get("resultId"@) == opt_str_json(p.result_id),
        Json::Object(create_override_body(p)).get("active"@) == opt_bool_json(p.active),
        forall|key: Seq<char>| #[trigger] key_count(create_override_body(p), key) <= 1,
        forall|key: Seq<char>| #[trigger] key_count(create_override_body(p), key) > 0 ==> (key == "nvtOid"@ || key == "text"@ || key == "hosts"@ || key == "port"@ || key == "severity"@ || key == "newSeverity"@ || key == "taskId"@ || key == "resultId"@ || key == "active"@),
{
    lemma_entries_algebra();
    lemma_opt_field_algebra();
    reveal_strlit("nvtOid");
    assert("nvtOid"@.len() == 6);
    reveal_strlit("text");
    assert("text"@.len() == 4);
    reveal_strlit("hosts");
    assert("hosts"@.len() == 5);
    reveal_strlit("port");
    assert("port"@.len() == 4);
    reveal_strlit("severity");
    assert("severity"@.len() == 8);
    reveal_strlit("newSeverity");
    assert("newSeverity"@.len() == 11);
    reveal_strlit("taskId");
    assert("taskId"@.len() == 6);
    reveal_strlit("resultId");
    assert("resultId"@.len() == 8);
    reveal_strlit("active");
    assert("active"@.len() == 6);
    assert("nvtOid"@[0] != "taskId"@[0]);
    assert("nvtOid"@[0] != "active"@[0]);
    assert("text"@[0] != "port"@[0]);
    assert("severity"@[0] != "resultId"@[0]);
    assert("taskId"@[0] != "active"@[0]);
}

/// The `openvas_create_override` call: `POST /overrides` with the body; the gateway's
/// `{id}` envelope is passed through. Not idempotent.
pub fn create_override(params: CreateOverrideParams) -> (c: ToolCall)
    ensures
        c.spec() == create_call_spec("overrides"@, create_override_body(params), "creating the override"@),
{
    let body = Body::new()
        .set("nvtOid", JsonValue::Str(params.nvt_oid))
        .set_opt("text", opt_string(params.text))
        .set_opt("hosts", opt_strings(params.hosts))
        .set_opt("port", opt_string(params.port))
        .set_opt("severity", opt_string(params.severity))
        .set_opt("newSeverity", opt_string(params.new_severity))
        .set_opt("taskId", opt_string(params.task_id))
        .set_opt("resultId", opt_string(params.result_id))
        .set_opt("active", opt_bool(params.active));
    create_call("overrides", body, "creating the override")
}

/// Arguments for `openvas_update_override`: omitted fields stay unchanged.
#[derive(Debug)]
pub struct UpdateOverrideParams {
    /// UUID of the override to update
    pub id: String,
    /// Justification text
    pub text: Option<String>,
    /// Restrict to these hosts
    pub hosts: Option<Vec<String>>,
    /// Restrict to a port, e.g. "22/tcp"
    pub port: Option<String>,
    /// Match results with this severity (string per GMP, e.g. "7.5")
    pub severity: Option<String>,
    /// Severity to report instead (string per GMP, e.g. "0.0" for false positive)
    pub new_severity: Option<String>,
    /// Restrict to one task by UUID
    pub task_id: Option<String>,
    /// Attach to one specific result by UUID
    pub result_id: Option<String>,
    /// Whether the override is active
    pub active: Option<bool>,
}

/// The request body of `update_override`: the set fields under their gateway keys.
pub open spec fn update_override_body(p: UpdateOverrideParams) -> Seq<(Seq<char>, Json)> {
    Seq::empty()
        + opt_field("text"@, opt_str_json(p.text))
        + opt_field("hosts"@, opt_strings_json(p.hosts))
        + opt_field("port"@, opt_str_json(p.port))
        + opt_field("severity"@, opt_str_json(p.severity))
        + opt_field("newSeverity"@, opt_str_json(p.new_severity))
        + opt_field("taskId"@, opt_str_json(p.task_id))
        + opt_field("resultId"@, opt_str_json(p.result_id))
        + opt_field("active"@, opt_bool_json(p.active))
}

/// Each argument of `openvas_update_override` lands under its own gateway key: the body
/// holds every given field under its key, omits the absent ones, carries
/// no other key, and no key twice.
pub proof fn law_update_override_body(p: UpdateOverrideParams)
    ensures
        Json::Object(update_override_body(p)).get("text"@) == opt_str_json(p.text),
        Json::Object(update_override_body(p)).get("hosts"@) == opt_strings_json(p.hosts),
        Json::Object(update_override_body(p)).get("port"@) == opt_str_json(p.port),
        Json::Object(update_override_body(p)).get("severity"@) == opt_str_json(p.severity),
        Json::Object(update_override_body(p)).get("newSeverity"@) == opt_str_json(p.new_severity),
        Json::Object(update_override_body(p)).get("taskId"@) == opt_str_json(p.task_id),
        Json::Object(update_override_body(p)).get("resultId"@) == opt_str_json(p.result_id),
        Json::Object(update_override_body(p)).get("active"@) == opt_bool_json(p.active),
        forall|key: Seq<char>| #[trigger] key_count(update_override_body(p), key) <= 1,
        forall|key: Seq<char>| #[trigger] key_count(update_override_body(p), key) > 0 ==> (key == "text"@ || key == "hosts"@ || key == "port"@ || key == "severity"@ || key == "newSeverity"@ || key == "taskId"@ || key == "resultId"@ || key == "active"@),
{
    lemma_entries_algebra();
    lemma_opt_field_algebra();
    reveal_strlit("text");
    assert("text"@.len() == 4);
    reveal_strlit("hosts");
    assert("hosts"@.len() == 5);
    reveal_strlit("port");
    assert("port"@.len() == 4);
    reveal_strlit("severity");
    assert("severity"@.len() == 8);
    reveal_strlit("newSeverity");
    assert("newSeverity"@.len() == 11);
    reveal_strlit("taskId");
    assert("taskId"@.len() == 6);
    reveal_strlit("resultId");
    assert("resultId"@.len() == 8);
    reveal_strlit("active");
    assert("active"@.len() == 6);
    assert("text"@[0] != "port"@[0]);
    assert("severity"@[0] != "resultId"@[0]);
    assert("taskId"@[0] != "active"@[0]);
}

/// The `openvas_update_override` call: `PUT /overrides/<id>` with the set fields; the
/// updated resource is passed through.
pub fn update_override(params: UpdateOverrideParams) -> (c: ToolCall)
    ensures
        c.spec() == update_call_spec(seq!["overrides"@, params.id@], update_override_body(params), "updating the override"@),
{
    let segs = resource_id("overrides", &params.id);
    let body = Body::new()
        .set_opt("text", opt_string(params.text))
        .set_opt("hosts", opt_strings(params.hosts))
        .set_opt("port", opt_string(params.port))
        .set_opt("severity", opt_string(params.severity))
        .set_opt("newSeverity", opt_string(params.new_severity))
        .set_opt("taskId", opt_string(params.task_id))
        .set_opt("resultId", opt_string(params.result_id))
        .set_opt("active", opt_bool(params.active));
    update_call(segs, body, "updating the override")
}

/// The `openvas_delete_override` call: `DELETE /overrides/<id>` (to the trashcan unless
/// `ultimate`), acknowledged as `{"deleted": true, "id": <id>}`.
pub fn delete_override(params: &DeleteParams) -> (c: ToolCall)
    ensures
        c.spec() == delete_call_spec("overrides"@, params.id@, params.query_spec(), "deleting the override"@),
{
    delete_call("overrides", params, "deleting the override")
}

} // verus!
