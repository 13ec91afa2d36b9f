//! Scan-configs toolset: read surface plus create (as a copy of an existing
//! config)/update/delete.

use vstd::prelude::*;
use crate::json::{key_count, lemma_entries_algebra, str_views, Json, JsonValue};
use super::common::{
    create_call, create_call_spec, delete_call, delete_call_spec, get_by_id_call, get_call_spec,
    list_call, list_call_spec, opt_field, opt_str_json, opt_string, resource_id, update_call,
    update_call_spec, Body, DeleteParams, GetByIdParams, ListParams, ToolCall,
};
use crate::body::lemma_opt_field_algebra;

verus! {

/// Row keys kept by `openvas_list_scan_configs`.
pub open spec fn list_scan_configs_keys() -> Seq<Seq<char>> {
    seq!["id"@, "name"@, "comment"@, "familyCount"@, "nvtCount"@, "type"@, "inUse"@]
}

fn list_scan_configs_key_list() -> (r: Vec<&'static str>)
    ensures
        str_views(r@) == list_scan_configs_keys(),
{
    let r: Vec<&'static str> = vec!["id", "name", "comment", "familyCount", "nvtCount", "type", "inUse"];
    assert(str_views(r@) =~= list_scan_configs_keys());
    r
}

/// The `openvas_list_scan_configs` call: `GET /scan-configs` with the list query, each row summarized to
/// its key fields, pagination kept.
pub fn list_scan_configs(params: &ListParams) -> (c: ToolCall)
    ensures
        c.spec() == list_call_spec("scan-configs"@, "scanConfigs"@, list_scan_configs_keys(), params.query_spec(), "listing scan configs"@),
{
    let keys = list_scan_configs_key_list();
    list_call("scan-configs", "scanConfigs", keys.as_slice(), params, "listing scan configs")
}

/// The `openvas_get_scan_config` call: `GET /scan-configs/<id>`, the gateway's JSON passed through.
pub fn get_scan_config(params: &GetByIdParams) -> (c: ToolCall)
    ensures
        c.spec() == get_call_spec(seq!["scan-configs"@, params.id@], "fetching the scan config"@),
{
    get_by_id_call("scan-configs", params, "fetching the scan config")
}

/// Arguments for `openvas_create_scan_config`.
#[derive(Debug)]
pub struct CreateScanConfigParams {
    /// Scan config name
    pub name: String,
    /// UUID of the scan config to copy, e.g. "Full and fast"
    pub base_config_id: String,
    /// Optional comment
    pub comment: Option<String>,
}

/// The request body of `create_scan_config`: the set fields under their gateway keys.
pub open spec fn create_scan_config_body(p: CreateScanConfigParams) -> Seq<(Seq<char>, Json)> {
    Seq::empty()
        + seq![("name"@, Json::Str(p.name@))]
        + seq![("baseConfigId"@, Json::Str(p.base_config_id@))]
        + opt_field("comment"@, opt_str_json(p.comment))
}

/// Each argument of `openvas_create_scan_config` lands under its own gateway key: the body
/// holds every given field under its key, omits the absent ones, carries
/// no other key, and no key twice.
pub proof fn law_create_scan_config_body(p: CreateScanConfigParams)
    ensures
        Json::Object(create_scan_config_body(p)).get("name"@) == Some(Json::Str(p.name@)),
        Json::Object(create_scan_config_body(p)).get("baseConfigId"@) == Some(Json::Str(p.base_config_id@)),
        Json::Object(create_scan_config_body(p)).get("comment"@) == opt_str_json(p.comment),
        forall|key: Seq<char>| #[trigger] key_count(create_scan_config_body(p), key) <= 1,
        forall|key: Seq<char>| #[trigger] key_count(create_scan_config_body(p), key) > 0 ==> (key == "name"@ || key == "baseConfigId"@ || key == "comment"@),
{
    lemma_entries_algebra();
    lemma_opt_field_algebra();
    reveal_strlit("name");
    assert("name"@.len() == 4);
    reveal_strlit("baseConfigId");
    assert("baseConfigId"@.len() == 12);
    reveal_strlit("comment");
    assert("comment"@.len() == 7);
}

/// The `openvas_create_scan_config` call: `POST /scan-configs` with the body; the gateway's
/// `{id}` envelope is passed through. Not idempotent.
pub fn create_scan_config(params: CreateScanConfigParams) -> (c: ToolCall)
    ensures
        c.spec() == create_call_spec("scan-configs"@, create_scan_config_body(params), "creating the scan config"@),
{
    let body = Body::new()
        .set("name", JsonValue::Str(params.name))
        .set("baseConfigId", JsonValue::Str(params.base_config_id))
        .set_opt("comment", opt_string(params.comment));
    create_call("scan-configs", body, "creating the scan config")
}

/// Arguments for `openvas_update_scan_config`: omitted fields stay unchanged.
#[derive(Debug)]
pub struct UpdateScanConfigParams {
    /// UUID of the scan config to update
    pub id: String,
    pub name: Option<String>,
    pub comment: Option<String>,
}

/// The request body of `update_scan_config`: the set fields under their gateway keys.
pub open spec fn update_scan_config_body(p: UpdateScanConfigParams) -> Seq<(Seq<char>, Json)> {
    Seq::empty()
        + opt_field("name"@, opt_str_json(p.name))
        + opt_field("comment"@, opt_str_json(p.comment))
}

/// Each argument of `openvas_update_scan_config` lands under its own gateway key: the body
/// holds every given field under its key, omits the absent ones, carries
/// no other key, and no key twice.
pub proof fn law_update_scan_config_body(p: UpdateScanConfigParams)
    ensures
        Json::Object(update_scan_config_body(p)).get("name"@) == opt_str_json(p.name),
        Json::Object(update_scan_config_body(p)).get("comment"@) == opt_str_json(p.comment),
        forall|key: Seq<char>| #[trigger] key_count(update_scan_config_body(p), key) <= 1,
        forall|key: Seq<char>| #[trigger] key_count(update_scan_config_body(p), key) > 0 ==> (key == "name"@ || key == "comment"@),
{
    lemma_entries_algebra();
    lemma_opt_field_algebra();
    reveal_strlit("name");
    assert("name"@.len() == 4);
    reveal_strlit("comment");
    assert("comment"@.len() == 7);
}

/// The `openvas_update_scan_config` call: `PUT /scan-configs/<id>` with the set fields; the
/// updated resource is passed through.
pub fn update_scan_config(params: UpdateScanConfigParams) -> (c: ToolCall)
    ensures
        c.spec() == update_call_spec(seq!["scan-configs"@, params.id@], update_scan_config_body(params), "updating the scan config"@),
{
    let segs = resource_id("scan-configs", &params.id);
    let body = Body::new()
        .set_opt("name", opt_string(params.name))
        .set_opt("comment", opt_string(params.comment));
    update_call(segs, body, "updating the scan config")
}

/// The `openvas_delete_scan_config` call: `DELETE /scan-configs/<id>` (to the trashcan unless
/// `ultimate`), acknowledged as `{"deleted": true, "id": <id>}`.
pub fn delete_scan_config(params: &DeleteParams) -> (c: ToolCall)
    ensures
        c.spec() == delete_call_spec("scan-configs"@, params.id@, params.query_spec(), "deleting the scan config"@),
{
    delete_call("scan-configs", params, "deleting the scan config")
}

} // verus!
