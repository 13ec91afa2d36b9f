//! Port-lists toolset: read surface plus create/update/delete.

use vstd::prelude::*;
use crate::json::{key_count, lemma_entries_algebra, str_views, Json, JsonValue};
use super::common::{
    create_call, create_call_spec, delete_call, delete_call_spec, get_by_id_call, get_call_spec,
    list_call, list_call_spec, opt_field, opt_str_json, opt_string, resource_id, update_call,
    update_call_spec, Body, DeleteParams, GetByIdParams, ListParams, ToolCall,
};
use crate::body::lemma_opt_field_algebra;

verus! {

/// Row keys kept by `openvas_list_port_lists`.
pub open spec fn list_port_lists_keys() -> Seq<Seq<char>> {
    seq!["id"@, "name"@, "portCount"@, "tcpCount"@, "udpCount"@, "inUse"@]
}

fn list_port_lists_key_list() -> (r: Vec<&'static str>)
    ensures
        str_views(r@) == list_port_lists_keys(),
{
    let r: Vec<&'static str> = vec!["id", "name", "portCount", "tcpCount", "udpCount", "inUse"];
    assert(str_views(r@) =~= list_port_lists_keys());
    r
}

/// The `openvas_list_port_lists` call: `GET /port-lists` with the list query, each row summarized to
/// its key fields, pagination kept.
pub fn list_port_lists(params: &ListParams) -> (c: ToolCall)
    ensures
        c.spec() == list_call_spec("port-lists"@, "portLists"@, list_port_lists_keys(), params.query_spec(), "listing port lists"@),
{
    let keys = list_port_lists_key_list();
    list_call("port-lists", "portLists", keys.as_slice(), params, "listing port lists")
}

/// The `openvas_get_port_list` call: `GET /port-lists/<id>`, the gateway's JSON passed through.
pub fn get_port_list(params: &GetByIdParams) -> (c: ToolCall)
    ensures
        c.spec() == get_call_spec(seq!["port-lists"@, params.id@], "fetching the port list"@),
{
    get_by_id_call("port-lists", params, "fetching the port list")
}

/// Arguments for `openvas_create_port_list`.
#[derive(Debug)]
pub struct CreatePortListParams {
    /// Port list name
    pub name: String,
    /// Optional comment
    pub comment: Option<String>,
    /// Port range expression, e.g. "T:1-1000,U:53"
    pub port_range: Option<String>,
}

/// The request body of `create_port_list`: the set fields under their gateway keys.
pub open spec fn create_port_list_body(p: CreatePortListParams) -> Seq<(Seq<char>, Json)> {
    Seq::empty()
        + seq![("name"@, Json::Str(p.name@))]
        + opt_field("comment"@, opt_str_json(p.comment))
        + opt_field("portRange"@, opt_str_json(p.port_range))
}

/// Each argument of `openvas_create_port_list` lands under its own gateway key: the body
/// holds every given field under its key, omits the absent ones, carries
/// no other key, and no key twice.
pub proof fn law_create_port_list_body(p: CreatePortListParams)
    ensures
        Json::Object(create_port_list_body(p)).get("name"@) == Some(Json::Str(p.name@)),
        Json::Object(create_port_list_body(p)).get("comment"@) == opt_str_json(p.comment),
        Json::Object(create_port_list_body(p)).get("portRange"@) == opt_str_json(p.port_range),
        forall|key: Seq<char>| #[trigger] key_count(create_port_list_body(p), key) <= 1,
        forall|key: Seq<char>| #[trigger] key_count(create_port_list_body(p), key) > 0 ==> (key == "name"@ || key == "comment"@ || key == "portRange"@),
{
    lemma_entries_algebra();
    lemma_opt_field_algebra();
    reveal_strlit("name");
    assert("name"@.len() == 4);
    reveal_strlit("comment");
    assert("comment"@.len() == 7);
    reveal_strlit("portRange");
    assert("portRange"@.len() == 9);
}

/// The `openvas_create_port_list` call: `POST /port-lists` with the body; the gateway's
/// `{id}` envelope is passed through. Not idempotent.
pub fn create_port_list(params: CreatePortListParams) -> (c: ToolCall)
    ensures
        c.spec() == create_call_spec("port-lists"@, create_port_list_body(params), "creating the port list"@),
{
    let body = Body::new()
        .set("name", JsonValue::Str(params.name))
        .set_opt("comment", opt_string(params.comment))
        .set_opt("portRange", opt_string(params.port_range));
    create_call("port-lists", body, "creating the port list")
}

/// Arguments for `openvas_update_port_list`: omitted fields stay unchanged.
#[derive(Debug)]
pub struct UpdatePortListParams {
    /// UUID of the port list to update
    pub id: String,
    pub comment: Option<String>,
    /// Replacement port range expression, e.g. "T:1-1000,U:53"
    pub port_range: Option<String>,
}

/// The request body of `update_port_list`: the set fields under their gateway keys.
pub open spec fn update_port_list_body(p: UpdatePortListParams) -> Seq<(Seq<char>, Json)> {
    Seq::empty()
        + opt_field("comment"@, opt_str_json(p.comment))
        + opt_field("portRange"@, opt_str_json(p.port_range))
}

/// Each argument of `openvas_update_port_list` lands under its own gateway key: the body
/// holds every given field under its key, omits the absent ones, carries
/// no other key, and no key twice.
pub proof fn law_update_port_list_body(p: UpdatePortListParams)
    ensures
        Json::Object(update_port_list_body(p)).get("comment"@) == opt_str_json(p.comment),
        Json::Object(update_port_list_body(p)).get("portRange"@) == opt_str_json(p.port_range),
        forall|key: Seq<char>| #[trigger] key_count(update_port_list_body(p), key) <= 1,
        forall|key: Seq<char>| #[trigger] key_count(update_port_list_body(p), key) > 0 ==> (key == "comment"@ || key == "portRange"@),
{
    lemma_entries_algebra();
    lemma_opt_field_algebra();
    reveal_strlit("comment");
    assert("comment"@.len() == 7);
    reveal_strlit("portRange");
    assert("portRange"@.len() == 9);
}

/// The `openvas_update_port_list` call: `PUT /port-lists/<id>` with the set fields; the
/// updated resource is passed through.
pub fn update_port_list(params: UpdatePortListParams) -> (c: ToolCall)
    ensures
        c.spec() == update_call_spec(seq!["port-lists"@, params.id@], update_port_list_body(params), "updating the port list"@),
{
    let segs = resource_id("port-lists", &params.id);
    let body = Body::new()
        .set_opt("comment", opt_string(params.comment))
        .set_opt("portRange", opt_string(params.port_range));
    update_call(segs, body, "updating the port list")
}

/// The `openvas_delete_port_list` call: `DELETE /port-lists/<id>` (to the trashcan unless
/// `ultimate`), acknowledged as `{"deleted": true, "id": <id>}`.
pub fn delete_port_list(params: &DeleteParams) -> (c: ToolCall)
    ensures
        c.spec() == delete_call_spec("port-lists"@, params.id@, params.query_spec(), "deleting the port list"@),
{
    delete_call("port-lists", params, "deleting the port list")
}

} // verus!
