//! Alerts toolset: read surface plus create/update/delete.

use vstd::prelude::*;
use crate::json::{key_count, lemma_entries_algebra, str_views, Json, JsonValue};
use super::common::{
    create_call, create_call_spec, delete_call, delete_call_spec, get_by_id_call, get_call_spec,
    list_call, list_call_spec, opt_field, opt_str_json, opt_string, opt_string_map,
    opt_string_map_json, resource_id, update_call, update_call_spec, Body, DeleteParams,
    GetByIdParams, ListParams, ToolCall,
};
use crate::body::lemma_opt_field_algebra;

verus! {

/// Row keys kept by `openvas_list_alerts`.
pub open spec fn list_alerts_keys() -> Seq<Seq<char>> {
    seq!["id"@, "name"@, "event"@, "condition"@, "method"@, "inUse"@]
}

fn list_alerts_key_list() -> (r: Vec<&'static str>)
    ensures
        str_views(r@) == list_alerts_keys(),
{
    let r: Vec<&'static str> = vec!["id", "name", "event", "condition", "method", "inUse"];
    assert(str_views(r@) =~= list_alerts_keys());
    r
}

/// The `openvas_list_alerts` call: `GET /alerts` with the list query, each row summarized to
/// its key fields, pagination kept.
pub fn list_alerts(params: &ListParams) -> (c: ToolCall)
    ensures
        c.spec() == list_call_spec("alerts"@, "alerts"@, list_alerts_keys(), params.query_spec(), "listing alerts"@),
{
    let keys = list_alerts_key_list();
    list_call("alerts", "alerts", keys.as_slice(), params, "listing alerts")
}

/// The `openvas_get_alert` call: `GET /alerts/<id>`, the gateway's JSON passed through.
pub fn get_alert(params: &GetByIdParams) -> (c: ToolCall)
    ensures
        c.spec() == get_call_spec(seq!["alerts"@, params.id@], "fetching the alert"@),
{
    get_by_id_call("alerts", params, "fetching the alert")
}

/// Arguments for `openvas_create_alert`.
#[derive(Debug)]
pub struct CreateAlertParams {
    /// Alert name
    pub name: String,
    /// Trigger event, e.g. "Task run status changed"
    pub event: String,
    /// Trigger condition, e.g. "Always" or "Severity at least"
    pub condition: String,
    /// Delivery method, e.g. "Email" or "HTTP Get"
    pub method: String,
    /// Optional comment
    pub comment: Option<String>,
    /// Event parameters, e.g. {"status": "Done"}
    pub event_data: Option<Vec<(String, String)>>,
    /// Condition parameters, e.g. {"severity": "7.0"}
    pub condition_data: Option<Vec<(String, String)>>,
    /// Method parameters, e.g. {"to_address": "sec@example.com"}
    pub method_data: Option<Vec<(String, String)>>,
    /// UUID of a filter restricting which results the alert reports
    pub filter_id: Option<String>,
}

/// The request body of `create_alert`: the set fields under their gateway keys.
pub open spec fn create_alert_body(p: CreateAlertParams) -> Seq<(Seq<char>, Json)> {
    Seq::empty()
        + seq![("name"@, Json::Str(p.name@))]
        + seq![("event"@, Json::Str(p.event@))]
        + seq![("condition"@, Json::Str(p.condition@))]
        + seq![("method"@, Json::Str(p.method@))]
        + opt_field("comment"@, opt_str_json(p.comment))
        + opt_field("eventData"@, opt_string_map_json(p.event_data))
        + opt_field("conditionData"@, opt_string_map_json(p.condition_data))
        + opt_field("methodData"@, opt_string_map_json(p.method_data))
        + opt_field("filterId"@, opt_str_json(p.filter_id))
}

/// Each argument of `openvas_create_alert` lands under its own gateway key: the body
/// holds every given field under its key, omits the absent ones, carries
/// no other key, and no key twice.
pub proof fn law_create_alert_body(p: CreateAlertParams)
    ensures
        Json::Object(create_alert_body(p)).get("name"@) == Some(Json::Str(p.name@)),
        Json::Object(create_alert_body(p)).get("event"@) == Some(Json::Str(p.event@)),
        Json::Object(create_alert_body(p)).get("condition"@) == Some(Json::Str(p.condition@)),
        Json::Object(create_alert_body(p)).get("method"@) == Some(Json::Str(p.method@)),
        Json::Object(create_alert_body(p)).get("comment"@) == opt_str_json(p.comment),
        Json::Object(create_alert_body(p)).get("eventData"@) == opt_string_map_json(p.event_data),
        Json::Object(create_alert_body(p)).get("conditionData"@) == opt_string_map_json(p.condition_data),
        Json::Object(create_alert_body(p)).get("methodData"@) == opt_string_map_json(p.method_data),
        Json::Object(create_alert_body(p)).get("filterId"@) == opt_str_json(p.filter_id),
        forall|key: Seq<char>| #[trigger] key_count(create_alert_body(p), key) <= 1,
        forall|key: Seq<char>| #[trigger] key_count(create_alert_body(p), key) > 0 ==> (key == "name"@ || key == "event"@ || key == "condition"@ || key == "method"@ || key == "comment"@ || key == "eventData"@ || key == "conditionData"@ || key == "methodData"@ || key == "filterId"@),
{
    lemma_entries_algebra();
    lemma_opt_field_algebra();
    reveal_strlit("name");
    assert("name"@.len() == 4);
    reveal_strlit("event");
    assert("event"@.len() == 5);
    reveal_strlit("condition");
    assert("condition"@.len() == 9);
    reveal_strlit("method");
    assert("method"@.len() == 6);
    reveal_strlit("comment");
    assert("comment"@.len() == 7);
    reveal_strlit("eventData");
    assert("eventData"@.len() == 9);
    reveal_strlit("conditionData");
    assert("conditionData"@.len() == 13);
    reveal_strlit("methodData");
    assert("methodData"@.len() == 10);
    reveal_strlit("filterId");
    assert("filterId"@.len() == 8);
    assert("condition"@[0] != "eventData"@[0]);
}

/// The `openvas_create_alert` call: `POST /alerts` with the body; the gateway's
/// `{id}` envelope is passed through. Not idempotent.
pub fn create_alert(params: CreateAlertParams) -> (c: ToolCall)
    ensures
        c.spec() == create_call_spec("alerts"@, create_alert_body(params), "creating the alert"@),
{
    let body = Body::new()
        .set("name", JsonValue::Str(params.name))
        .set("event", JsonValue::Str(params.event))
        .set("condition", JsonValue::Str(params.condition))
        .set("method", JsonValue::Str(params.method))
        .set_opt("comment", opt_string(params.comment))
        .set_opt("eventData", opt_string_map(params.event_data))
        .set_opt("conditionData", opt_string_map(params.condition_data))
        .set_opt("methodData", opt_string_map(params.method_data))
        .set_opt("filterId", opt_string(params.filter_id));
    create_call("alerts", body, "creating the alert")
}

/// Arguments for `openvas_update_alert`: omitted fields stay unchanged.
#[derive(Debug)]
pub struct UpdateAlertParams {
    /// UUID of the alert to update
    pub id: String,
    pub name: Option<String>,
    pub comment: Option<String>,
    pub event: Option<String>,
    pub condition: Option<String>,
    pub method: Option<String>,
    pub event_data: Option<Vec<(String, String)>>,
    pub condition_data: Option<Vec<(String, String)>>,
    pub method_data: Option<Vec<(String, String)>>,
    pub filter_id: Option<String>,
}

/// The request body of `update_alert`: the set fields under their gateway keys.
pub open spec fn update_alert_body(p: UpdateAlertParams) -> Seq<(Seq<char>, Json)> {
    Seq::empty()
        + opt_field("name"@, opt_str_json(p.name))
        + opt_field("comment"@, opt_str_json(p.comment))
        + opt_field("event"@, opt_str_json(p.event))
        + opt_field("condition"@, opt_str_json(p.condition))
        + opt_field("method"@, opt_str_json(p.method))
        + opt_field("eventData"@, opt_string_map_json(p.event_data))
        + opt_field("conditionData"@, opt_string_map_json(p.condition_data))
        + opt_field("methodData"@, opt_string_map_json(p.method_data))
        + opt_field("filterId"@, opt_str_json(p.filter_id))
}

/// Each argument of `openvas_update_alert` lands under its own gateway key: the body
/// holds every given field under its key, omits the absent ones, carries
/// no other key, and no key twice.
pub proof fn law_update_alert_body(p: UpdateAlertParams)
    ensures
        Json::Object(update_alert_body(p)).get("name"@) == opt_str_json(p.name),
        Json::Object(update_alert_body(p)).get("comment"@) == opt_str_json(p.comment),
        Json::Object(update_alert_body(p)).get("event"@) == opt_str_json(p.event),
        Json::Object(update_alert_body(p)).get("condition"@) == opt_str_json(p.condition),
        Json::Object(update_alert_body(p)).get("method"@) == opt_str_json(p.method),
        Json::Object(update_alert_body(p)).get("eventData"@) == opt_string_map_json(p.event_data),
        Json::Object(update_alert_body(p)).get("conditionData"@) == opt_string_map_json(p.condition_data),
        Json::Object(update_alert_body(p)).get("methodData"@) == opt_string_map_json(p.method_data),
        Json::Object(update_alert_body(p)).get("filterId"@) == opt_str_json(p.filter_id),
        forall|key: Seq<char>| #[trigger] key_count(update_alert_body(p), key) <= 1,
        forall|key: Seq<char>| #[trigger] key_count(update_alert_body(p), key) > 0 ==> (key == "name"@ || key == "comment"@ || key == "event"@ || key == "condition"@ || key == "method"@ || key == "eventData"@ || key == "conditionData"@ || key == "methodData"@ || key == "filterId"@),
{
    lemma_entries_algebra();
    lemma_opt_field_algebra();
    reveal_strlit("name");
    assert("name"@.len() == 4);
    reveal_strlit("comment");
    assert("comment"@.len() == 7);
    reveal_strlit("event");
    assert("event"@.len() == 5);
    reveal_strlit("condition");
    assert("condition"@.len() == 9);
    reveal_strlit("method");
    assert("method"@.len() == 6);
    reveal_strlit("eventData");
    assert("eventData"@.len() == 9);
    reveal_strlit("conditionData");
    assert("conditionData"@.len() == 13);
    reveal_strlit("methodData");
    assert("methodData"@.len() == 10);
    reveal_strlit("filterId");
    assert("filterId"@.len() == 8);
    assert("condition"@[0] != "eventData"@[0]);
}

/// The `openvas_update_alert` call: `PUT /alerts/<id>` with the set fields; the
/// updated resource is passed through.
pub fn update_alert(params: UpdateAlertParams) -> (c: ToolCall)
    ensures
        c.spec() == update_call_spec(seq!["alerts"@, params.id@], update_alert_body(params), "updating the alert"@),
{
    let segs = resource_id("alerts", &params.id);
    let body = Body::new()
        .set_opt("name", opt_string(params.name))
        .set_opt("comment", opt_string(params.comment))
        .set_opt("event", opt_string(params.event))
        .set_opt("condition", opt_string(params.condition))
        .set_opt("method", opt_string(params.method))
        .set_opt("eventData", opt_string_map(params.event_data))
        .set_opt("conditionData", opt_string_map(params.condition_data))
        .set_opt("methodData", opt_string_map(params.method_data))
        .set_opt("filterId", opt_string(params.filter_id));
    update_call(segs, body, "updating the alert")
}

/// The `openvas_delete_alert` call: `DELETE /alerts/<id>` (to the trashcan unless
/// `ultimate`), acknowledged as `{"deleted": true, "id": <id>}`.
pub fn delete_alert(params: &DeleteParams) -> (c: ToolCall)
    ensures
        c.spec() == delete_call_spec("alerts"@, params.id@, params.query_spec(), "deleting the alert"@),
{
    delete_call("alerts", params, "deleting the alert")
}

} // verus!
