//! Schedules toolset: read surface plus create/update/delete.

use vstd::prelude::*;
use crate::json::{key_count, lemma_entries_algebra, str_views, Json, JsonValue};
use super::common::{
    create_call, create_call_spec, delete_call, delete_call_spec, get_by_id_call, get_call_spec,
    list_call, list_call_spec, opt_field, opt_str_json, opt_string, resource_id, update_call,
    update_call_spec, Body, DeleteParams, GetByIdParams, ListParams, ToolCall,
};
use crate::body::lemma_opt_field_algebra;

verus! {

/// Row keys kept by `openvas_list_schedules`.
pub open spec fn list_schedules_keys() -> Seq<Seq<char>> {
    seq!["id"@, "name"@, "timezone"@, "firstRun"@, "nextRun"@, "inUse"@]
}

fn list_schedules_key_list() -> (r: Vec<&'static str>)
    ensures
        str_views(r@) == list_schedules_keys(),
{
    let r: Vec<&'static str> = vec!["id", "name", "timezone", "firstRun", "nextRun", "inUse"];
    assert(str_views(r@) =~= list_schedules_keys());
    r
}

/// The `openvas_list_schedules` call: `GET /schedules` with the list query, each row summarized to
/// its key fields, pagination kept.
pub fn list_schedules(params: &ListParams) -> (c: ToolCall)
    ensures
        c.spec() == list_call_spec("schedules"@, "schedules"@, list_schedules_keys(), params.query_spec(), "listing schedules"@),
{
    let keys = list_schedules_key_list();
    list_call("schedules", "schedules", keys.as_slice(), params, "listing schedules")
}

/// The `openvas_get_schedule` call: `GET /schedules/<id>`, the gateway's JSON passed through.
pub fn get_schedule(params: &GetByIdParams) -> (c: ToolCall)
    ensures
        c.spec() == get_call_spec(seq!["schedules"@, params.id@], "fetching the schedule"@),
{
    get_by_id_call("schedules", params, "fetching the schedule")
}

/// Arguments for `openvas_create_schedule`.
#[derive(Debug)]
pub struct CreateScheduleParams {
    /// Schedule name
    pub name: String,
    /// iCalendar (RFC 5545) definition, e.g. a VEVENT with RRULE
    pub icalendar: String,
    /// IANA timezone, e.g. "UTC" or "Europe/Istanbul"
    pub timezone: String,
    /// Optional comment
    pub comment: Option<String>,
}

/// The request body of `create_schedule`: the set fields under their gateway keys.
pub open spec fn create_schedule_body(p: CreateScheduleParams) -> Seq<(Seq<char>, Json)> {
    Seq::empty()
        + seq![("name"@, Json::Str(p.name@))]
        + seq![("icalendar"@, Json::Str(p.icalendar@))]
        + seq![("timezone"@, Json::Str(p.timezone@))]
        + opt_field("comment"@, opt_str_json(p.comment))
}

/// Each argument of `openvas_create_schedule` lands under its own gateway key: the body
/// holds every given field under its key, omits the absent ones, carries
/// no other key, and no key twice.
pub proof fn law_create_schedule_body(p: CreateScheduleParams)
    ensures
        Json::Object(create_schedule_body(p)).get("name"@) == Some(Json::Str(p.name@)),
        Json::Object(create_schedule_body(p)).get("icalendar"@) == Some(Json::Str(p.icalendar@)),
        Json::Object(create_schedule_body(p)).get("timezone"@) == Some(Json::Str(p.timezone@)),
        Json::Object(create_schedule_body(p)).get("comment"@) == opt_str_json(p.comment),
        forall|key: Seq<char>| #[trigger] key_count(create_schedule_body(p), key) <= 1,
        forall|key: Seq<char>| #[trigger] key_count(create_schedule_body(p), key) > 0 ==> (key == "name"@ || key == "icalendar"@ || key == "timezone"@ || key == "comment"@),
{
    lemma_entries_algebra();
    lemma_opt_field_algebra();
    reveal_strlit("name");
    assert("name"@.len() == 4);
    reveal_strlit("icalendar");
    assert("icalendar"@.len() == 9);
    reveal_strlit("timezone");
    assert("timezone"@.len() == 8);
    reveal_strlit("comment");
    assert("comment"@.len() == 7);
}

/// The `openvas_create_schedule` call: `POST /schedules` with the body; the gateway's
/// `{id}` envelope is passed through. Not idempotent.
pub fn create_schedule(params: CreateScheduleParams) -> (c: ToolCall)
    ensures
        c.spec() == create_call_spec("schedules"@, create_schedule_body(params), "creating the schedule"@),
{
    let body = Body::new()
        .set("name", JsonValue::Str(params.name))
        .set("icalendar", JsonValue::Str(params.icalendar))
        .set("timezone", JsonValue::Str(params.timezone))
        .set_opt("comment", opt_string(params.comment));
    create_call("schedules", body, "creating the schedule")
}

/// Arguments for `openvas_update_schedule`: omitted fields stay unchanged.
#[derive(Debug)]
pub struct UpdateScheduleParams {
    /// UUID of the schedule to update
    pub id: String,
    pub name: Option<String>,
    pub comment: Option<String>,
    /// Replacement iCalendar (RFC 5545) definition
    pub icalendar: Option<String>,
    /// Replacement IANA timezone
    pub timezone: Option<String>,
}

/// The request body of `update_schedule`: the set fields under their gateway keys.
pub open spec fn update_schedule_body(p: UpdateScheduleParams) -> Seq<(Seq<char>, Json)> {
    Seq::empty()
        + opt_field("name"@, opt_str_json(p.name))
        + opt_field("comment"@, opt_str_json(p.comment))
        + opt_field("icalendar"@, opt_str_json(p.icalendar))
        + opt_field("timezone"@, opt_str_json(p.timezone))
}

/// Each argument of `openvas_update_schedule` lands under its own gateway key: the body
/// holds every given field under its key, omits the absent ones, carries
/// no other key, and no key twice.
pub proof fn law_update_schedule_body(p: UpdateScheduleParams)
    ensures
        Json::Object(update_schedule_body(p)).get("name"@) == opt_str_json(p.name),
        Json::Object(update_schedule_body(p)).get("comment"@) == opt_str_json(p.comment),
        Json::Object(update_schedule_body(p)).get("icalendar"@) == opt_str_json(p.icalendar),
        Json::Object(update_schedule_body(p)).get("timezone"@) == opt_str_json(p.timezone),
        forall|key: Seq<char>| #[trigger] key_count(update_schedule_body(p), key) <= 1,
        forall|key: Seq<char>| #[trigger] key_count(update_schedule_body(p), key) > 0 ==> (key == "name"@ || key == "comment"@ || key == "icalendar"@ || key == "timezone"@),
{
    lemma_entries_algebra();
    lemma_opt_field_algebra();
    reveal_strlit("name");
    assert("name"@.len() == 4);
    reveal_strlit("comment");
    assert("comment"@.len() == 7);
    reveal_strlit("icalendar");
    assert("icalendar"@.len() == 9);
    reveal_strlit("timezone");
    assert("timezone"@.len() == 8);
}

/// The `openvas_update_schedule` call: `PUT /schedules/<id>` with the set fields; the
/// updated resource is passed through.
pub fn update_schedule(params: UpdateScheduleParams) -> (c: ToolCall)
    ensures
        c.spec() == update_call_spec(seq!["schedules"@, params.id@], update_schedule_body(params), "updating the schedule"@),
{
    let segs = resource_id("schedules", &params.id);
    let body = Body::new()
        .set_opt("name", opt_string(params.name))
        .set_opt("comment", opt_string(params.comment))
        .set_opt("icalendar", opt_string(params.icalendar))
        .set_opt("timezone", opt_string(params.timezone));
    update_call(segs, body, "updating the schedule")
}

/// The `openvas_delete_schedule` call: `DELETE /schedules/<id>` (to the trashcan unless
/// `ultimate`), acknowledged as `{"deleted": true, "id": <id>}`.
pub fn delete_schedule(params: &DeleteParams) -> (c: ToolCall)
    ensures
        c.spec() == delete_call_spec("schedules"@, params.id@, params.query_spec(), "deleting the schedule"@),
{
    delete_call("schedules", params, "deleting the schedule")
}

} // verus!
