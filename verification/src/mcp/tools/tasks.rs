//! Tasks toolset: read surface plus the full task lifecycle.

use vstd::prelude::*;
use crate::json::{key_count, lemma_entries_algebra, Json, JsonValue};
use super::common::{
    delete_call, delete_call_spec, opt_bool_json, opt_field, opt_i32, opt_i32_json, opt_str_json,
    opt_string, opt_strings, opt_strings_json, resource_id, update_call, update_call_spec, Body,
    DeleteParams, GetByIdParams, ListParams, ToolCall,
};
use crate::body::lemma_opt_field_algebra;
use crate::gateway::models::{pagination_json, CreateTask, Task, TaskList, create_task_json};
use crate::body::{opt_i64, opt_i64_json};
use crate::json::keys_unique;
use super::common::{api_call, api_tool_call, list_at_call, resource_id_sub, single, HttpMethod, Reply, ReplySpec, Shape};
use crate::text::owned;

verus! {

/// Arguments for `openvas_update_task`: omitted fields stay unchanged.
#[derive(Debug)]
pub struct UpdateTaskParams {
    /// UUID of the task to update
    pub id: String,
    pub name: Option<String>,
    pub comment: Option<String>,
    /// Replacement target UUID
    pub target_id: Option<String>,
    /// Replacement scan config UUID
    pub scan_config_id: Option<String>,
    /// Replacement scanner UUID
    pub scanner_id: Option<String>,
    /// Replacement schedule UUID
    pub schedule_id: Option<String>,
    /// Replacement alert UUIDs
    pub alert_ids: Option<Vec<String>>,
    pub schedule_periods: Option<i32>,
}

/// The request body of `update_task`: the set fields under their gateway keys.
pub open spec fn update_task_body(p: UpdateTaskParams) -> Seq<(Seq<char>, Json)> {
    Seq::empty()
        + opt_field("name"@, opt_str_json(p.name))
        + opt_field("comment"@, opt_str_json(p.comment))
        + opt_field("targetId"@, opt_str_json(p.target_id))
        + opt_field("scanConfigId"@, opt_str_json(p.scan_config_id))
        + opt_field("scannerId"@, opt_str_json(p.scanner_id))
        + opt_field("scheduleId"@, opt_str_json(p.schedule_id))
        + opt_field("alertIds"@, opt_strings_json(p.alert_ids))
        + opt_field("schedulePeriods"@, opt_i32_json(p.schedule_periods))
}

/// Each argument of `openvas_update_task` lands under its own gateway key: the body
/// holds every given field under its key, omits the absent ones, carries
/// no other key, and no key twice.
pub proof fn law_update_task_body(p: UpdateTaskParams)
    ensures
        Json::Object(update_task_body(p)).get("name"@) == opt_str_json(p.name),
        Json::Object(update_task_body(p)).get("comment"@) == opt_str_json(p.comment),
        Json::Object(update_task_body(p)).get("targetId"@) == opt_str_json(p.target_id),
        Json::Object(update_task_body(p)).get("scanConfigId"@) == opt_str_json(p.scan_config_id),
        Json::Object(update_task_body(p)).get("scannerId"@) == opt_str_json(p.scanner_id),
        Json::Object(update_task_body(p)).get("scheduleId"@) == opt_str_json(p.schedule_id),
        Json::Object(update_task_body(p)).get("alertIds"@) == opt_strings_json(p.alert_ids),
        Json::Object(update_task_body(p)).get("schedulePeriods"@) == opt_i32_json(p.schedule_periods),
        forall|key: Seq<char>| #[trigger] key_count(update_task_body(p), key) <= 1,
        forall|key: Seq<char>| #[trigger] key_count(update_task_body(p), key) > 0 ==> (key == "name"@ || key == "comment"@ || key == "targetId"@ || key == "scanConfigId"@ || key == "scannerId"@ || key == "scheduleId"@ || key == "alertIds"@ || key == "schedulePeriods"@),
{
    lemma_entries_algebra();
    lemma_opt_field_algebra();
    reveal_strlit("name");
    assert("name"@.len() == 4);
    reveal_strlit("comment");
    assert("comment"@.len() == 7);
    reveal_strlit("targetId");
    assert("targetId"@.len() == 8);
    reveal_strlit("scanConfigId");
    assert("scanConfigId"@.len() == 12);
    reveal_strlit("scannerId");
    assert("scannerId"@.len() == 9);
    reveal_strlit("scheduleId");
    assert("scheduleId"@.len() == 10);
    reveal_strlit("alertIds");
    assert("alertIds"@.len() == 8);
    reveal_strlit("schedulePeriods");
    assert("schedulePeriods"@.len() == 15);
    assert("targetId"@[0] != "alertIds"@[0]);
}

/// The `openvas_update_task` call: `PUT /tasks/<id>` with the set fields; the
/// updated resource is passed through.
pub fn update_task(params: UpdateTaskParams) -> (c: ToolCall)
    ensures
        c.spec() == update_call_spec(seq!["tasks"@, params.id@], update_task_body(params), "updating the task"@),
{
    let segs = resource_id("tasks", &params.id);
    let body = Body::new()
        .set_opt("name", opt_string(params.name))
        .set_opt("comment", opt_string(params.comment))
        .set_opt("targetId", opt_string(params.target_id))
        .set_opt("scanConfigId", opt_string(params.scan_config_id))
        .set_opt("scannerId", opt_string(params.scanner_id))
        .set_opt("scheduleId", opt_string(params.schedule_id))
        .set_opt("alertIds", opt_strings(params.alert_ids))
        .set_opt("schedulePeriods", opt_i32(params.schedule_periods));
    update_call(segs, body, "updating the task")
}

/// Summarized list row: compact on purpose (LLM token budget). Full details
/// come from `openvas_get_task`.
#[derive(Debug)]
pub struct TaskRow {
    pub id: String,
    pub name: String,
    pub status: String,
    pub progress: Option<i32>,
    pub target: Option<String>,
    pub last_report_id: Option<String>,
    pub report_count: Option<i64>,
}

/// The name of the task's target, when both are present.
pub open spec fn target_name(r: Option<crate::gateway::models::ResourceRef>) -> Option<String> {
    match r {
        Some(t) => t.name,
        None => None,
    }
}

/// The id of the task's last report, when there is one.
pub open spec fn report_id(r: Option<crate::gateway::models::ResourceRef>) -> Option<String> {
    match r {
        Some(t) => Some(t.id),
        None => None,
    }
}

/// The summary of one task.
pub open spec fn summarize_spec(task: Task) -> TaskRow {
    TaskRow {
        id: task.id,
        name: task.name,
        status: task.status,
        progress: task.progress,
        target: target_name(task.target),
        last_report_id: report_id(task.last_report),
        report_count: task.report_count,
    }
}

/// The summary row of a task: id, name, status, progress, target name, last
/// report id and report count.
pub fn summarize(task: Task) -> (row: TaskRow)
    ensures
        row == summarize_spec(task),
{
    let target = match task.target {
        Some(t) => t.name,
        None => None,
    };
    let last_report_id = match task.last_report {
        Some(r) => Some(r.id),
        None => None,
    };
    TaskRow {
        id: task.id,
        name: task.name,
        status: task.status,
        progress: task.progress,
        target,
        last_report_id,
        report_count: task.report_count,
    }
}

/// The JSON form of a row (optional fields only when present).
pub open spec fn task_row_json(r: TaskRow) -> Json {
    Json::Object(
        Seq::empty() + seq![("id"@, Json::Str(r.id@))] + seq![("name"@, Json::Str(r.name@))] + seq![
            ("status"@, Json::Str(r.status@)),
        ] + opt_field("progress"@, opt_i32_json(r.progress)) + opt_field(
            "target"@,
            opt_str_json(r.target),
        ) + opt_field("lastReportId"@, opt_str_json(r.last_report_id)) + opt_field(
            "reportCount"@,
            opt_i64_json(r.report_count),
        ),
    )
}

impl TaskRow {
    /// The row as JSON.
    pub fn to_json(self) -> (r: JsonValue)
        ensures
            r.model() == task_row_json(self),
    {
        let body = Body::new()
            .set("id", JsonValue::Str(self.id))
            .set("name", JsonValue::Str(self.name))
            .set("status", JsonValue::Str(self.status))
            .set_opt("progress", opt_i32(self.progress))
            .set_opt("target", opt_string(self.target))
            .set_opt("lastReportId", opt_string(self.last_report_id))
            .set_opt("reportCount", opt_i64(self.report_count));
        body.into_value()
    }
}

/// The tool output for a task list: `{tasks: rows, pagination}`.
pub open spec fn task_list_json(list: TaskList) -> Json {
    Json::Object(
        seq![
            ("tasks"@, Json::Array(list.data@.map_values(|t: Task| task_row_json(summarize_spec(t))))),
            ("pagination"@, pagination_json(list.pagination)),
        ],
    )
}

/// Summarize a task list answer row by row.
pub fn task_list_output(list: TaskList) -> (r: JsonValue)
    ensures
        r.model() == task_list_json(list),
{
    let ghost all = list.data@;
    let total: usize = list.data.len();
    let mut data = list.data;
    let mut rows: Vec<JsonValue> = Vec::new();
    let ghost task_rows = all.map_values(|t: Task| task_row_json(summarize_spec(t)));
    let mut i: usize = 0;
    while data.len() > 0
        invariant
            i <= all.len(),
            all.len() == total,
            data@ == all.subrange(i as int, all.len() as int),
            task_rows == all.map_values(|t: Task| task_row_json(summarize_spec(t))),
            crate::json::models(rows@) == task_rows.take(i as int),
        decreases data@.len(),
    {
        let t = data.remove(0);
        assert(t == all[i as int]);
        let row = summarize(t).to_json();
        let ghost before = rows@;
        rows.push(row);
        assert(rows@.subrange(0, before.len() as int) =~= before);
        assert(task_rows.take(i + 1) =~= task_rows.take(i as int).push(row.model()));
        assert(data@ =~= all.subrange(i + 1, all.len() as int));
        i = i + 1;
    }
    assert(task_rows.take(i as int) =~= task_rows);
    let mut out: Vec<(String, JsonValue)> = Vec::new();
    out.push((String::from_str("tasks"), JsonValue::Array(rows)));
    out.push((String::from_str("pagination"), list.pagination.to_json()));
    proof {
        crate::json::lemma_entry_models(out@);
        assert(crate::json::entry_models(out@) =~= seq![
            ("tasks"@, Json::Array(task_rows)),
            ("pagination"@, pagination_json(list.pagination)),
        ]);
    }
    JsonValue::Object(out)
}

/// The `openvas_list_tasks` call: `GET /tasks` with the list query; the
/// typed list is summarized row by row.
pub fn list_tasks(params: &ListParams) -> (c: ToolCall)
    ensures
        c.spec() == api_call(
            HttpMethod::Get,
            seq!["tasks"@],
            params.query_spec(),
            None,
            ReplySpec::TaskRows,
            "listing tasks"@,
        ),
{
    let mut c = list_at_call(single("tasks"), "tasks", &[], params, "listing tasks");
    c.reply = Reply::TaskRows;
    c
}

/// The `openvas_get_task` call: one task by UUID, including scan config,
/// scanner, schedule and report references.
pub fn get_task(params: &GetByIdParams) -> (c: ToolCall)
    ensures
        c.spec() == api_call(
            HttpMethod::Get,
            seq!["tasks"@, params.id@],
            Seq::empty(),
            None,
            ReplySpec::Decoded(Shape::Task),
            "fetching the task"@,
        ),
{
    api_tool_call(HttpMethod::Get, resource_id("tasks", &params.id), None, Reply::Decoded(Shape::Task), "fetching the task")
}

/// Arguments for `openvas_create_task`.
#[derive(Debug)]
pub struct CreateTaskParams {
    /// Task name
    pub name: String,
    /// Optional comment
    pub comment: Option<String>,
    /// UUID of the scan target
    pub target_id: String,
    /// UUID of the scan config (e.g. "Full and fast")
    pub scan_config_id: String,
    /// UUID of the scanner to run the task on
    pub scanner_id: String,
    /// Optional schedule UUID
    pub schedule_id: Option<String>,
    /// Optional alert UUIDs to attach
    pub alert_ids: Option<Vec<String>>,
    /// Whether the task stays modifiable after the first run
    pub alterable: Option<bool>,
}

/// The creation body built from the tool arguments (no schedule periods).
pub open spec fn create_task_request(p: CreateTaskParams) -> CreateTask {
    CreateTask {
        name: p.name,
        comment: p.comment,
        target_id: p.target_id,
        scan_config_id: p.scan_config_id,
        scanner_id: p.scanner_id,
        schedule_id: p.schedule_id,
        alert_ids: p.alert_ids,
        alterable: p.alterable,
        schedule_periods: None,
    }
}

/// The `openvas_create_task` call: `POST /tasks` binding a target, scan
/// config and scanner; the `{id}` envelope is decoded and returned. The task
/// is not started.
pub fn create_task(params: CreateTaskParams) -> (c: ToolCall)
    ensures
        c.spec() == api_call(
            HttpMethod::Post,
            seq!["tasks"@],
            Seq::empty(),
            Some(create_task_json(create_task_request(params))),
            ReplySpec::Decoded(Shape::Created),
            "creating the task"@,
        ),
{
    let body = CreateTask {
        name: params.name,
        comment: params.comment,
        target_id: params.target_id,
        scan_config_id: params.scan_config_id,
        scanner_id: params.scanner_id,
        schedule_id: params.schedule_id,
        alert_ids: params.alert_ids,
        alterable: params.alterable,
        schedule_periods: None,
    };
    api_tool_call(HttpMethod::Post, single("tasks"), Some(body.to_json()), Reply::Decoded(Shape::Created), "creating the task")
}

/// The `openvas_start_task` call: bodyless `POST /tasks/<id>/start`; the
/// answer names the report the run writes to.
pub fn start_task(params: &GetByIdParams) -> (c: ToolCall)
    ensures
        c.spec() == api_call(
            HttpMethod::Post,
            seq!["tasks"@, params.id@, "start"@],
            Seq::empty(),
            None,
            ReplySpec::Decoded(Shape::TaskAction),
            "starting the task"@,
        ),
{
    api_tool_call(HttpMethod::Post, resource_id_sub("tasks", &params.id, "start"), None, Reply::Decoded(Shape::TaskAction), "starting the task")
}

/// The `openvas_stop_task` call: bodyless `POST /tasks/<id>/stop`,
/// acknowledged as `{"stopped": true, "id": <id>}`.
pub fn stop_task(params: &GetByIdParams) -> (c: ToolCall)
    ensures
        c.spec() == api_call(
            HttpMethod::Post,
            seq!["tasks"@, params.id@, "stop"@],
            Seq::empty(),
            None,
            ReplySpec::Acknowledge { flag: "stopped"@, id: params.id@ },
            "stopping the task"@,
        ),
{
    api_tool_call(
        HttpMethod::Post,
        resource_id_sub("tasks", &params.id, "stop"),
        None,
        Reply::Acknowledge { flag: owned("stopped"), id: params.id.clone() },
        "stopping the task",
    )
}

/// The `openvas_resume_task` call: bodyless `POST /tasks/<id>/resume`; the
/// answer names the report the resumed run writes to.
pub fn resume_task(params: &GetByIdParams) -> (c: ToolCall)
    ensures
        c.spec() == api_call(
            HttpMethod::Post,
            seq!["tasks"@, params.id@, "resume"@],
            Seq::empty(),
            None,
            ReplySpec::Decoded(Shape::TaskAction),
            "resuming the task"@,
        ),
{
    api_tool_call(HttpMethod::Post, resource_id_sub("tasks", &params.id, "resume"), None, Reply::Decoded(Shape::TaskAction), "resuming the task")
}

/// The `openvas_delete_task` call: `DELETE /tasks/<id>` (to the trashcan
/// unless `ultimate`).
pub fn delete_task(params: &DeleteParams) -> (c: ToolCall)
    ensures
        c.spec() == delete_call_spec("tasks"@, params.id@, params.query_spec(), "deleting the task"@),
{
    delete_call("tasks", params, "deleting the task")
}

/// A summarized task row keeps the task's id, name, status and progress,
/// its target's name, its last report's id and its report count (each
/// optional one only when given); it carries no other key twice.
pub proof fn law_task_row_keeps_the_task(t: Task)
    ensures
        task_row_json(summarize_spec(t)).get("id"@) == Some(Json::Str(t.id@)),
        task_row_json(summarize_spec(t)).get("name"@) == Some(Json::Str(t.name@)),
        task_row_json(summarize_spec(t)).get("status"@) == Some(Json::Str(t.status@)),
        task_row_json(summarize_spec(t)).get("progress"@) == opt_i32_json(t.progress),
        task_row_json(summarize_spec(t)).get("target"@) == (match t.target {
            Some(r) => opt_str_json(r.name),
            None => None,
        }),
        task_row_json(summarize_spec(t)).get("lastReportId"@) == (match t.last_report {
            Some(r) => Some(Json::Str(r.id@)),
            None => None,
        }),
        task_row_json(summarize_spec(t)).get("reportCount"@) == opt_i64_json(t.report_count),
        keys_unique(task_row_json(summarize_spec(t))),
{
    lemma_entries_algebra();
    lemma_opt_field_algebra();
    reveal_strlit("id");
    assert("id"@.len() == 2);
    reveal_strlit("name");
    assert("name"@.len() == 4);
    reveal_strlit("status");
    assert("status"@.len() == 6);
    reveal_strlit("progress");
    assert("progress"@.len() == 8);
    reveal_strlit("target");
    assert("target"@.len() == 6);
    reveal_strlit("lastReportId");
    assert("lastReportId"@.len() == 12);
    reveal_strlit("reportCount");
    assert("reportCount"@.len() == 11);
    assert("status"@[0] != "target"@[0]);
}

/// The summarized task list holds one row per task, in order, each row
/// keeping its task's id, name and status, and the list's pagination
/// unchanged.
pub proof fn law_task_list_rows(list: TaskList)
    ensures
        task_list_json(list).get("pagination"@) == Some(pagination_json(list.pagination)),
        task_list_json(list).get("tasks"@) matches Some(Json::Array(rows)) && rows.len() == list.data@.len()
            && forall|i: int| 0 <= i < rows.len() ==> {
                let t = list.data@[i];
                &&& #[trigger] rows[i].get("id"@) == Some(Json::Str(t.id@))
                &&& rows[i].get("name"@) == Some(Json::Str(t.name@))
                &&& rows[i].get("status"@) == Some(Json::Str(t.status@))
            },
{
    reveal_strlit("tasks");
    assert("tasks"@.len() == 5);
    reveal_strlit("pagination");
    assert("pagination"@.len() == 10);
    reveal_with_fuel(crate::json::lookup, 3);
    let rows = list.data@.map_values(|t: Task| task_row_json(summarize_spec(t)));
    assert forall|i: int| 0 <= i < rows.len() implies {
        let t = list.data@[i];
        &&& #[trigger] rows[i].get("id"@) == Some(Json::Str(t.id@))
        &&& rows[i].get("name"@) == Some(Json::Str(t.name@))
        &&& rows[i].get("status"@) == Some(Json::Str(t.status@))
    } by {
        law_task_row_keeps_the_task(list.data@[i]);
    }
}

/// A task creation sends the name, target, scan config and scanner under
/// their own keys, the comment, schedule, alerts and alterable flag
/// exactly when given, no schedule period, and no key twice.
pub proof fn law_create_task_body(p: CreateTaskParams)
    ensures
        create_task_json(create_task_request(p)).get("name"@) == Some(Json::Str(p.name@)),
        create_task_json(create_task_request(p)).get("comment"@) == opt_str_json(p.comment),
        create_task_json(create_task_request(p)).get("targetId"@) == Some(Json::Str(p.target_id@)),
        create_task_json(create_task_request(p)).get("scanConfigId"@) == Some(Json::Str(p.scan_config_id@)),
        create_task_json(create_task_request(p)).get("scannerId"@) == Some(Json::Str(p.scanner_id@)),
        create_task_json(create_task_request(p)).get("scheduleId"@) == opt_str_json(p.schedule_id),
        create_task_json(create_task_request(p)).get("alertIds"@) == opt_strings_json(p.alert_ids),
        create_task_json(create_task_request(p)).get("alterable"@) == opt_bool_json(p.alterable),
        create_task_json(create_task_request(p)).get("schedulePeriods"@) is None,
        keys_unique(create_task_json(create_task_request(p))),
{
    lemma_entries_algebra();
    lemma_opt_field_algebra();
    reveal_strlit("name");
    assert("name"@.len() == 4);
    reveal_strlit("comment");
    assert("comment"@.len() == 7);
    reveal_strlit("targetId");
    assert("targetId"@.len() == 8);
    reveal_strlit("scanConfigId");
    assert("scanConfigId"@.len() == 12);
    reveal_strlit("scannerId");
    assert("scannerId"@.len() == 9);
    reveal_strlit("scheduleId");
    assert("scheduleId"@.len() == 10);
    reveal_strlit("alertIds");
    assert("alertIds"@.len() == 8);
    reveal_strlit("alterable");
    assert("alterable"@.len() == 9);
    reveal_strlit("schedulePeriods");
    assert("schedulePeriods"@.len() == 15);
    assert("targetId"@[0] != "alertIds"@[0]);
    assert("scannerId"@[0] != "alterable"@[0]);
}

} // verus!
