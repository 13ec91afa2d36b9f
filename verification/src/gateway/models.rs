//! Data shapes mirroring the gateway's REST contract. Field names follow the
//! gateway's camelCase keys in snake_case.

use vstd::prelude::*;
use crate::body::{opt_bool, opt_bool_json, opt_field, opt_i32, opt_i32_json, opt_i64, opt_i64_json, opt_model, opt_str_json, opt_string, opt_strings, opt_strings_json, Body};
use crate::json::{models, string_models, Json, JsonValue};
use crate::text::{decimal, i64_to_decimal, signed_decimal, u64_to_decimal};

verus! {

/// `POST /api/v1/session`: 201 response.
#[derive(Debug, Clone)]
pub struct SessionCreated {
    /// Opaque bearer token for subsequent requests.
    pub session_token: String,
    /// Idle timeout in seconds; the session expires if unused for this long.
    pub expires_in: u64,
    /// GMP protocol version.
    pub gmp_version: String,
}

/// `GET /api/v1/session`: 200 response.
#[derive(Debug, Clone)]
pub struct SessionInfo {
    pub user: String,
    /// `active` or `expired`.
    pub state: String,
    pub created_at: String,
    pub last_used_at: String,
    /// Remaining seconds until idle expiry.
    pub expires_in: i64,
}

/// `GET /health`: 200 response (unversioned root path).
#[derive(Debug, Clone)]
pub struct HealthStatus {
    /// Liveness state (`ok`).
    pub status: String,
}

/// `GET /ready`: 200/503 response (unversioned root path).
#[derive(Debug, Clone)]
pub struct ReadinessStatus {
    /// `ready` or `notReady`.
    pub status: String,
    pub reason: Option<String>,
}

/// `GET /api/v1/version`: 200 response.
#[derive(Debug, Clone)]
pub struct VersionInfo {
    /// REST API contract version, not the proxy binary version.
    pub api_version: String,
    /// GMP protocol version reported by the proxied gvmd.
    pub gmp_version: String,
}

/// Minimal reference to a related resource.
#[derive(Debug, Clone)]
pub struct ResourceRef {
    pub id: String,
    pub name: Option<String>,
}

/// `201 Created` envelope returned by all create endpoints.
#[derive(Debug, Clone)]
pub struct ResourceCreated {
    pub id: String,
}

/// A scan target as served by `GET /api/v1/targets[/{id}]`.
#[derive(Debug, Clone)]
pub struct Target {
    pub id: String,
    pub name: String,
    pub comment: Option<String>,
    pub hosts: Vec<String>,
    pub exclude_hosts: Option<Vec<String>>,
    pub alive_test: Option<String>,
    pub port_list: Option<ResourceRef>,
    pub reverse_lookup_only: Option<bool>,
    pub reverse_lookup_unify: Option<bool>,
    pub ssh_credential: Option<ResourceRef>,
    pub smb_credential: Option<ResourceRef>,
    pub esxi_credential: Option<ResourceRef>,
    pub snmp_credential: Option<ResourceRef>,
    pub in_use: Option<bool>,
    pub writable: Option<bool>,
}

/// `GET /api/v1/targets`: 200 response.
#[derive(Debug, Clone)]
pub struct TargetList {
    pub data: Vec<Target>,
    pub pagination: Pagination,
}

/// A scan task as served by `GET /api/v1/tasks[/{id}]`.
#[derive(Debug, Clone)]
pub struct Task {
    pub id: String,
    pub name: String,
    pub comment: Option<String>,
    /// Lifecycle status as reported by gvmd (`New`, `Running`, `Done`, ...).
    /// Unknown future gvmd values are preserved.
    pub status: String,
    pub progress: Option<i32>,
    pub target: Option<ResourceRef>,
    pub scan_config: Option<ResourceRef>,
    pub scanner: Option<ResourceRef>,
    pub schedule: Option<ResourceRef>,
    pub alerts: Option<Vec<ResourceRef>>,
    pub alterable: Option<bool>,
    pub hosts_ordering: Option<String>,
    pub schedule_periods: Option<i32>,
    pub last_report: Option<ResourceRef>,
    pub current_report: Option<ResourceRef>,
    pub report_count: Option<i64>,
    pub in_use: Option<bool>,
    pub writable: Option<bool>,
}

/// `GET /api/v1/tasks`: 200 response.
#[derive(Debug, Clone)]
pub struct TaskList {
    pub data: Vec<Task>,
    pub pagination: Pagination,
}

/// `POST /api/v1/tasks` request body.
#[derive(Debug, Clone)]
pub struct CreateTask {
    pub name: String,
    pub comment: Option<String>,
    pub target_id: String,
    pub scan_config_id: String,
    pub scanner_id: String,
    pub schedule_id: Option<String>,
    pub alert_ids: Option<Vec<String>>,
    pub alterable: Option<bool>,
    pub schedule_periods: Option<i32>,
}

/// `POST /api/v1/tasks/{id}/start|resume`: 200 response.
#[derive(Debug, Clone)]
pub struct TaskAction {
    /// UUID of the report created by the start/resume action.
    pub report_id: String,
}

/// Shared pagination envelope used by all gateway list endpoints.
#[derive(Debug, Clone, Copy)]
pub struct Pagination {
    pub page: u32,
    pub per_page: u32,
    /// Total number of resources matching the query.
    pub total: u64,
    pub total_pages: u32,
}

/// The JSON form of a pagination envelope.
pub open spec fn pagination_json(p: Pagination) -> Json {
    Json::Object(
        seq![
            ("page"@, Json::Number(decimal(p.page as nat))),
            ("perPage"@, Json::Number(decimal(p.per_page as nat))),
            ("total"@, Json::Number(decimal(p.total as nat))),
            ("totalPages"@, Json::Number(decimal(p.total_pages as nat))),
        ],
    )
}

impl Pagination {
    /// The envelope as JSON (`page`, `perPage`, `total`, `totalPages`).
    pub fn to_json(&self) -> (r: JsonValue)
        ensures
            r.model() == pagination_json(*self),
    {
        let mut out: Vec<(String, JsonValue)> = Vec::new();
        out.push((String::from_str("page"), JsonValue::Number(u64_to_decimal(self.page as u64))));
        out.push(
            (String::from_str("perPage"), JsonValue::Number(u64_to_decimal(self.per_page as u64))),
        );
        out.push((String::from_str("total"), JsonValue::Number(u64_to_decimal(self.total))));
        out.push(
            (
                String::from_str("totalPages"),
                JsonValue::Number(u64_to_decimal(self.total_pages as u64)),
            ),
        );
        proof {
            crate::json::lemma_entry_models(out@);
            assert(crate::json::entry_models(out@) =~= seq![
                ("page"@, Json::Number(decimal(self.page as nat))),
                ("perPage"@, Json::Number(decimal(self.per_page as nat))),
                ("total"@, Json::Number(decimal(self.total as nat))),
                ("totalPages"@, Json::Number(decimal(self.total_pages as nat))),
            ]);
        }
        JsonValue::Object(out)
    }
}

/// The JSON form of a resource reference (`name` only when present).
pub open spec fn ref_json(r: ResourceRef) -> Json {
    Json::Object(Seq::empty() + seq![("id"@, Json::Str(r.id@))] + opt_field("name"@, opt_str_json(r.name)))
}

/// The JSON form of an optional reference.
pub open spec fn opt_ref_json(o: Option<ResourceRef>) -> Option<Json> {
    match o {
        Some(r) => Some(ref_json(r)),
        None => None,
    }
}

/// The JSON forms of a list of references.
pub open spec fn refs_json(refs: Seq<ResourceRef>) -> Seq<Json> {
    refs.map_values(|r: ResourceRef| ref_json(r))
}

/// The JSON form of an optional list of references.
pub open spec fn opt_refs_json(o: Option<Vec<ResourceRef>>) -> Option<Json> {
    match o {
        Some(v) => Some(Json::Array(refs_json(v@))),
        None => None,
    }
}

impl ResourceRef {
    /// The reference as JSON.
    pub fn to_json(self) -> (r: JsonValue)
        ensures
            r.model() == ref_json(self),
    {
        Body::new().set("id", JsonValue::Str(self.id)).set_opt("name", opt_string(self.name)).into_value()
    }
}

/// An optional reference as optional JSON.
pub fn opt_ref(o: Option<ResourceRef>) -> (r: Option<JsonValue>)
    ensures
        opt_model(r) == opt_ref_json(o),
{
    match o {
        Some(r) => Some(r.to_json()),
        None => None,
    }
}

/// An optional list of references as an optional JSON array.
pub fn opt_refs(o: Option<Vec<ResourceRef>>) -> (r: Option<JsonValue>)
    ensures
        opt_model(r) == opt_refs_json(o),
{
    match o {
        Some(v) => {
            let ghost all = v@;
            let total: usize = v.len();
            let mut rest = v;
            let mut out: Vec<JsonValue> = Vec::new();
            let mut i: usize = 0;
            while rest.len() > 0
                invariant
                    i <= all.len(),
                    all.len() == total,
                    rest@ == all.subrange(i as int, all.len() as int),
                    models(out@) == refs_json(all).take(i as int),
                decreases rest@.len(),
            {
                let item = rest.remove(0);
                assert(item == all[i as int]);
                let j = item.to_json();
                let ghost before = out@;
                out.push(j);
                assert(out@.subrange(0, before.len() as int) =~= before);
                assert(models(out@) =~= models(before).push(j.model())) by {
                    crate::json::lemma_models(out@);
                    crate::json::lemma_models(before);
                }
                assert(refs_json(all).take(i + 1) =~= refs_json(all).take(i as int).push(j.model()));
                assert(rest@ =~= all.subrange(i + 1, all.len() as int));
                i = i + 1;
            }
            assert(refs_json(all).take(i as int) =~= refs_json(all));
            Some(JsonValue::Array(out))
        },
        None => None,
    }
}

/// The JSON form of a creation envelope.
pub open spec fn created_json(c: ResourceCreated) -> Json {
    Json::Object(Seq::empty() + seq![("id"@, Json::Str(c.id@))])
}

impl ResourceCreated {
    /// The envelope as JSON: `{id}`.
    pub fn to_json(self) -> (r: JsonValue)
        ensures
            r.model() == created_json(self),
    {
        Body::new().set("id", JsonValue::Str(self.id)).into_value()
    }
}

/// The JSON form of a start/resume answer.
pub open spec fn task_action_json(a: TaskAction) -> Json {
    Json::Object(Seq::empty() + seq![("reportId"@, Json::Str(a.report_id@))])
}

impl TaskAction {
    /// The answer as JSON: `{reportId}`.
    pub fn to_json(self) -> (r: JsonValue)
        ensures
            r.model() == task_action_json(self),
    {
        Body::new().set("reportId", JsonValue::Str(self.report_id)).into_value()
    }
}

/// The JSON form of the version answer.
pub open spec fn version_json(v: VersionInfo) -> Json {
    Json::Object(
        Seq::empty() + seq![("apiVersion"@, Json::Str(v.api_version@))] + seq![
            ("gmpVersion"@, Json::Str(v.gmp_version@)),
        ],
    )
}

impl VersionInfo {
    /// The answer as JSON: `{apiVersion, gmpVersion}`.
    pub fn to_json(self) -> (r: JsonValue)
        ensures
            r.model() == version_json(self),
    {
        Body::new().set("apiVersion", JsonValue::Str(self.api_version)).set(
            "gmpVersion",
            JsonValue::Str(self.gmp_version),
        ).into_value()
    }
}

/// The JSON form of the health answer.
pub open spec fn health_json(h: HealthStatus) -> Json {
    Json::Object(Seq::empty() + seq![("status"@, Json::Str(h.status@))])
}

impl HealthStatus {
    /// The answer as JSON: `{status}`.
    pub fn to_json(self) -> (r: JsonValue)
        ensures
            r.model() == health_json(self),
    {
        Body::new().set("status", JsonValue::Str(self.status)).into_value()
    }
}

/// The JSON form of a target: camelCase keys in declaration order, absent
/// optionals omitted.
pub open spec fn target_json(t: Target) -> Json {
    Json::Object(
        Seq::empty() + seq![("id"@, Json::Str(t.id@))] + seq![("name"@, Json::Str(t.name@))]
            + opt_field("comment"@, opt_str_json(t.comment)) + seq![
            ("hosts"@, Json::Array(string_models(t.hosts@))),
        ] + opt_field("excludeHosts"@, opt_strings_json(t.exclude_hosts)) + opt_field(
            "aliveTest"@,
            opt_str_json(t.alive_test),
        ) + opt_field("portList"@, opt_ref_json(t.port_list)) + opt_field(
            "reverseLookupOnly"@,
            opt_bool_json(t.reverse_lookup_only),
        ) + opt_field("reverseLookupUnify"@, opt_bool_json(t.reverse_lookup_unify)) + opt_field(
            "sshCredential"@,
            opt_ref_json(t.ssh_credential),
        ) + opt_field("smbCredential"@, opt_ref_json(t.smb_credential)) + opt_field(
            "esxiCredential"@,
            opt_ref_json(t.esxi_credential),
        ) + opt_field("snmpCredential"@, opt_ref_json(t.snmp_credential)) + opt_field(
            "inUse"@,
            opt_bool_json(t.in_use),
        ) + opt_field("writable"@, opt_bool_json(t.writable)),
    )
}

impl Target {
    /// The target as JSON.
    pub fn to_json(self) -> (r: JsonValue)
        ensures
            r.model() == target_json(self),
    {
        Body::new().set("id", JsonValue::Str(self.id)).set("name", JsonValue::Str(self.name)).set_opt(
            "comment",
            opt_string(self.comment),
        ).set("hosts", JsonValue::strings(&self.hosts)).set_opt(
            "excludeHosts",
            opt_strings(self.exclude_hosts),
        ).set_opt("aliveTest", opt_string(self.alive_test)).set_opt(
            "portList",
            opt_ref(self.port_list),
        ).set_opt("reverseLookupOnly", opt_bool(self.reverse_lookup_only)).set_opt(
            "reverseLookupUnify",
            opt_bool(self.reverse_lookup_unify),
        ).set_opt("sshCredential", opt_ref(self.ssh_credential)).set_opt(
            "smbCredential",
            opt_ref(self.smb_credential),
        ).set_opt("esxiCredential", opt_ref(self.esxi_credential)).set_opt(
            "snmpCredential",
            opt_ref(self.snmp_credential),
        ).set_opt("inUse", opt_bool(self.in_use)).set_opt("writable", opt_bool(self.writable)).into_value()
    }
}

/// The JSON form of a task: camelCase keys in declaration order, absent
/// optionals omitted.
pub open spec fn task_json(t: Task) -> Json {
    Json::Object(
        Seq::empty() + seq![("id"@, Json::Str(t.id@))] + seq![("name"@, Json::Str(t.name@))]
            + opt_field("comment"@, opt_str_json(t.comment)) + seq![
            ("status"@, Json::Str(t.status@)),
        ] + opt_field("progress"@, opt_i32_json(t.progress)) + opt_field(
            "target"@,
            opt_ref_json(t.target),
        ) + opt_field("scanConfig"@, opt_ref_json(t.scan_config)) + opt_field(
            "scanner"@,
            opt_ref_json(t.scanner),
        ) + opt_field("schedule"@, opt_ref_json(t.schedule)) + opt_field(
            "alerts"@,
            opt_refs_json(t.alerts),
        ) + opt_field("alterable"@, opt_bool_json(t.alterable)) + opt_field(
            "hostsOrdering"@,
            opt_str_json(t.hosts_ordering),
        ) + opt_field("schedulePeriods"@, opt_i32_json(t.schedule_periods)) + opt_field(
            "lastReport"@,
            opt_ref_json(t.last_report),
        ) + opt_field("currentReport"@, opt_ref_json(t.current_report)) + opt_field(
            "reportCount"@,
            opt_i64_json(t.report_count),
        ) + opt_field("inUse"@, opt_bool_json(t.in_use)) + opt_field(
            "writable"@,
            opt_bool_json(t.writable),
        ),
    )
}

impl Task {
    /// The task as JSON.
    pub fn to_json(self) -> (r: JsonValue)
        ensures
            r.model() == task_json(self),
    {
        Body::new().set("id", JsonValue::Str(self.id)).set("name", JsonValue::Str(self.name)).set_opt(
            "comment",
            opt_string(self.comment),
        ).set("status", JsonValue::Str(self.status)).set_opt("progress", opt_i32(self.progress)).set_opt(
            "target",
            opt_ref(self.target),
        ).set_opt("scanConfig", opt_ref(self.scan_config)).set_opt("scanner", opt_ref(self.scanner)).set_opt(
            "schedule",
            opt_ref(self.schedule),
        ).set_opt("alerts", opt_refs(self.alerts)).set_opt("alterable", opt_bool(self.alterable)).set_opt(
            "hostsOrdering",
            opt_string(self.hosts_ordering),
        ).set_opt("schedulePeriods", opt_i32(self.schedule_periods)).set_opt(
            "lastReport",
            opt_ref(self.last_report),
        ).set_opt("currentReport", opt_ref(self.current_report)).set_opt(
            "reportCount",
            opt_i64(self.report_count),
        ).set_opt("inUse", opt_bool(self.in_use)).set_opt("writable", opt_bool(self.writable)).into_value()
    }
}

/// The JSON body of a task creation: camelCase keys, absent optionals
/// omitted.
pub open spec fn create_task_json(c: CreateTask) -> Json {
    Json::Object(
        Seq::empty() + seq![("name"@, Json::Str(c.name@))] + opt_field("comment"@, opt_str_json(c.comment))
            + seq![("targetId"@, Json::Str(c.target_id@))] + seq![
            ("scanConfigId"@, Json::Str(c.scan_config_id@)),
        ] + seq![("scannerId"@, Json::Str(c.scanner_id@))] + opt_field(
            "scheduleId"@,
            opt_str_json(c.schedule_id),
        ) + opt_field("alertIds"@, opt_strings_json(c.alert_ids)) + opt_field(
            "alterable"@,
            opt_bool_json(c.alterable),
        ) + opt_field("schedulePeriods"@, opt_i32_json(c.schedule_periods)),
    )
}

impl CreateTask {
    /// The request body as JSON.
    pub fn to_json(self) -> (r: JsonValue)
        ensures
            r.model() == create_task_json(self),
    {
        Body::new().set("name", JsonValue::Str(self.name)).set_opt("comment", opt_string(self.comment)).set(
            "targetId",
            JsonValue::Str(self.target_id),
        ).set("scanConfigId", JsonValue::Str(self.scan_config_id)).set(
            "scannerId",
            JsonValue::Str(self.scanner_id),
        ).set_opt("scheduleId", opt_string(self.schedule_id)).set_opt(
            "alertIds",
            opt_strings(self.alert_ids),
        ).set_opt("alterable", opt_bool(self.alterable)).set_opt(
            "schedulePeriods",
            opt_i32(self.schedule_periods),
        ).into_value()
    }
}

/// The JSON form of a session creation answer.
pub open spec fn session_created_json(c: SessionCreated) -> Json {
    Json::Object(
        Seq::empty() + seq![("sessionToken"@, Json::Str(c.session_token@))] + seq![
            ("expiresIn"@, Json::Number(decimal(c.expires_in as nat))),
        ] + seq![("gmpVersion"@, Json::Str(c.gmp_version@))],
    )
}

impl SessionCreated {
    /// The answer as JSON: `{sessionToken, expiresIn, gmpVersion}`.
    pub fn to_json(self) -> (r: JsonValue)
        ensures
            r.model() == session_created_json(self),
    {
        Body::new().set("sessionToken", JsonValue::Str(self.session_token)).set(
            "expiresIn",
            JsonValue::Number(u64_to_decimal(self.expires_in)),
        ).set("gmpVersion", JsonValue::Str(self.gmp_version)).into_value()
    }
}

/// The JSON form of a session description.
pub open spec fn session_info_json(i: SessionInfo) -> Json {
    Json::Object(
        Seq::empty() + seq![("user"@, Json::Str(i.user@))] + seq![("state"@, Json::Str(i.state@))]
            + seq![("createdAt"@, Json::Str(i.created_at@))] + seq![
            ("lastUsedAt"@, Json::Str(i.last_used_at@)),
        ] + seq![("expiresIn"@, Json::Number(signed_decimal(i.expires_in as int)))],
    )
}

impl SessionInfo {
    /// The description as JSON: `{user, state, createdAt, lastUsedAt,
    /// expiresIn}`.
    pub fn to_json(self) -> (r: JsonValue)
        ensures
            r.model() == session_info_json(self),
    {
        Body::new().set("user", JsonValue::Str(self.user)).set("state", JsonValue::Str(self.state)).set(
            "createdAt",
            JsonValue::Str(self.created_at),
        ).set("lastUsedAt", JsonValue::Str(self.last_used_at)).set(
            "expiresIn",
            JsonValue::Number(i64_to_decimal(self.expires_in)),
        ).into_value()
    }
}

} // verus!
