//! Targets toolset: read surface plus create/update/delete.

use vstd::prelude::*;
use crate::json::{key_count, lemma_entries_algebra, string_models, Json, JsonValue};
use super::common::{
    create_call, create_call_spec, delete_call, delete_call_spec, opt_bool, opt_bool_json,
    opt_field, opt_str_json, opt_string, opt_strings, opt_strings_json, resource_id, update_call,
    update_call_spec, Body, DeleteParams, GetByIdParams, ListParams, ToolCall,
};
use crate::body::lemma_opt_field_algebra;
use crate::gateway::models::{pagination_json, Target, TargetList};
use crate::json::keys_unique;
use super::common::{api_call, api_tool_call, list_at_call, single, HttpMethod, Reply, ReplySpec, Shape};

verus! {

/// Arguments for `openvas_create_target`.
#[derive(Debug)]
pub struct CreateTargetParams {
    /// Target name
    pub name: String,
    /// Host entries: IPs, CIDR ranges, hostnames
    pub hosts: Vec<String>,
    /// Optional comment
    pub comment: Option<String>,
    /// Hosts to exclude from scans
    pub exclude_hosts: Option<Vec<String>>,
    /// Alive test method, e.g. "ICMP Ping" or "Consider Alive"
    pub alive_test: Option<String>,
    /// UUID of the port list to scan (gateway default applies when omitted)
    pub port_list_id: Option<String>,
    /// Only scan hosts that resolve via reverse lookup
    pub reverse_lookup_only: Option<bool>,
    /// Deduplicate hosts that reverse-resolve to the same name
    pub reverse_lookup_unify: Option<bool>,
    /// SSH credential UUID for authenticated scans
    pub ssh_credential_id: Option<String>,
    /// SMB credential UUID for authenticated scans
    pub smb_credential_id: Option<String>,
    /// ESXi credential UUID for authenticated scans
    pub esxi_credential_id: Option<String>,
    /// SNMP credential UUID for authenticated scans
    pub snmp_credential_id: Option<String>,
}

/// The request body of `create_target`: the set fields under their gateway keys.
pub open spec fn create_target_body(p: CreateTargetParams) -> Seq<(Seq<char>, Json)> {
    Seq::empty()
        + seq![("name"@, Json::Str(p.name@))]
        + seq![("hosts"@, Json::Array(string_models(p.hosts@)))]
        + opt_field("comment"@, opt_str_json(p.comment))
        + opt_field("excludeHosts"@, opt_strings_json(p.exclude_hosts))
        + opt_field("aliveTest"@, opt_str_json(p.alive_test))
        + opt_field("portListId"@, opt_str_json(p.port_list_id))
        + opt_field("reverseLookupOnly"@, opt_bool_json(p.reverse_lookup_only))
        + opt_field("reverseLookupUnify"@, opt_bool_json(p.reverse_lookup_unify))
        + opt_field("sshCredentialId"@, opt_str_json(p.ssh_credential_id))
        + opt_field("smbCredentialId"@, opt_str_json(p.smb_credential_id))
        + opt_field("esxiCredentialId"@, opt_str_json(p.esxi_credential_id))
        + opt_field("snmpCredentialId"@, opt_str_json(p.snmp_credential_id))
}

/// Each argument of `openvas_create_target` lands under its own gateway key: the body
/// holds every given field under its key, omits the absent ones, carries
/// no other key, and no key twice.
#[verifier::rlimit(60)]
#[verifier::spinoff_prover]
pub proof fn law_create_target_body(p: CreateTargetParams)
    ensures
        Json::Object(create_target_body(p)).get("name"@) == Some(Json::Str(p.name@)),
        Json::Object(create_target_body(p)).get("hosts"@) == Some(Json::Array(string_models(p.hosts@))),
        Json::Object(create_target_body(p)).get("comment"@) == opt_str_json(p.comment),
        Json::Object(create_target_body(p)).get("excludeHosts"@) == opt_strings_json(p.exclude_hosts),
        Json::Object(create_target_body(p)).get("aliveTest"@) == opt_str_json(p.alive_test),
        Json::Object(create_target_body(p)).get("portListId"@) == opt_str_json(p.port_list_id),
        Json::Object(create_target_body(p)).get("reverseLookupOnly"@) == opt_bool_json(p.reverse_lookup_only),
        Json::Object(create_target_body(p)).get("reverseLookupUnify"@) == opt_bool_json(p.reverse_lookup_unify),
        Json::Object(create_target_body(p)).get("sshCredentialId"@) == opt_str_json(p.ssh_credential_id),
        Json::Object(create_target_body(p)).get("smbCredentialId"@) == opt_str_json(p.smb_credential_id),
        Json::Object(create_target_body(p)).get("esxiCredentialId"@) == opt_str_json(p.esxi_credential_id),
        Json::Object(create_target_body(p)).get("snmpCredentialId"@) == opt_str_json(p.snmp_credential_id),
        forall|key: Seq<char>| #[trigger] key_count(create_target_body(p), key) <= 1,
        forall|key: Seq<char>| #[trigger] key_count(create_target_body(p), key) > 0 ==> (key == "name"@ || key == "hosts"@ || key == "comment"@ || key == "excludeHosts"@ || key == "aliveTest"@ || key == "portListId"@ || key == "reverseLookupOnly"@ || key == "reverseLookupUnify"@ || key == "sshCredentialId"@ || key == "smbCredentialId"@ || key == "esxiCredentialId"@ || key == "snmpCredentialId"@),
{
    lemma_entries_algebra();
    lemma_opt_field_algebra();
    reveal_strlit("name");
    assert("name"@.len() == 4);
    reveal_strlit("hosts");
    assert("hosts"@.len() == 5);
    reveal_strlit("comment");
    assert("comment"@.len() == 7);
    reveal_strlit("excludeHosts");
    assert("excludeHosts"@.len() == 12);
    reveal_strlit("aliveTest");
    assert("aliveTest"@.len() == 9);
    reveal_strlit("portListId");
    assert("portListId"@.len() == 10);
    reveal_strlit("reverseLookupOnly");
    assert("reverseLookupOnly"@.len() == 17);
    reveal_strlit("reverseLookupUnify");
    assert("reverseLookupUnify"@.len() == 18);
    reveal_strlit("sshCredentialId");
    assert("sshCredentialId"@.len() == 15);
    reveal_strlit("smbCredentialId");
    assert("smbCredentialId"@.len() == 15);
    reveal_strlit("esxiCredentialId");
    assert("esxiCredentialId"@.len() == 16);
    reveal_strlit("snmpCredentialId");
    assert("snmpCredentialId"@.len() == 16);
    assert("sshCredentialId"@[1] != "smbCredentialId"@[1]);
    assert("esxiCredentialId"@[0] != "snmpCredentialId"@[0]);
}

/// The `openvas_create_target` call: `POST /targets` with the body; the gateway's
/// `{id}` envelope is passed through. Not idempotent.
pub fn create_target(params: CreateTargetParams) -> (c: ToolCall)
    ensures
        c.spec() == create_call_spec("targets"@, create_target_body(params), "creating the target"@),
{
    let body = Body::new()
        .set("name", JsonValue::Str(params.name))
        .set("hosts", JsonValue::strings(&params.hosts))
        .set_opt("comment", opt_string(params.comment))
        .set_opt("excludeHosts", opt_strings(params.exclude_hosts))
        .set_opt("aliveTest", opt_string(params.alive_test))
        .set_opt("portListId", opt_string(params.port_list_id))
        .set_opt("reverseLookupOnly", opt_bool(params.reverse_lookup_only))
        .set_opt("reverseLookupUnify", opt_bool(params.reverse_lookup_unify))
        .set_opt("sshCredentialId", opt_string(params.ssh_credential_id))
        .set_opt("smbCredentialId", opt_string(params.smb_credential_id))
        .set_opt("esxiCredentialId", opt_string(params.esxi_credential_id))
        .set_opt("snmpCredentialId", opt_string(params.snmp_credential_id));
    create_call("targets", body, "creating the target")
}

/// Arguments for `openvas_update_target`: omitted fields stay unchanged.
#[derive(Debug)]
pub struct UpdateTargetParams {
    /// UUID of the target to update
    pub id: String,
    pub name: Option<String>,
    pub comment: Option<String>,
    /// Replacement host entries
    pub hosts: Option<Vec<String>>,
    pub exclude_hosts: Option<Vec<String>>,
    pub alive_test: Option<String>,
    pub port_list_id: Option<String>,
    pub reverse_lookup_only: Option<bool>,
    pub reverse_lookup_unify: Option<bool>,
    pub ssh_credential_id: Option<String>,
    pub smb_credential_id: Option<String>,
    pub esxi_credential_id: Option<String>,
    pub snmp_credential_id: Option<String>,
}

/// The request body of `update_target`: the set fields under their gateway keys.
pub open spec fn update_target_body(p: UpdateTargetParams) -> Seq<(Seq<char>, Json)> {
    Seq::empty()
        + opt_field("name"@, opt_str_json(p.name))
        + opt_field("comment"@, opt_str_json(p.comment))
        + opt_field("hosts"@, opt_strings_json(p.hosts))
        + opt_field("excludeHosts"@, opt_strings_json(p.exclude_hosts))
        + opt_field("aliveTest"@, opt_str_json(p.alive_test))
        + opt_field("portListId"@, opt_str_json(p.port_list_id))
        + opt_field("reverseLookupOnly"@, opt_bool_json(p.reverse_lookup_only))
        + opt_field("reverseLookupUnify"@, opt_bool_json(p.reverse_lookup_unify))
        + opt_field("sshCredentialId"@, opt_str_json(p.ssh_credential_id))
        + opt_field("smbCredentialId"@, opt_str_json(p.smb_credential_id))
        + opt_field("esxiCredentialId"@, opt_str_json(p.esxi_credential_id))
        + opt_field("snmpCredentialId"@, opt_str_json(p.snmp_credential_id))
}

/// Each argument of `openvas_update_target` lands under its own gateway key: the body
/// holds every given field under its key, omits the absent ones, carries
/// no other key, and no key twice.
#[verifier::rlimit(60)]
#[verifier::spinoff_prover]
pub proof fn law_update_target_body(p: UpdateTargetParams)
    ensures
        Json::Object(update_target_body(p)).get("name"@) == opt_str_json(p.name),
        Json::Object(update_target_body(p)).get("comment"@) == opt_str_json(p.comment),
        Json::Object(update_target_body(p)).get("hosts"@) == opt_strings_json(p.hosts),
        Json::Object(update_target_body(p)).get("excludeHosts"@) == opt_strings_json(p.exclude_hosts),
        Json::Object(update_target_body(p)).get("aliveTest"@) == opt_str_json(p.alive_test),
        Json::Object(update_target_body(p)).get("portListId"@) == opt_str_json(p.port_list_id),
        Json::Object(update_target_body(p)).get("reverseLookupOnly"@) == opt_bool_json(p.reverse_lookup_only),
        Json::Object(update_target_body(p)).get("reverseLookupUnify"@) == opt_bool_json(p.reverse_lookup_unify),
        Json::Object(update_target_body(p)).get("sshCredentialId"@) == opt_str_json(p.ssh_credential_id),
        Json::Object(update_target_body(p)).get("smbCredentialId"@) == opt_str_json(p.smb_credential_id),
        Json::Object(update_target_body(p)).get("esxiCredentialId"@) == opt_str_json(p.esxi_credential_id),
        Json::Object(update_target_body(p)).get("snmpCredentialId"@) == opt_str_json(p.snmp_credential_id),
        forall|key: Seq<char>| #[trigger] key_count(update_target_body(p), key) <= 1,
        forall|key: Seq<char>| #[trigger] key_count(update_target_body(p), key) > 0 ==> (key == "name"@ || key == "comment"@ || key == "hosts"@ || key == "excludeHosts"@ || key == "aliveTest"@ || key == "portListId"@ || key == "reverseLookupOnly"@ || key == "reverseLookupUnify"@ || key == "sshCredentialId"@ || key == "smbCredentialId"@ || key == "esxiCredentialId"@ || key == "snmpCredentialId"@),
{
    lemma_entries_algebra();
    lemma_opt_field_algebra();
    reveal_strlit("name");
    assert("name"@.len() == 4);
    reveal_strlit("comment");
    assert("comment"@.len() == 7);
    reveal_strlit("hosts");
    assert("hosts"@.len() == 5);
    reveal_strlit("excludeHosts");
    assert("excludeHosts"@.len() == 12);
    reveal_strlit("aliveTest");
    assert("aliveTest"@.len() == 9);
    reveal_strlit("portListId");
    assert("portListId"@.len() == 10);
    reveal_strlit("reverseLookupOnly");
    assert("reverseLookupOnly"@.len() == 17);
    reveal_strlit("reverseLookupUnify");
    assert("reverseLookupUnify"@.len() == 18);
    reveal_strlit("sshCredentialId");
    assert("sshCredentialId"@.len() == 15);
    reveal_strlit("smbCredentialId");
    assert("smbCredentialId"@.len() == 15);
    reveal_strlit("esxiCredentialId");
    assert("esxiCredentialId"@.len() == 16);
    reveal_strlit("snmpCredentialId");
    assert("snmpCredentialId"@.len() == 16);
    assert("sshCredentialId"@[1] != "smbCredentialId"@[1]);
    assert("esxiCredentialId"@[0] != "snmpCredentialId"@[0]);
}

/// The `openvas_update_target` call: `PUT /targets/<id>` with the set fields; the
/// updated resource is passed through.
pub fn update_target(params: UpdateTargetParams) -> (c: ToolCall)
    ensures
        c.spec() == update_call_spec(seq!["targets"@, params.id@], update_target_body(params), "updating the target"@),
{
    let segs = resource_id("targets", &params.id);
    let body = Body::new()
        .set_opt("name", opt_string(params.name))
        .set_opt("comment", opt_string(params.comment))
        .set_opt("hosts", opt_strings(params.hosts))
        .set_opt("excludeHosts", opt_strings(params.exclude_hosts))
        .set_opt("aliveTest", opt_string(params.alive_test))
        .set_opt("portListId", opt_string(params.port_list_id))
        .set_opt("reverseLookupOnly", opt_bool(params.reverse_lookup_only))
        .set_opt("reverseLookupUnify", opt_bool(params.reverse_lookup_unify))
        .set_opt("sshCredentialId", opt_string(params.ssh_credential_id))
        .set_opt("smbCredentialId", opt_string(params.smb_credential_id))
        .set_opt("esxiCredentialId", opt_string(params.esxi_credential_id))
        .set_opt("snmpCredentialId", opt_string(params.snmp_credential_id));
    update_call(segs, body, "updating the target")
}

/// The `openvas_delete_target` call: `DELETE /targets/<id>` (to the trashcan unless
/// `ultimate`), acknowledged as `{"deleted": true, "id": <id>}`.
pub fn delete_target(params: &DeleteParams) -> (c: ToolCall)
    ensures
        c.spec() == delete_call_spec("targets"@, params.id@, params.query_spec(), "deleting the target"@),
{
    delete_call("targets", params, "deleting the target")
}

/// Summarized list row: compact on purpose (LLM token budget). Full details
/// come from `openvas_get_target`.
#[derive(Debug)]
pub struct TargetRow {
    pub id: String,
    pub name: String,
    pub hosts: Vec<String>,
    pub port_list: Option<String>,
    pub in_use: Option<bool>,
}

/// The name of a port-list reference, when both are present.
pub open spec fn ref_name(r: Option<crate::gateway::models::ResourceRef>) -> Option<String> {
    match r {
        Some(pl) => pl.name,
        None => None,
    }
}

/// The summary of one target.
pub open spec fn summarize_spec(target: Target) -> TargetRow {
    TargetRow {
        id: target.id,
        name: target.name,
        hosts: target.hosts,
        port_list: ref_name(target.port_list),
        in_use: target.in_use,
    }
}

/// The summary row of a target: id, name, hosts, port list name and
/// in-use flag.
pub fn summarize(target: Target) -> (row: TargetRow)
    ensures
        row == summarize_spec(target),
{
    let port_list = match target.port_list {
        Some(pl) => pl.name,
        None => None,
    };
    TargetRow {
        id: target.id,
        name: target.name,
        hosts: target.hosts,
        port_list,
        in_use: target.in_use,
    }
}

/// The JSON form of a row (`portList` and `inUse` only when present).
pub open spec fn target_row_json(r: TargetRow) -> Json {
    Json::Object(
        Seq::empty() + seq![("id"@, Json::Str(r.id@))] + seq![("name"@, Json::Str(r.name@))] + seq![
            ("hosts"@, Json::Array(string_models(r.hosts@))),
        ] + opt_field("portList"@, opt_str_json(r.port_list)) + opt_field(
            "inUse"@,
            opt_bool_json(r.in_use),
        ),
    )
}

impl TargetRow {
    /// The row as JSON.
    pub fn to_json(self) -> (r: JsonValue)
        ensures
            r.model() == target_row_json(self),
    {
        let body = Body::new()
            .set("id", JsonValue::Str(self.id))
            .set("name", JsonValue::Str(self.name))
            .set("hosts", JsonValue::strings(&self.hosts))
            .set_opt("portList", opt_string(self.port_list))
            .set_opt("inUse", opt_bool(self.in_use));
        body.into_value()
    }
}

/// The tool output for a target list: `{targets: rows, pagination}`.
pub open spec fn target_list_json(list: TargetList) -> Json {
    Json::Object(
        seq![
            ("targets"@, Json::Array(list.data@.map_values(|t: Target| target_row_json(summarize_spec(t))))),
            ("pagination"@, pagination_json(list.pagination)),
        ],
    )
}

/// Summarize a target list answer row by row.
pub fn target_list_output(list: TargetList) -> (r: JsonValue)
    ensures
        r.model() == target_list_json(list),
{
    let ghost all = list.data@;
    let total: usize = list.data.len();
    let mut data = list.data;
    let mut rows: Vec<JsonValue> = Vec::new();
    let ghost target_rows = all.map_values(|t: Target| target_row_json(summarize_spec(t)));
    let mut i: usize = 0;
    while data.len() > 0
        invariant
            i <= all.len(),
            all.len() == total,
            data@ == all.subrange(i as int, all.len() as int),
            target_rows == all.map_values(|t: Target| target_row_json(summarize_spec(t))),
            crate::json::models(rows@) == target_rows.take(i as int),
        decreases data@.len(),
    {
        let t = data.remove(0);
        assert(t == all[i as int]);
        let row = summarize(t).to_json();
        let ghost before = rows@;
        rows.push(row);
        assert(rows@.subrange(0, before.len() as int) =~= before);
        assert(target_rows.take(i + 1) =~= target_rows.take(i as int).push(row.model()));
        assert(data@ =~= all.subrange(i + 1, all.len() as int));
        i = i + 1;
    }
    assert(target_rows.take(i as int) =~= target_rows);
    let mut out: Vec<(String, JsonValue)> = Vec::new();
    out.push((String::from_str("targets"), JsonValue::Array(rows)));
    out.push((String::from_str("pagination"), list.pagination.to_json()));
    proof {
        crate::json::lemma_entry_models(out@);
        assert(crate::json::entry_models(out@) =~= seq![
            ("targets"@, Json::Array(target_rows)),
            ("pagination"@, pagination_json(list.pagination)),
        ]);
    }
    JsonValue::Object(out)
}

/// The `openvas_list_targets` call: `GET /targets` with the list query; the
/// typed list is summarized row by row.
pub fn list_targets(params: &ListParams) -> (c: ToolCall)
    ensures
        c.spec() == api_call(
            HttpMethod::Get,
            seq!["targets"@],
            params.query_spec(),
            None,
            ReplySpec::TargetRows,
            "listing targets"@,
        ),
{
    let mut c = list_at_call(single("targets"), "targets", &[], params, "listing targets");
    c.reply = Reply::TargetRows;
    c
}

/// The `openvas_get_target` call: one target by UUID, including
/// credentials, alive test and port list bindings.
pub fn get_target(params: &GetByIdParams) -> (c: ToolCall)
    ensures
        c.spec() == api_call(
            HttpMethod::Get,
            seq!["targets"@, params.id@],
            Seq::empty(),
            None,
            ReplySpec::Decoded(Shape::Target),
            "fetching the target"@,
        ),
{
    api_tool_call(HttpMethod::Get, resource_id("targets", &params.id), None, Reply::Decoded(Shape::Target), "fetching the target")
}

/// A summarized target row keeps the target's id, name and every host in
/// order, the port list's name when it has one, and the in-use flag when
/// given; it carries no other key, and no key twice.
pub proof fn law_target_row_keeps_the_target(t: Target)
    ensures
        target_row_json(summarize_spec(t)).get("id"@) == Some(Json::Str(t.id@)),
        target_row_json(summarize_spec(t)).get("name"@) == Some(Json::Str(t.name@)),
        target_row_json(summarize_spec(t)).get("hosts"@) == Some(Json::Array(string_models(t.hosts@))),
        target_row_json(summarize_spec(t)).get("portList"@) == (match t.port_list {
            Some(pl) => opt_str_json(pl.name),
            None => None,
        }),
        target_row_json(summarize_spec(t)).get("inUse"@) == opt_bool_json(t.in_use),
        keys_unique(target_row_json(summarize_spec(t))),
{
    lemma_entries_algebra();
    lemma_opt_field_algebra();
    reveal_strlit("id");
    assert("id"@.len() == 2);
    reveal_strlit("name");
    assert("name"@.len() == 4);
    reveal_strlit("hosts");
    assert("hosts"@.len() == 5);
    reveal_strlit("portList");
    assert("portList"@.len() == 8);
    reveal_strlit("inUse");
    assert("inUse"@.len() == 5);
    assert("hosts"@[0] != "inUse"@[0]);
}

/// The summarized target list holds one row per target, in order, each
/// row keeping its target's id, name and all its hosts, and the list's
/// pagination unchanged.
pub proof fn law_target_list_rows(list: TargetList)
    ensures
        target_list_json(list).get("pagination"@) == Some(pagination_json(list.pagination)),
        target_list_json(list).get("targets"@) matches Some(Json::Array(rows)) && rows.len() == list.data@.len()
            && forall|i: int| 0 <= i < rows.len() ==> {
                let t = list.data@[i];
                &&& #[trigger] rows[i].get("id"@) == Some(Json::Str(t.id@))
                &&& rows[i].get("name"@) == Some(Json::Str(t.name@))
                &&& rows[i].get("hosts"@) == Some(Json::Array(string_models(t.hosts@)))
            },
{
    reveal_strlit("targets");
    assert("targets"@.len() == 7);
    reveal_strlit("pagination");
    assert("pagination"@.len() == 10);
    reveal_with_fuel(crate::json::lookup, 3);
    let rows = list.data@.map_values(|t: Target| target_row_json(summarize_spec(t)));
    assert forall|i: int| 0 <= i < rows.len() implies {
        let t = list.data@[i];
        &&& #[trigger] rows[i].get("id"@) == Some(Json::Str(t.id@))
        &&& rows[i].get("name"@) == Some(Json::Str(t.name@))
        &&& rows[i].get("hosts"@) == Some(Json::Array(string_models(t.hosts@)))
    } by {
        law_target_row_keeps_the_target(list.data@[i]);
    }
}

} // verus!
