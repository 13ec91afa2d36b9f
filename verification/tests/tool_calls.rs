use gvm_mcp::json::JsonValue;
use gvm_mcp::mcp::tools::common::{CallAuth, DeleteParams, GetByIdParams, HttpMethod, ListParams, Reply, Shape, ToolCall};
use gvm_mcp::mcp::tools::feeds::list_feeds;
use gvm_mcp::mcp::tools::nvts::{get_nvt, search_nvts, GetNvtParams};
use gvm_mcp::mcp::tools::reports::{
    cancel_job, download_job_result, export_report, get_report_closed_cves, get_report_results,
    get_report_tls_certificates, ExportReportParams, ReportPageParams,
};
use gvm_mcp::mcp::tools::targets::{create_target, delete_target, list_targets, update_target, CreateTargetParams, UpdateTargetParams};
use gvm_mcp::mcp::tools::tasks::{create_task, get_task, start_task, stop_task, update_task, CreateTaskParams, UpdateTaskParams};
use gvm_mcp::mcp::tools::alerts::{create_alert, CreateAlertParams};
use gvm_mcp::mcp::tools::credentials::{create_credential, CreateCredentialParams};
use gvm_mcp::mcp::tools::identity::list_users;
use gvm_mcp::mcp::tools::notes::{create_note, delete_note, update_note, CreateNoteParams, UpdateNoteParams};
use gvm_mcp::mcp::tools::overrides::{create_override, CreateOverrideParams};
use gvm_mcp::mcp::tools::scan_configs::{
    create_scan_config, delete_scan_config, update_scan_config, CreateScanConfigParams, UpdateScanConfigParams,
};

fn s(text: &str) -> JsonValue {
    JsonValue::Str(text.to_string())
}

fn obj(entries: Vec<(&str, JsonValue)>) -> JsonValue {
    JsonValue::Object(entries.into_iter().map(|(k, v)| (k.to_string(), v)).collect())
}

fn segs(call: &ToolCall) -> Vec<&str> {
    call.segments.iter().map(|x| x.as_str()).collect()
}

fn query(call: &ToolCall) -> Vec<(&str, &str)> {
    call.query.iter().map(|(k, v)| (k.as_str(), v.as_str())).collect()
}

#[test]
fn create_target_body_holds_only_set_fields_in_camel_case() {
    let call = create_target(CreateTargetParams {
        name: "webservers".into(),
        hosts: vec!["10.0.0.0/24".into()],
        comment: None,
        exclude_hosts: None,
        alive_test: None,
        port_list_id: Some("pl-1".into()),
        reverse_lookup_only: None,
        reverse_lookup_unify: None,
        ssh_credential_id: Some("c-1".into()),
        smb_credential_id: None,
        esxi_credential_id: None,
        snmp_credential_id: None,
    });
    assert_eq!(call.method, HttpMethod::Post);
    assert_eq!(segs(&call), vec!["targets"]);
    assert_eq!(
        call.body,
        Some(obj(vec![
            ("name", s("webservers")),
            ("hosts", JsonValue::Array(vec![s("10.0.0.0/24")])),
            ("portListId", s("pl-1")),
            ("sshCredentialId", s("c-1")),
        ]))
    );
    assert_eq!(call.stage, "creating the target");
    assert!(matches!(call.reply, Reply::Passthrough));
    assert!(matches!(call.auth, CallAuth::Forwarded) && !call.root);
}

#[test]
fn update_target_puts_only_the_changed_fields() {
    let call = update_target(UpdateTargetParams {
        id: "tg-1".into(),
        name: Some("renamed".into()),
        comment: None,
        hosts: None,
        exclude_hosts: None,
        alive_test: None,
        port_list_id: None,
        reverse_lookup_only: Some(false),
        reverse_lookup_unify: None,
        ssh_credential_id: None,
        smb_credential_id: None,
        esxi_credential_id: None,
        snmp_credential_id: None,
    });
    assert_eq!(call.method, HttpMethod::Put);
    assert_eq!(segs(&call), vec!["targets", "tg-1"]);
    assert_eq!(
        call.body,
        Some(obj(vec![("name", s("renamed")), ("reverseLookupOnly", JsonValue::Bool(false))]))
    );
}

#[test]
fn delete_target_sends_ultimate_only_when_asked() {
    let call = delete_target(&DeleteParams { id: "tg-1".into(), ultimate: Some(true) });
    assert_eq!(call.method, HttpMethod::Delete);
    assert_eq!(segs(&call), vec!["targets", "tg-1"]);
    assert_eq!(query(&call), vec![("ultimate", "true")]);
    match &call.reply {
        Reply::Acknowledge { flag, id } => {
            assert_eq!(flag, "deleted");
            assert_eq!(id, "tg-1");
        }
        other => panic!("expected an acknowledgement, got {other:?}"),
    }
    let plain = delete_target(&DeleteParams { id: "tg-1".into(), ultimate: None });
    assert!(plain.query.is_empty());
}

#[test]
fn list_targets_passes_the_list_query() {
    let params = ListParams { filter: Some("name~web".into()), filter_id: None, page: Some(2), per_page: None };
    let call = list_targets(&params);
    assert_eq!(call.method, HttpMethod::Get);
    assert_eq!(segs(&call), vec!["targets"]);
    assert_eq!(query(&call), vec![("filter", "name~web"), ("page", "2")]);
    assert!(matches!(call.reply, Reply::TargetRows));
    assert_eq!(call.stage, "listing targets");
}

#[test]
fn generic_list_tools_summarize_to_their_row_keys() {
    let call = list_users(&ListParams::default());
    assert_eq!(segs(&call), vec!["users"]);
    match &call.reply {
        Reply::Summarize { out_key, keys } => {
            assert_eq!(out_key, "users");
            assert_eq!(keys, &vec!["id", "name", "roles", "groups", "hostsAllow", "inUse"]);
        }
        other => panic!("expected a summary, got {other:?}"),
    }
    let nvts = search_nvts(&ListParams::default());
    match &nvts.reply {
        Reply::Summarize { out_key, keys } => {
            assert_eq!(out_key, "nvts");
            assert_eq!(keys, &vec!["oid", "name", "family", "severity", "cvssBase", "solutionType"]);
        }
        other => panic!("expected a summary, got {other:?}"),
    }
}

#[test]
fn feeds_list_has_no_query_and_feed_keys() {
    let call = list_feeds();
    assert_eq!(segs(&call), vec!["feeds"]);
    assert!(call.query.is_empty());
    match &call.reply {
        Reply::Summarize { out_key, keys } => {
            assert_eq!(out_key, "feeds");
            assert_eq!(keys, &vec!["type", "name", "version", "currentlySyncing"]);
        }
        other => panic!("expected a summary, got {other:?}"),
    }
}

#[test]
fn nvts_are_fetched_by_oid() {
    let call = get_nvt(&GetNvtParams { oid: "1.3.6.1.4.1.25623.1.0.100315".into() });
    assert_eq!(segs(&call), vec!["nvts", "1.3.6.1.4.1.25623.1.0.100315"]);
    assert_eq!(call.stage, "fetching the NVT");
}

#[test]
fn task_lifecycle_calls() {
    let id = GetByIdParams { id: "t-1".into() };
    let start = start_task(&id);
    assert_eq!(start.method, HttpMethod::Post);
    assert_eq!(segs(&start), vec!["tasks", "t-1", "start"]);
    assert!(start.body.is_none());
    assert!(matches!(start.reply, Reply::Decoded(Shape::TaskAction)));
    let stop = stop_task(&id);
    assert_eq!(segs(&stop), vec!["tasks", "t-1", "stop"]);
    match &stop.reply {
        Reply::Acknowledge { flag, id } => assert_eq!((flag.as_str(), id.as_str()), ("stopped", "t-1")),
        other => panic!("expected an acknowledgement, got {other:?}"),
    }
    let get = get_task(&id);
    assert!(matches!(get.reply, Reply::Decoded(Shape::Task)));
}

#[test]
fn create_task_sends_camel_case_binding() {
    let call = create_task(CreateTaskParams {
        name: "scan".into(),
        comment: None,
        target_id: "tg-1".into(),
        scan_config_id: "sc-1".into(),
        scanner_id: "s-1".into(),
        schedule_id: None,
        alert_ids: None,
        alterable: Some(false),
    });
    assert_eq!(segs(&call), vec!["tasks"]);
    assert_eq!(
        call.body,
        Some(obj(vec![
            ("name", s("scan")),
            ("targetId", s("tg-1")),
            ("scanConfigId", s("sc-1")),
            ("scannerId", s("s-1")),
            ("alterable", JsonValue::Bool(false)),
        ]))
    );
    assert!(matches!(call.reply, Reply::Decoded(Shape::Created)));
}

#[test]
fn update_task_puts_camel_case_bindings() {
    let call = update_task(UpdateTaskParams {
        id: "t-1".into(),
        name: None,
        comment: None,
        target_id: Some("tg-2".into()),
        scan_config_id: None,
        scanner_id: None,
        schedule_id: None,
        alert_ids: Some(vec![]),
        schedule_periods: Some(3),
    });
    assert_eq!(segs(&call), vec!["tasks", "t-1"]);
    assert_eq!(
        call.body,
        Some(obj(vec![
            ("targetId", s("tg-2")),
            ("alertIds", JsonValue::Array(vec![])),
            ("schedulePeriods", JsonValue::Number("3".into())),
        ]))
    );
}

#[test]
fn create_credential_maps_type_key() {
    let call = create_credential(CreateCredentialParams {
        name: "ssh".into(),
        credential_type: "up".into(),
        comment: None,
        login: Some("root".into()),
        password: Some("pw".into()),
        private_key: None,
        certificate: None,
        community: None,
        auth_algorithm: None,
        privacy_algorithm: None,
        privacy_password: None,
    });
    assert_eq!(
        call.body,
        Some(obj(vec![
            ("name", s("ssh")),
            ("type", s("up")),
            ("login", s("root")),
            ("password", s("pw")),
        ]))
    );
}

#[test]
fn create_alert_sends_data_maps() {
    let call = create_alert(CreateAlertParams {
        name: "done".into(),
        event: "Task run status changed".into(),
        condition: "Always".into(),
        method: "Email".into(),
        comment: None,
        event_data: Some(vec![("status".into(), "Done".into())]),
        condition_data: None,
        method_data: Some(vec![("to_address".into(), "sec@example.com".into())]),
        filter_id: None,
    });
    assert_eq!(
        call.body,
        Some(obj(vec![
            ("name", s("done")),
            ("event", s("Task run status changed")),
            ("condition", s("Always")),
            ("method", s("Email")),
            ("eventData", obj(vec![("status", s("Done"))])),
            ("methodData", obj(vec![("to_address", s("sec@example.com"))])),
        ]))
    );
}

fn page(id: &str) -> ReportPageParams {
    ReportPageParams {
        id: id.into(),
        list: ListParams { filter: Some("severity>7".into()), filter_id: None, page: None, per_page: Some(10) },
    }
}

#[test]
fn report_pages_hit_nested_paths_with_filters() {
    let call = get_report_results(&page("r-1"));
    assert_eq!(segs(&call), vec!["reports", "r-1", "results"]);
    assert_eq!(query(&call), vec![("filter", "severity>7"), ("perPage", "10")]);
    let closed = get_report_closed_cves(&page("r-1"));
    assert_eq!(segs(&closed), vec!["reports", "r-1", "closed-cves"]);
    match &closed.reply {
        Reply::Summarize { out_key, .. } => assert_eq!(out_key, "closedCves"),
        other => panic!("expected a summary, got {other:?}"),
    }
    let tls = get_report_tls_certificates(&page("r-1"));
    match &tls.reply {
        Reply::Summarize { out_key, keys } => {
            assert_eq!(out_key, "tlsCertificates");
            assert_eq!(keys, &vec!["id", "host", "port", "subject", "issuer", "notAfter", "fingerprintSha256"]);
        }
        other => panic!("expected a summary, got {other:?}"),
    }
}

#[test]
fn export_report_defaults_to_json_format() {
    let call = export_report(ExportReportParams { id: "r-1".into(), report_format_id: None, filter: None, filter_id: None });
    assert_eq!(call.method, HttpMethod::Post);
    assert_eq!(segs(&call), vec!["reports", "r-1", "exports"]);
    assert_eq!(call.body, Some(obj(vec![("format", s("json"))])));
    assert_eq!(call.stage, "starting the report export");
}

#[test]
fn export_report_with_format_and_filter() {
    let call = export_report(ExportReportParams {
        id: "r-1".into(),
        report_format_id: Some("rf-pdf".into()),
        filter: Some("severity>5".into()),
        filter_id: Some("f-1".into()),
    });
    assert_eq!(
        call.body,
        Some(obj(vec![("reportFormatId", s("rf-pdf")), ("filter", s("severity>5")), ("filterId", s("f-1"))]))
    );
}

#[test]
fn job_cancel_and_download_calls() {
    let id = GetByIdParams { id: "j-1".into() };
    let cancel = cancel_job(&id);
    assert_eq!(cancel.method, HttpMethod::Delete);
    assert_eq!(segs(&cancel), vec!["jobs", "j-1"]);
    assert!(cancel.query.is_empty());
    let download = download_job_result(&id);
    assert_eq!(segs(&download), vec!["jobs", "j-1", "result"]);
    assert!(matches!(download.reply, Reply::Artifact));
}

#[test]
fn create_note_and_override_send_nvt_oid() {
    let note = create_note(CreateNoteParams {
        nvt_oid: "1.3.6.1.4.1.25623.1.0.100315".into(),
        text: Some("accepted risk".into()),
        hosts: Some(vec!["10.0.0.5".into()]),
        port: None,
        severity: None,
        task_id: None,
        result_id: None,
        active: None,
    });
    assert_eq!(note.method, HttpMethod::Post);
    assert_eq!(segs(&note), vec!["notes"]);
    assert_eq!(
        note.body,
        Some(obj(vec![
            ("nvtOid", s("1.3.6.1.4.1.25623.1.0.100315")),
            ("text", s("accepted risk")),
            ("hosts", JsonValue::Array(vec![s("10.0.0.5")])),
        ]))
    );
    let overridden = create_override(CreateOverrideParams {
        nvt_oid: "1.3.6.1.4.1.25623.1.0.100315".into(),
        text: Some("false positive".into()),
        hosts: None,
        port: None,
        severity: None,
        new_severity: Some("0.0".into()),
        task_id: None,
        result_id: None,
        active: None,
    });
    assert_eq!(overridden.method, HttpMethod::Post);
    assert_eq!(segs(&overridden), vec!["overrides"]);
    assert_eq!(
        overridden.body,
        Some(obj(vec![
            ("nvtOid", s("1.3.6.1.4.1.25623.1.0.100315")),
            ("text", s("false positive")),
            ("newSeverity", s("0.0")),
        ]))
    );
}

#[test]
fn note_updates_and_deletes() {
    let call = update_note(UpdateNoteParams {
        id: "n-1".into(),
        text: Some("still accepted".into()),
        hosts: None,
        port: None,
        severity: None,
        task_id: None,
        result_id: None,
        active: Some(false),
    });
    assert_eq!(call.method, HttpMethod::Put);
    assert_eq!(segs(&call), vec!["notes", "n-1"]);
    assert_eq!(call.body, Some(obj(vec![("text", s("still accepted")), ("active", JsonValue::Bool(false))])));
    let gone = delete_note(&DeleteParams { id: "n-1".into(), ultimate: None });
    assert_eq!(gone.method, HttpMethod::Delete);
    assert_eq!(segs(&gone), vec!["notes", "n-1"]);
}

#[test]
fn scan_config_writes() {
    let call = create_scan_config(CreateScanConfigParams {
        name: "web only".into(),
        base_config_id: "daba56c8-73ec-11df-a475-002264764cea".into(),
        comment: None,
    });
    assert_eq!(call.method, HttpMethod::Post);
    assert_eq!(segs(&call), vec!["scan-configs"]);
    assert_eq!(
        call.body,
        Some(obj(vec![("name", s("web only")), ("baseConfigId", s("daba56c8-73ec-11df-a475-002264764cea"))]))
    );
    let renamed = update_scan_config(UpdateScanConfigParams { id: "sc-9".into(), name: Some("web".into()), comment: None });
    assert_eq!(renamed.method, HttpMethod::Put);
    assert_eq!(segs(&renamed), vec!["scan-configs", "sc-9"]);
    assert_eq!(renamed.body, Some(obj(vec![("name", s("web"))])));
    let gone = delete_scan_config(&DeleteParams { id: "sc-9".into(), ultimate: Some(true) });
    assert_eq!(gone.method, HttpMethod::Delete);
    assert_eq!(segs(&gone), vec!["scan-configs", "sc-9"]);
    assert_eq!(query(&gone), vec![("ultimate", "true")]);
}
