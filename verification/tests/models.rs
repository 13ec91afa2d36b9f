use gvm_mcp::gateway::models::{
    CreateTask, HealthStatus, Pagination, ResourceCreated, ResourceRef, Target, Task, TaskAction, VersionInfo,
};
use gvm_mcp::json::JsonValue;

fn s(text: &str) -> JsonValue {
    JsonValue::Str(text.to_string())
}

fn n(text: &str) -> JsonValue {
    JsonValue::Number(text.to_string())
}

fn obj(entries: Vec<(&str, JsonValue)>) -> JsonValue {
    JsonValue::Object(entries.into_iter().map(|(k, v)| (k.to_string(), v)).collect())
}

fn field<'a>(value: &'a JsonValue, key: &str) -> Option<&'a JsonValue> {
    match value {
        JsonValue::Object(entries) => entries.iter().rev().find(|(k, _)| k == key).map(|(_, v)| v),
        _ => None,
    }
}

#[test]
fn create_task_serializes_camel_case_and_omits_none() {
    let body = CreateTask {
        name: "scan".into(),
        comment: None,
        target_id: "tg-1".into(),
        scan_config_id: "sc-1".into(),
        scanner_id: "s-1".into(),
        schedule_id: None,
        alert_ids: None,
        alterable: None,
        schedule_periods: None,
    };
    let json = body.to_json();
    assert_eq!(field(&json, "targetId"), Some(&s("tg-1")));
    assert_eq!(field(&json, "scanConfigId"), Some(&s("sc-1")));
    assert!(field(&json, "comment").is_none());
    assert!(field(&json, "scheduleId").is_none());
}

#[test]
fn create_task_with_every_field() {
    let body = CreateTask {
        name: "scan".into(),
        comment: Some("weekly".into()),
        target_id: "tg-1".into(),
        scan_config_id: "sc-1".into(),
        scanner_id: "s-1".into(),
        schedule_id: Some("sch-1".into()),
        alert_ids: Some(vec!["a-1".into(), "a-2".into()]),
        alterable: Some(true),
        schedule_periods: Some(-1),
    };
    assert_eq!(
        body.to_json(),
        obj(vec![
            ("name", s("scan")),
            ("comment", s("weekly")),
            ("targetId", s("tg-1")),
            ("scanConfigId", s("sc-1")),
            ("scannerId", s("s-1")),
            ("scheduleId", s("sch-1")),
            ("alertIds", JsonValue::Array(vec![s("a-1"), s("a-2")])),
            ("alterable", JsonValue::Bool(true)),
            ("schedulePeriods", n("-1")),
        ])
    );
}

#[test]
fn pagination_renders_camel_case_numbers() {
    let p = Pagination { page: 1, per_page: 25, total: 142, total_pages: 6 };
    assert_eq!(
        p.to_json(),
        obj(vec![("page", n("1")), ("perPage", n("25")), ("total", n("142")), ("totalPages", n("6"))])
    );
}

#[test]
fn small_answers_render_back() {
    assert_eq!(ResourceCreated { id: "x".into() }.to_json(), obj(vec![("id", s("x"))]));
    assert_eq!(
        TaskAction { report_id: "r-1".into() }.to_json(),
        obj(vec![("reportId", s("r-1"))])
    );
    assert_eq!(
        VersionInfo { api_version: "0.1.0".into(), gmp_version: "22.7".into() }.to_json(),
        obj(vec![("apiVersion", s("0.1.0")), ("gmpVersion", s("22.7"))])
    );
    assert_eq!(HealthStatus { status: "ok".into() }.to_json(), obj(vec![("status", s("ok"))]));
    assert_eq!(
        ResourceRef { id: "r".into(), name: None }.to_json(),
        obj(vec![("id", s("r"))])
    );
}

#[test]
fn target_renders_present_fields_only() {
    let target = Target {
        id: "550e8400".into(),
        name: "webservers".into(),
        comment: None,
        hosts: vec!["192.168.1.0/24".into()],
        exclude_hosts: Some(vec!["192.168.1.1".into()]),
        alive_test: Some("ICMP Ping".into()),
        port_list: Some(ResourceRef { id: "pl-1".into(), name: Some("All TCP".into()) }),
        reverse_lookup_only: None,
        reverse_lookup_unify: None,
        ssh_credential: None,
        smb_credential: None,
        esxi_credential: None,
        snmp_credential: None,
        in_use: Some(false),
        writable: Some(true),
    };
    assert_eq!(
        target.to_json(),
        obj(vec![
            ("id", s("550e8400")),
            ("name", s("webservers")),
            ("hosts", JsonValue::Array(vec![s("192.168.1.0/24")])),
            ("excludeHosts", JsonValue::Array(vec![s("192.168.1.1")])),
            ("aliveTest", s("ICMP Ping")),
            ("portList", obj(vec![("id", s("pl-1")), ("name", s("All TCP"))])),
            ("inUse", JsonValue::Bool(false)),
            ("writable", JsonValue::Bool(true)),
        ])
    );
}

fn sample_task() -> Task {
    Task {
        id: "t-1".into(),
        name: "weekly scan".into(),
        comment: None,
        status: "Running".into(),
        progress: Some(42),
        target: Some(ResourceRef { id: "tg-1".into(), name: Some("webservers".into()) }),
        scan_config: Some(ResourceRef { id: "sc-1".into(), name: Some("Full and fast".into()) }),
        scanner: None,
        schedule: None,
        alerts: Some(vec![ResourceRef { id: "al-1".into(), name: None }]),
        alterable: None,
        hosts_ordering: None,
        schedule_periods: None,
        last_report: Some(ResourceRef { id: "r-1".into(), name: None }),
        current_report: None,
        report_count: Some(3),
        in_use: None,
        writable: None,
    }
}

#[test]
fn task_renders_present_fields_only() {
    assert_eq!(
        sample_task().to_json(),
        obj(vec![
            ("id", s("t-1")),
            ("name", s("weekly scan")),
            ("status", s("Running")),
            ("progress", n("42")),
            ("target", obj(vec![("id", s("tg-1")), ("name", s("webservers"))])),
            ("scanConfig", obj(vec![("id", s("sc-1")), ("name", s("Full and fast"))])),
            ("alerts", JsonValue::Array(vec![obj(vec![("id", s("al-1"))])])),
            ("lastReport", obj(vec![("id", s("r-1"))])),
            ("reportCount", n("3")),
        ])
    );
}
