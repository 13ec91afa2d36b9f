use gvm_mcp::gateway::error::GatewayError;
use gvm_mcp::gateway::models::{Pagination, ResourceRef, Target, TargetList, Task, TaskList};
use gvm_mcp::json::{pick, summarize_list, JsonValue};
use gvm_mcp::mcp::tools::answer::{finish_call, fits, Answer};
use gvm_mcp::mcp::tools::common::{acknowledge, GetByIdParams, ListParams, Reply, Shape, ToolOutput};
use gvm_mcp::mcp::tools::reports::{artifact_output, download_job_result, MAX_INLINE_ARTIFACT_BYTES};
use gvm_mcp::mcp::tools::targets::{get_target, list_targets, target_list_output};
use gvm_mcp::mcp::tools::tasks::{stop_task, task_list_output};
use gvm_mcp::mcp::tools::scanners::list_scanners;

fn s(text: &str) -> JsonValue {
    JsonValue::Str(text.to_string())
}

fn n(text: &str) -> JsonValue {
    JsonValue::Number(text.to_string())
}

fn obj(entries: Vec<(&str, JsonValue)>) -> JsonValue {
    JsonValue::Object(entries.into_iter().map(|(k, v)| (k.to_string(), v)).collect())
}

fn pagination_json() -> JsonValue {
    obj(vec![("page", n("1")), ("perPage", n("25")), ("total", n("2")), ("totalPages", n("1"))])
}

#[test]
fn pick_keeps_present_non_null_keys_in_key_order() {
    let row = obj(vec![
        ("name", s("gw")),
        ("id", s("s-1")),
        ("host", JsonValue::Null),
        ("extra", s("dropped")),
    ]);
    assert_eq!(pick(&row, &["id", "name", "host", "port"]), obj(vec![("id", s("s-1")), ("name", s("gw"))]));
    assert_eq!(pick(&s("not an object"), &["id"]), obj(vec![]));
}

#[test]
fn summarize_list_reduces_rows_and_keeps_pagination() {
    let answer = obj(vec![
        ("data", JsonValue::Array(vec![
            obj(vec![("id", s("a")), ("name", s("A")), ("secret", s("x"))]),
            obj(vec![("id", s("b"))]),
        ])),
        ("pagination", pagination_json()),
    ]);
    assert_eq!(
        summarize_list(&answer, "scanners", &["id", "name"]),
        obj(vec![
            ("scanners", JsonValue::Array(vec![obj(vec![("id", s("a")), ("name", s("A"))]), obj(vec![("id", s("b"))])])),
            ("pagination", pagination_json()),
        ])
    );
}

#[test]
fn summarize_list_handles_missing_data_and_pagination() {
    let answer = obj(vec![("pagination", JsonValue::Null)]);
    assert_eq!(
        summarize_list(&answer, "feeds", &["type"]),
        obj(vec![("feeds", JsonValue::Array(vec![]))])
    );
}

fn target(id: &str, port_list: Option<ResourceRef>) -> Target {
    Target {
        id: id.into(),
        name: format!("{id}-name"),
        comment: Some("hidden in rows".into()),
        hosts: vec!["10.0.0.1".into()],
        exclude_hosts: None,
        alive_test: None,
        port_list,
        reverse_lookup_only: None,
        reverse_lookup_unify: None,
        ssh_credential: None,
        smb_credential: None,
        esxi_credential: None,
        snmp_credential: None,
        in_use: Some(true),
        writable: None,
    }
}

#[test]
fn target_rows_are_compact() {
    let list = TargetList {
        data: vec![
            target("tg-1", Some(ResourceRef { id: "pl-1".into(), name: Some("All TCP".into()) })),
            target("tg-2", Some(ResourceRef { id: "pl-2".into(), name: None })),
        ],
        pagination: Pagination { page: 1, per_page: 25, total: 2, total_pages: 1 },
    };
    assert_eq!(
        target_list_output(list),
        obj(vec![
            ("targets", JsonValue::Array(vec![
                obj(vec![
                    ("id", s("tg-1")),
                    ("name", s("tg-1-name")),
                    ("hosts", JsonValue::Array(vec![s("10.0.0.1")])),
                    ("portList", s("All TCP")),
                    ("inUse", JsonValue::Bool(true)),
                ]),
                obj(vec![
                    ("id", s("tg-2")),
                    ("name", s("tg-2-name")),
                    ("hosts", JsonValue::Array(vec![s("10.0.0.1")])),
                    ("inUse", JsonValue::Bool(true)),
                ]),
            ])),
            ("pagination", pagination_json()),
        ])
    );
}

#[test]
fn task_rows_show_status_and_reports() {
    let task = Task {
        id: "t-1".into(),
        name: "weekly".into(),
        comment: None,
        status: "Done".into(),
        progress: Some(-1),
        target: Some(ResourceRef { id: "tg-1".into(), name: Some("webservers".into()) }),
        scan_config: None,
        scanner: None,
        schedule: None,
        alerts: None,
        alterable: None,
        hosts_ordering: None,
        schedule_periods: None,
        last_report: Some(ResourceRef { id: "r-9".into(), name: None }),
        current_report: None,
        report_count: Some(4),
        in_use: None,
        writable: None,
    };
    let list = TaskList { data: vec![task], pagination: Pagination { page: 1, per_page: 25, total: 2, total_pages: 1 } };
    assert_eq!(
        task_list_output(list),
        obj(vec![
            ("tasks", JsonValue::Array(vec![obj(vec![
                ("id", s("t-1")),
                ("name", s("weekly")),
                ("status", s("Done")),
                ("progress", n("-1")),
                ("target", s("webservers")),
                ("lastReportId", s("r-9")),
                ("reportCount", n("4")),
            ])])),
            ("pagination", pagination_json()),
        ])
    );
}

#[test]
fn acknowledgements_name_the_resource() {
    assert_eq!(
        acknowledge("deleted", "tg-1"),
        obj(vec![("deleted", JsonValue::Bool(true)), ("id", s("tg-1"))])
    );
}

#[test]
fn json_artifacts_are_returned_inline() {
    let out = artifact_output(b"{\"report\":1}".to_vec(), Some("application/json; charset=utf-8".into()), None);
    match out {
        ToolOutput::Text(text) => assert_eq!(text, "{\"report\":1}"),
        other => panic!("expected inline text, got {other:?}"),
    }
}

#[test]
fn binary_artifacts_are_base64_enveloped() {
    let out = artifact_output(b"%PDF".to_vec(), Some("application/pdf".into()), Some("report.pdf".into()));
    match out {
        ToolOutput::Json(v) => assert_eq!(
            v,
            obj(vec![
                ("contentType", s("application/pdf")),
                ("filename", s("report.pdf")),
                ("size", n("4")),
                ("base64", s("JVBERg==")),
            ])
        ),
        other => panic!("expected an envelope, got {other:?}"),
    }
    let out = artifact_output(vec![1, 2, 3], None, None);
    match out {
        ToolOutput::Json(v) => assert_eq!(
            v,
            obj(vec![
                ("contentType", JsonValue::Null),
                ("filename", JsonValue::Null),
                ("size", n("3")),
                ("base64", s("AQID")),
            ])
        ),
        other => panic!("expected an envelope, got {other:?}"),
    }
}

#[test]
fn oversized_binary_artifacts_are_refused_legibly() {
    assert_eq!(MAX_INLINE_ARTIFACT_BYTES, 3 * 1024 * 1024);
    let out = artifact_output(vec![0u8; MAX_INLINE_ARTIFACT_BYTES + 1], Some("application/pdf".into()), None);
    match out {
        ToolOutput::Error(message) => {
            assert_eq!(
                message,
                "Artifact is 3145729 bytes (application/pdf), larger than the 3145728 byte inline limit. \
                 Export with a narrower filter, or use the JSON format and page through the results instead."
            );
            assert!(message.contains("narrower filter"));
        }
        other => panic!("expected a refusal, got {other:?}"),
    }
    // Exactly at the limit is still inlined.
    let out = artifact_output(vec![0u8; MAX_INLINE_ARTIFACT_BYTES], None, None);
    assert!(matches!(out, ToolOutput::Json(_)));
    let out = artifact_output(vec![0u8; MAX_INLINE_ARTIFACT_BYTES + 1], None, None);
    match out {
        ToolOutput::Error(message) => assert!(message.contains("(unknown content type)")),
        other => panic!("expected a refusal, got {other:?}"),
    }
}

#[test]
fn finished_calls_render_their_reply() {
    let call = list_scanners(&ListParams::default());
    let answer = obj(vec![("data", JsonValue::Array(vec![obj(vec![("id", s("s-1")), ("comment", s("x"))])]))]);
    match finish_call(&call, Ok(Answer::Json(answer))) {
        ToolOutput::Json(v) => assert_eq!(v, obj(vec![("scanners", JsonValue::Array(vec![obj(vec![("id", s("s-1"))])]))])),
        other => panic!("expected JSON, got {other:?}"),
    }
    let stop = stop_task(&GetByIdParams { id: "t-1".into() });
    match finish_call(&stop, Ok(Answer::Empty)) {
        ToolOutput::Json(v) => assert_eq!(v, obj(vec![("stopped", JsonValue::Bool(true)), ("id", s("t-1"))])),
        other => panic!("expected JSON, got {other:?}"),
    }
    let get = get_target(&GetByIdParams { id: "tg-404".into() });
    let failure = GatewayError::UnexpectedStatus { status: 404, body: "no".into() };
    match finish_call(&get, Err(failure)) {
        ToolOutput::Error(m) => assert_eq!(m, "Gateway returned unexpected HTTP 404 while fetching the target: no"),
        other => panic!("expected an error, got {other:?}"),
    }
    let list = list_targets(&ListParams::default());
    let empty = TargetList { data: vec![], pagination: Pagination { page: 1, per_page: 25, total: 0, total_pages: 0 } };
    assert!(matches!(finish_call(&list, Ok(Answer::Targets(empty))), ToolOutput::Json(_)));
    let download = download_job_result(&GetByIdParams { id: "j-1".into() });
    let artifact = Answer::Artifact { bytes: b"[]".to_vec(), content_type: Some("application/json".into()), filename: None };
    assert!(matches!(finish_call(&download, Ok(artifact)), ToolOutput::Text(_)));
}

#[test]
fn answers_fit_only_the_reply_they_were_decoded_for() {
    let ack = Reply::Acknowledge { flag: "deleted".into(), id: "t-1".into() };
    assert!(fits(&ack, &Answer::Empty));
    assert!(!fits(&ack, &Answer::Json(JsonValue::Null)));
    assert!(fits(&Reply::Passthrough, &Answer::Json(JsonValue::Null)));
    assert!(!fits(&Reply::Passthrough, &Answer::Empty));
    assert!(!fits(&Reply::Decoded(Shape::Version), &Answer::Empty));
}
