//! Reports toolset: reads, drill-down pages and asynchronous export jobs.

use vstd::prelude::*;
use crate::json::{key_count, lemma_entries_algebra, str_views, Json, JsonValue};
use super::common::{
    delete_call, delete_call_spec, get_by_id_call, get_call_spec, list_call, list_call_spec,
    opt_field, opt_str_json, opt_string, resource_id, Body, DeleteParams, GetByIdParams, ListParams,
    ToolCall,
};
use crate::body::lemma_opt_field_algebra;
use crate::codec::{base64_encode, base64_standard, utf8_lossy, utf8_lossy_text};
use crate::text::{decimal, has_prefix, owned, starts_with, u64_to_decimal};
use crate::json::{keys_unique};
use super::common::{api_call, api_tool_call, list_at_call, list_at_call_spec, resource_id_sub, CallSpec, HttpMethod, OutputSpec, Reply, ReplySpec, ToolOutput};

verus! {

/// Row keys kept by `openvas_list_reports`.
pub open spec fn list_reports_keys() -> Seq<Seq<char>> {
    seq!["id"@, "task"@, "scanStart"@, "scanEnd"@, "severity"@, "resultCount"@]
}

fn list_reports_key_list() -> (r: Vec<&'static str>)
    ensures
        str_views(r@) == list_reports_keys(),
{
    let r: Vec<&'static str> = vec!["id", "task", "scanStart", "scanEnd", "severity", "resultCount"];
    assert(str_views(r@) =~= list_reports_keys());
    r
}

/// The `openvas_list_reports` call: `GET /reports` with the list query, each row summarized to
/// its key fields, pagination kept.
pub fn list_reports(params: &ListParams) -> (c: ToolCall)
    ensures
        c.spec() == list_call_spec("reports"@, "reports"@, list_reports_keys(), params.query_spec(), "listing reports"@),
{
    let keys = list_reports_key_list();
    list_call("reports", "reports", keys.as_slice(), params, "listing reports")
}

/// The `openvas_get_report` call: `GET /reports/<id>`, the gateway's JSON passed through.
pub fn get_report(params: &GetByIdParams) -> (c: ToolCall)
    ensures
        c.spec() == get_call_spec(seq!["reports"@, params.id@], "fetching the report"@),
{
    get_by_id_call("reports", params, "fetching the report")
}

/// The `openvas_delete_report` call: `DELETE /reports/<id>` (to the trashcan unless
/// `ultimate`), acknowledged as `{"deleted": true, "id": <id>}`.
pub fn delete_report(params: &DeleteParams) -> (c: ToolCall)
    ensures
        c.spec() == delete_call_spec("reports"@, params.id@, params.query_spec(), "deleting the report"@),
{
    delete_call("reports", params, "deleting the report")
}

/// Drill-down pages reuse the results row shape.
pub open spec fn result_row_keys() -> Seq<Seq<char>> {
    seq!["id"@, "name"@, "host"@, "port"@, "severity"@, "threat"@, "occurrences"@]
}

fn result_row_key_list() -> (r: Vec<&'static str>)
    ensures
        str_views(r@) == result_row_keys(),
{
    let r: Vec<&'static str> = vec!["id", "name", "host", "port", "severity", "threat", "occurrences"];
    assert(str_views(r@) =~= result_row_keys());
    r
}

/// Row keys of the TLS certificates page.
pub open spec fn tls_row_keys() -> Seq<Seq<char>> {
    seq!["id"@, "host"@, "port"@, "subject"@, "issuer"@, "notAfter"@, "fingerprintSha256"@]
}

fn tls_row_key_list() -> (r: Vec<&'static str>)
    ensures
        str_views(r@) == tls_row_keys(),
{
    let r: Vec<&'static str> = vec!["id", "host", "port", "subject", "issuer", "notAfter", "fingerprintSha256"];
    assert(str_views(r@) =~= tls_row_keys());
    r
}

/// Arguments for report drill-down pages: report UUID plus list filtering.
#[derive(Debug)]
pub struct ReportPageParams {
    /// Report UUID
    pub id: String,
    pub list: ListParams,
}

/// A drill-down page of one report: `GET /reports/<id>/<page>` with the
/// list query, rows summarized to `keys` under `out_key`.
pub open spec fn report_page_spec(
    params: ReportPageParams,
    page: Seq<char>,
    out_key: Seq<char>,
    keys: Seq<Seq<char>>,
    stage: Seq<char>,
) -> CallSpec {
    list_at_call_spec(seq!["reports"@, params.id@, page], out_key, keys, params.list.query_spec(), stage)
}

fn report_page(params: &ReportPageParams, page: &str, out_key: &str, keys: Vec<&'static str>, stage: &str) -> (c: ToolCall)
    ensures
        c.spec() == report_page_spec(*params, page@, out_key@, str_views(keys@), stage@),
{
    list_at_call(resource_id_sub("reports", &params.id, page), out_key, keys.as_slice(), &params.list, stage)
}

/// The `openvas_get_report_results` call: the individual findings inside
/// one report (GMP filters like `severity>7` apply).
pub fn get_report_results(params: &ReportPageParams) -> (c: ToolCall)
    ensures
        c.spec() == report_page_spec(*params, "results"@, "results"@, result_row_keys(), "listing report results"@),
{
    report_page(params, "results", "results", result_row_key_list(), "listing report results")
}

/// The `openvas_get_report_vulnerabilities` call: the aggregated findings
/// page of one report.
pub fn get_report_vulnerabilities(params: &ReportPageParams) -> (c: ToolCall)
    ensures
        c.spec() == report_page_spec(
            *params,
            "vulnerabilities"@,
            "vulnerabilities"@,
            result_row_keys(),
            "listing report vulnerabilities"@,
        ),
{
    report_page(params, "vulnerabilities", "vulnerabilities", result_row_key_list(), "listing report vulnerabilities")
}

/// The `openvas_get_report_errors` call: scan errors recorded in one report
/// (NVTs that failed to run).
pub fn get_report_errors(params: &ReportPageParams) -> (c: ToolCall)
    ensures
        c.spec() == report_page_spec(*params, "errors"@, "errors"@, result_row_keys(), "listing report errors"@),
{
    report_page(params, "errors", "errors", result_row_key_list(), "listing report errors")
}

/// The `openvas_get_report_closed_cves` call: CVEs no longer detected
/// according to one report.
pub fn get_report_closed_cves(params: &ReportPageParams) -> (c: ToolCall)
    ensures
        c.spec() == report_page_spec(
            *params,
            "closed-cves"@,
            "closedCves"@,
            result_row_keys(),
            "listing report closed CVEs"@,
        ),
{
    report_page(params, "closed-cves", "closedCves", result_row_key_list(), "listing report closed CVEs")
}

/// The `openvas_get_report_tls_certificates` call: TLS certificates found
/// during the scan behind one report.
pub fn get_report_tls_certificates(params: &ReportPageParams) -> (c: ToolCall)
    ensures
        c.spec() == report_page_spec(
            *params,
            "tls-certificates"@,
            "tlsCertificates"@,
            tls_row_keys(),
            "listing report TLS certificates"@,
        ),
{
    report_page(params, "tls-certificates", "tlsCertificates", tls_row_key_list(), "listing report TLS certificates")
}

/// Arguments for `openvas_export_report`.
#[derive(Debug)]
pub struct ExportReportParams {
    /// Report UUID
    pub id: String,
    /// UUID of a gvmd report format (see openvas_list_report_formats).
    /// Omit to request the gateway's native JSON export.
    pub report_format_id: Option<String>,
    /// Optional GMP filter expression applied during generation
    pub filter: Option<String>,
    /// Optional saved filter UUID applied during generation
    pub filter_id: Option<String>,
}

/// The export request body: the report format when one was named, the
/// native JSON format otherwise, then the optional filters.
pub open spec fn export_report_body(p: ExportReportParams) -> Seq<(Seq<char>, Json)> {
    (match p.report_format_id {
        Some(f) => Seq::empty() + seq![("reportFormatId"@, Json::Str(f@))],
        None => Seq::empty() + seq![("format"@, Json::Str("json"@))],
    }) + opt_field("filter"@, opt_str_json(p.filter)) + opt_field("filterId"@, opt_str_json(p.filter_id))
}

/// Whatever format an export names, the filters it was given travel with
/// it: the body names the report format when one was given and asks for
/// the native JSON export otherwise, holds the filter expression and the
/// saved filter exactly when they were given, and no key twice.
pub proof fn law_export_report_body(p: ExportReportParams)
    ensures
        Json::Object(export_report_body(p)).get("filter"@) == opt_str_json(p.filter),
        Json::Object(export_report_body(p)).get("filterId"@) == opt_str_json(p.filter_id),
        Json::Object(export_report_body(p)).get("reportFormatId"@) == opt_str_json(p.report_format_id),
        Json::Object(export_report_body(p)).get("format"@) == (if p.report_format_id is None {
            Some(Json::Str("json"@))
        } else {
            None
        }),
        keys_unique(Json::Object(export_report_body(p))),
        forall|key: Seq<char>| #[trigger] key_count(export_report_body(p), key) > 0 ==> (key == "reportFormatId"@ || key == "format"@ || key == "filter"@ || key == "filterId"@),
{
    lemma_entries_algebra();
    lemma_opt_field_algebra();
    reveal_strlit("filter");
    assert("filter"@.len() == 6);
    reveal_strlit("filterId");
    assert("filterId"@.len() == 8);
    reveal_strlit("reportFormatId");
    assert("reportFormatId"@.len() == 14);
    reveal_strlit("format");
    assert("format"@.len() == 6);
    assert("filter"@[1] != "format"@[1]);
}

/// The `openvas_export_report` call: `POST /reports/<id>/exports` starts an
/// asynchronous export; the job (usually `queued`) is passed through.
pub fn export_report(params: ExportReportParams) -> (c: ToolCall)
    ensures
        c.spec() == api_call(
            HttpMethod::Post,
            seq!["reports"@, params.id@, "exports"@],
            Seq::empty(),
            Some(Json::Object(export_report_body(params))),
            ReplySpec::Passthrough,
            "starting the report export"@,
        ),
{
    let start = match params.report_format_id {
        Some(format_id) => Body::new().set("reportFormatId", JsonValue::Str(format_id)),
        None => Body::new().set("format", JsonValue::Str(owned("json"))),
    };
    let body = start.set_opt("filter", opt_string(params.filter)).set_opt("filterId", opt_string(params.filter_id));
    api_tool_call(
        HttpMethod::Post,
        resource_id_sub("reports", &params.id, "exports"),
        Some(body.into_value()),
        Reply::Passthrough,
        "starting the report export",
    )
}

/// The `openvas_get_job` call: the status of an asynchronous job, passed
/// through.
pub fn get_job(params: &GetByIdParams) -> (c: ToolCall)
    ensures
        c.spec() == get_call_spec(seq!["jobs"@, params.id@], "fetching the job"@),
{
    get_by_id_call("jobs", params, "fetching the job")
}

/// The `openvas_cancel_job` call: `DELETE /jobs/<id>`, acknowledged as
/// `{"cancelled": true, "id": <id>}`.
pub fn cancel_job(params: &GetByIdParams) -> (c: ToolCall)
    ensures
        c.spec() == api_call(
            HttpMethod::Delete,
            seq!["jobs"@, params.id@],
            Seq::empty(),
            None,
            ReplySpec::Acknowledge { flag: "cancelled"@, id: params.id@ },
            "cancelling the job"@,
        ),
{
    api_tool_call(
        HttpMethod::Delete,
        resource_id("jobs", &params.id),
        None,
        Reply::Acknowledge { flag: owned("cancelled"), id: params.id.clone() },
        "cancelling the job",
    )
}

/// The `openvas_download_job_result` call: `GET /jobs/<id>/result`, the
/// artifact's raw bytes with their content type and file name.
pub fn download_job_result(params: &GetByIdParams) -> (c: ToolCall)
    ensures
        c.spec() == api_call(
            HttpMethod::Get,
            seq!["jobs"@, params.id@, "result"@],
            Seq::empty(),
            None,
            ReplySpec::Artifact,
            "downloading the job result"@,
        ),
{
    api_tool_call(HttpMethod::Get, resource_id_sub("jobs", &params.id, "result"), None, Reply::Artifact, "downloading the job result")
}

/// Inline artifacts above this size are refused; ask for a JSON export or a
/// narrower filter instead. Keeps tool output within an LLM-usable budget.
pub const MAX_INLINE_ARTIFACT_BYTES: usize = 3 * 1024 * 1024;

/// The artifact is JSON: its content type starts with `application/json`.
pub open spec fn is_json_content(content_type: Option<String>) -> bool {
    match content_type {
        Some(ct) => has_prefix(ct@, "application/json"@),
        None => false,
    }
}

/// The content type as shown in messages.
pub open spec fn content_type_text(content_type: Option<String>) -> Seq<char> {
    match content_type {
        Some(ct) => ct@,
        None => "unknown content type"@,
    }
}

/// The refusal of an artifact over the inline limit.
pub open spec fn too_large_message(size: nat, content_type: Option<String>) -> Seq<char> {
    "Artifact is "@ + decimal(size) + " bytes ("@ + content_type_text(content_type)
        + "), larger than the "@ + decimal(MAX_INLINE_ARTIFACT_BYTES as nat)
        + " byte inline limit. Export with a narrower filter, or use the JSON format and page through the results instead."@
}

/// An optional string as JSON, `null` when absent.
pub open spec fn nullable_str(o: Option<String>) -> Json {
    match o {
        Some(s) => Json::Str(s@),
        None => Json::Null,
    }
}

/// The envelope of a binary artifact: content type, file name, size and the
/// base64 of the bytes.
pub open spec fn artifact_json(bytes: Seq<u8>, content_type: Option<String>, filename: Option<String>) -> Json {
    Json::Object(
        seq![
            ("contentType"@, nullable_str(content_type)),
            ("filename"@, nullable_str(filename)),
            ("size"@, Json::Number(decimal(bytes.len()))),
            ("base64"@, Json::Str(base64_standard(bytes))),
        ],
    )
}

/// What `openvas_download_job_result` returns for a downloaded artifact:
/// JSON exports inline as text; other formats base64-encoded in an envelope
/// up to the inline limit, refused above it.
pub open spec fn artifact_output_spec(bytes: Seq<u8>, content_type: Option<String>, filename: Option<String>) -> OutputSpec {
    if is_json_content(content_type) {
        OutputSpec::Text(utf8_lossy_text(bytes))
    } else if bytes.len() > MAX_INLINE_ARTIFACT_BYTES {
        OutputSpec::Error(too_large_message(bytes.len(), content_type))
    } else {
        OutputSpec::Json(artifact_json(bytes, content_type, filename))
    }
}

fn nullable(o: Option<String>) -> (r: JsonValue)
    ensures
        r.model() == nullable_str(o),
{
    match o {
        Some(s) => JsonValue::Str(s),
        None => JsonValue::Null,
    }
}

/// Render a downloaded artifact (its bytes, `Content-Type` and file name).
pub fn artifact_output(bytes: Vec<u8>, content_type: Option<String>, filename: Option<String>) -> (r: ToolOutput)
    ensures
        r.model() == artifact_output_spec(bytes@, content_type, filename),
{
    let is_json = match &content_type {
        Some(ct) => starts_with(ct.as_str(), "application/json"),
        None => false,
    };
    if is_json {
        return ToolOutput::Text(utf8_lossy(bytes.as_slice()));
    }
    let size: usize = bytes.len();
    if size > MAX_INLINE_ARTIFACT_BYTES {
        let shown = match &content_type {
            Some(ct) => owned(ct.as_str()),
            None => owned("unknown content type"),
        };
        let mut m = String::new();
        m.append("Artifact is ");
        m.append(u64_to_decimal(size as u64).as_str());
        m.append(" bytes (");
        m.append(shown.as_str());
        m.append("), larger than the ");
        m.append(u64_to_decimal(MAX_INLINE_ARTIFACT_BYTES as u64).as_str());
        m.append(
            " byte inline limit. Export with a narrower filter, or use the JSON format and page through the results instead.",
        );
        assert(m@ =~= too_large_message(bytes@.len(), content_type));
        return ToolOutput::Error(m);
    }
    let encoded = base64_encode(bytes.as_slice());
    let mut out: Vec<(String, JsonValue)> = Vec::new();
    out.push((owned("contentType"), nullable(content_type)));
    out.push((owned("filename"), nullable(filename)));
    out.push((owned("size"), JsonValue::Number(u64_to_decimal(size as u64))));
    out.push((owned("base64"), JsonValue::Str(encoded)));
    proof {
        crate::json::lemma_entry_models(out@);
        assert(crate::json::entry_models(out@) =~= seq![
            ("contentType"@, nullable_str(content_type)),
            ("filename"@, nullable_str(filename)),
            ("size"@, Json::Number(decimal(bytes@.len()))),
            ("base64"@, Json::Str(base64_standard(bytes@))),
        ]);
    }
    ToolOutput::Json(JsonValue::Object(out))
}

/// A downloaded artifact whose content type starts with `application/json`
/// comes back inline as its text, at any size; any other artifact of at
/// most 3 MiB comes back as an envelope holding its content type, file
/// name, byte count and the standard base64 of its bytes; a larger one is
/// refused with a tool error.
pub proof fn law_artifact_output(bytes: Seq<u8>, content_type: Option<String>, filename: Option<String>)
    ensures
        (content_type matches Some(ct) && has_prefix(ct@, "application/json"@)) ==> artifact_output_spec(
            bytes,
            content_type,
            filename,
        ) == OutputSpec::Text(utf8_lossy_text(bytes)),
        !(content_type matches Some(ct) && has_prefix(ct@, "application/json"@)) && bytes.len() <= 3145728
            ==> (artifact_output_spec(bytes, content_type, filename) matches OutputSpec::Json(j) && {
            &&& j.get("base64"@) == Some(Json::Str(base64_standard(bytes)))
            &&& j.get("size"@) == Some(Json::Number(decimal(bytes.len())))
            &&& j.get("contentType"@) == Some(match content_type {
                Some(ct) => Json::Str(ct@),
                None => Json::Null,
            })
            &&& j.get("filename"@) == Some(match filename {
                Some(f) => Json::Str(f@),
                None => Json::Null,
            })
        }),
        !(content_type matches Some(ct) && has_prefix(ct@, "application/json"@)) && bytes.len() > 3145728
            ==> artifact_output_spec(bytes, content_type, filename) is Error,
{
    reveal_with_fuel(crate::json::lookup, 5);
    reveal_strlit("base64");
    assert("base64"@.len() == 6);
    reveal_strlit("size");
    assert("size"@.len() == 4);
    reveal_strlit("contentType");
    assert("contentType"@.len() == 11);
    reveal_strlit("filename");
    assert("filename"@.len() == 8);
}

} // verus!
