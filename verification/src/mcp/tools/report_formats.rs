//! Report-formats toolset: read surface.

use vstd::prelude::*;
use crate::json::{str_views};
use super::common::{
    get_by_id_call, get_call_spec, list_call, list_call_spec, GetByIdParams, ListParams, ToolCall,
};

verus! {

/// Row keys kept by `openvas_list_report_formats`.
pub open spec fn list_report_formats_keys() -> Seq<Seq<char>> {
    seq!["id"@, "name"@, "contentType"@, "extension"@, "active"@, "predefined"@]
}

fn list_report_formats_key_list() -> (r: Vec<&'static str>)
    ensures
        str_views(r@) == list_report_formats_keys(),
{
    let r: Vec<&'static str> = vec!["id", "name", "contentType", "extension", "active", "predefined"];
    assert(str_views(r@) =~= list_report_formats_keys());
    r
}

/// The `openvas_list_report_formats` call: `GET /report-formats` with the list query, each row summarized to
/// its key fields, pagination kept.
pub fn list_report_formats(params: &ListParams) -> (c: ToolCall)
    ensures
        c.spec() == list_call_spec("report-formats"@, "reportFormats"@, list_report_formats_keys(), params.query_spec(), "listing report formats"@),
{
    let keys = list_report_formats_key_list();
    list_call("report-formats", "reportFormats", keys.as_slice(), params, "listing report formats")
}

/// The `openvas_get_report_format` call: `GET /report-formats/<id>`, the gateway's JSON passed through.
pub fn get_report_format(params: &GetByIdParams) -> (c: ToolCall)
    ensures
        c.spec() == get_call_spec(seq!["report-formats"@, params.id@], "fetching the report format"@),
{
    get_by_id_call("report-formats", params, "fetching the report format")
}

} // verus!
