//! NVTs toolset: read surface over vulnerability tests and their families.

use vstd::prelude::*;
use crate::json::{str_views};
use super::common::{get_call_spec, list_call, list_call_spec, resource_id, ListParams, ToolCall};
use super::common::{get_call};

verus! {

/// Row keys kept by `openvas_search_nvts`.
pub open spec fn search_nvts_keys() -> Seq<Seq<char>> {
    seq!["oid"@, "name"@, "family"@, "severity"@, "cvssBase"@, "solutionType"@]
}

fn search_nvts_key_list() -> (r: Vec<&'static str>)
    ensures
        str_views(r@) == search_nvts_keys(),
{
    let r: Vec<&'static str> = vec!["oid", "name", "family", "severity", "cvssBase", "solutionType"];
    assert(str_views(r@) =~= search_nvts_keys());
    r
}

/// The `openvas_search_nvts` call: `GET /nvts` with the list query, each row summarized to
/// its key fields, pagination kept.
pub fn search_nvts(params: &ListParams) -> (c: ToolCall)
    ensures
        c.spec() == list_call_spec("nvts"@, "nvts"@, search_nvts_keys(), params.query_spec(), "searching NVTs"@),
{
    let keys = search_nvts_key_list();
    list_call("nvts", "nvts", keys.as_slice(), params, "searching NVTs")
}

/// Row keys kept by `openvas_list_nvt_families`.
pub open spec fn list_nvt_families_keys() -> Seq<Seq<char>> {
    seq!["name"@, "maxNvtCount"@]
}

fn list_nvt_families_key_list() -> (r: Vec<&'static str>)
    ensures
        str_views(r@) == list_nvt_families_keys(),
{
    let r: Vec<&'static str> = vec!["name", "maxNvtCount"];
    assert(str_views(r@) =~= list_nvt_families_keys());
    r
}

/// The `openvas_list_nvt_families` call: `GET /nvt-families` with the list query, each row summarized to
/// its key fields, pagination kept.
pub fn list_nvt_families(params: &ListParams) -> (c: ToolCall)
    ensures
        c.spec() == list_call_spec("nvt-families"@, "families"@, list_nvt_families_keys(), params.query_spec(), "listing NVT families"@),
{
    let keys = list_nvt_families_key_list();
    list_call("nvt-families", "families", keys.as_slice(), params, "listing NVT families")
}

/// Arguments for `openvas_get_nvt` (NVTs are addressed by OID, not UUID).
#[derive(Debug)]
pub struct GetNvtParams {
    /// NVT OID, e.g. `1.3.6.1.4.1.25623.1.0.100315`
    pub oid: String,
}

/// The `openvas_get_nvt` call: `GET /nvts/<oid>`, including tags and
/// solution details, passed through.
pub fn get_nvt(params: &GetNvtParams) -> (c: ToolCall)
    ensures
        c.spec() == get_call_spec(seq!["nvts"@, params.oid@], "fetching the NVT"@),
{
    get_call(resource_id("nvts", &params.oid), "fetching the NVT")
}

} // verus!
