//! Results toolset: read surface over individual scan findings.

use vstd::prelude::*;
use crate::json::{str_views};
use super::common::{
    get_by_id_call, get_call_spec, list_call, list_call_spec, GetByIdParams, ListParams, ToolCall,
};

verus! {

/// Row keys kept by `openvas_list_results`.
pub open spec fn list_results_keys() -> Seq<Seq<char>> {
    seq!["id"@, "name"@, "host"@, "port"@, "severity"@, "threat"@, "occurrences"@]
}

fn list_results_key_list() -> (r: Vec<&'static str>)
    ensures
        str_views(r@) == list_results_keys(),
{
    let r: Vec<&'static str> = vec!["id", "name", "host", "port", "severity", "threat", "occurrences"];
    assert(str_views(r@) =~= list_results_keys());
    r
}

/// The `openvas_list_results` call: `GET /results` with the list query, each row summarized to
/// its key fields, pagination kept.
pub fn list_results(params: &ListParams) -> (c: ToolCall)
    ensures
        c.spec() == list_call_spec("results"@, "results"@, list_results_keys(), params.query_spec(), "listing results"@),
{
    let keys = list_results_key_list();
    list_call("results", "results", keys.as_slice(), params, "listing results")
}

/// The `openvas_get_result` call: `GET /results/<id>`, the gateway's JSON passed through.
pub fn get_result(params: &GetByIdParams) -> (c: ToolCall)
    ensures
        c.spec() == get_call_spec(seq!["results"@, params.id@], "fetching the result"@),
{
    get_by_id_call("results", params, "fetching the result")
}

} // verus!
