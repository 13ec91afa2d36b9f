//! Filters toolset: read surface over saved GMP filters.

use vstd::prelude::*;
use crate::json::{str_views};
use super::common::{
    get_by_id_call, get_call_spec, list_call, list_call_spec, GetByIdParams, ListParams, ToolCall,
};

verus! {

/// Row keys kept by `openvas_list_filters`.
pub open spec fn list_filters_keys() -> Seq<Seq<char>> {
    seq!["id"@, "name"@, "type"@, "term"@]
}

fn list_filters_key_list() -> (r: Vec<&'static str>)
    ensures
        str_views(r@) == list_filters_keys(),
{
    let r: Vec<&'static str> = vec!["id", "name", "type", "term"];
    assert(str_views(r@) =~= list_filters_keys());
    r
}

/// The `openvas_list_filters` call: `GET /filters` with the list query, each row summarized to
/// its key fields, pagination kept.
pub fn list_filters(params: &ListParams) -> (c: ToolCall)
    ensures
        c.spec() == list_call_spec("filters"@, "filters"@, list_filters_keys(), params.query_spec(), "listing filters"@),
{
    let keys = list_filters_key_list();
    list_call("filters", "filters", keys.as_slice(), params, "listing filters")
}

/// The `openvas_get_filter` call: `GET /filters/<id>`, the gateway's JSON passed through.
pub fn get_filter(params: &GetByIdParams) -> (c: ToolCall)
    ensures
        c.spec() == get_call_spec(seq!["filters"@, params.id@], "fetching the filter"@),
{
    get_by_id_call("filters", params, "fetching the filter")
}

} // verus!
