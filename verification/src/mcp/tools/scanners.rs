//! Scanners toolset: read surface.

use vstd::prelude::*;
use crate::json::{str_views};
use super::common::{
    get_by_id_call, get_call_spec, list_call, list_call_spec, GetByIdParams, ListParams, ToolCall,
};

verus! {

/// Row keys kept by `openvas_list_scanners`.
pub open spec fn list_scanners_keys() -> Seq<Seq<char>> {
    seq!["id"@, "name"@, "host"@, "port"@, "type"@]
}

fn list_scanners_key_list() -> (r: Vec<&'static str>)
    ensures
        str_views(r@) == list_scanners_keys(),
{
    let r: Vec<&'static str> = vec!["id", "name", "host", "port", "type"];
    assert(str_views(r@) =~= list_scanners_keys());
    r
}

/// The `openvas_list_scanners` call: `GET /scanners` with the list query, each row summarized to
/// its key fields, pagination kept.
pub fn list_scanners(params: &ListParams) -> (c: ToolCall)
    ensures
        c.spec() == list_call_spec("scanners"@, "scanners"@, list_scanners_keys(), params.query_spec(), "listing scanners"@),
{
    let keys = list_scanners_key_list();
    list_call("scanners", "scanners", keys.as_slice(), params, "listing scanners")
}

/// The `openvas_get_scanner` call: `GET /scanners/<id>`, the gateway's JSON passed through.
pub fn get_scanner(params: &GetByIdParams) -> (c: ToolCall)
    ensures
        c.spec() == get_call_spec(seq!["scanners"@, params.id@], "fetching the scanner"@),
{
    get_by_id_call("scanners", params, "fetching the scanner")
}

} // verus!
