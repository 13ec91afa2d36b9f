//! Tags toolset: read surface.

use vstd::prelude::*;
use crate::json::{str_views};
use super::common::{
    get_by_id_call, get_call_spec, list_call, list_call_spec, GetByIdParams, ListParams, ToolCall,
};

verus! {

/// Row keys kept by `openvas_list_tags`.
pub open spec fn list_tags_keys() -> Seq<Seq<char>> {
    seq!["id"@, "name"@, "value"@, "resourceType"@, "resourceCount"@, "active"@]
}

fn list_tags_key_list() -> (r: Vec<&'static str>)
    ensures
        str_views(r@) == list_tags_keys(),
{
    let r: Vec<&'static str> = vec!["id", "name", "value", "resourceType", "resourceCount", "active"];
    assert(str_views(r@) =~= list_tags_keys());
    r
}

/// The `openvas_list_tags` call: `GET /tags` with the list query, each row summarized to
/// its key fields, pagination kept.
pub fn list_tags(params: &ListParams) -> (c: ToolCall)
    ensures
        c.spec() == list_call_spec("tags"@, "tags"@, list_tags_keys(), params.query_spec(), "listing tags"@),
{
    let keys = list_tags_key_list();
    list_call("tags", "tags", keys.as_slice(), params, "listing tags")
}

/// The `openvas_get_tag` call: `GET /tags/<id>`, the gateway's JSON passed through.
pub fn get_tag(params: &GetByIdParams) -> (c: ToolCall)
    ensures
        c.spec() == get_call_spec(seq!["tags"@, params.id@], "fetching the tag"@),
{
    get_by_id_call("tags", params, "fetching the tag")
}

} // verus!
