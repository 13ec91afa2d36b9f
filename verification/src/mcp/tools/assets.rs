//! Assets toolset: host assets discovered by scans.

use vstd::prelude::*;
use crate::json::{str_views};
use super::common::{
    get_by_id_call, get_call_spec, list_call, list_call_spec, GetByIdParams, ListParams, ToolCall,
};

verus! {

/// Row keys kept by `openvas_list_asset_hosts`.
pub open spec fn list_asset_hosts_keys() -> Seq<Seq<char>> {
    seq!["id"@, "name"@, "ip"@, "hostname"@, "severity"@, "os"@]
}

fn list_asset_hosts_key_list() -> (r: Vec<&'static str>)
    ensures
        str_views(r@) == list_asset_hosts_keys(),
{
    let r: Vec<&'static str> = vec!["id", "name", "ip", "hostname", "severity", "os"];
    assert(str_views(r@) =~= list_asset_hosts_keys());
    r
}

/// The `openvas_list_asset_hosts` call: `GET /hosts` with the list query, each row summarized to
/// its key fields, pagination kept.
pub fn list_asset_hosts(params: &ListParams) -> (c: ToolCall)
    ensures
        c.spec() == list_call_spec("hosts"@, "hosts"@, list_asset_hosts_keys(), params.query_spec(), "listing host assets"@),
{
    let keys = list_asset_hosts_key_list();
    list_call("hosts", "hosts", keys.as_slice(), params, "listing host assets")
}

/// The `openvas_get_asset_host` call: `GET /hosts/<id>`, the gateway's JSON passed through.
pub fn get_asset_host(params: &GetByIdParams) -> (c: ToolCall)
    ensures
        c.spec() == get_call_spec(seq!["hosts"@, params.id@], "fetching the host asset"@),
{
    get_by_id_call("hosts", params, "fetching the host asset")
}

} // verus!
