//! Feeds toolset: feed status reads.

use vstd::prelude::*;
use crate::json::{str_views};
use super::common::{list_call, list_call_spec, ListParams, ToolCall};

verus! {

/// Row keys kept by `openvas_list_feeds`.
pub open spec fn list_feeds_keys() -> Seq<Seq<char>> {
    seq!["type"@, "name"@, "version"@, "currentlySyncing"@]
}

/// The `openvas_list_feeds` call: the status of all feeds (NVT, CERT, SCAP,
/// GVMD_DATA), including versions and whether a sync is in progress. It
/// takes no arguments and sends no query.
pub fn list_feeds() -> (c: ToolCall)
    ensures
        c.spec() == list_call_spec("feeds"@, "feeds"@, list_feeds_keys(), Seq::empty(), "listing feeds"@),
{
    let keys: Vec<&'static str> = vec!["type", "name", "version", "currentlySyncing"];
    assert(str_views(keys@) =~= list_feeds_keys());
    let params = ListParams::default();
    let c = list_call("feeds", "feeds", keys.as_slice(), &params, "listing feeds");
    assert(params.query_spec() =~= Seq::<(Seq<char>, Seq<char>)>::empty());
    c
}

} // verus!
