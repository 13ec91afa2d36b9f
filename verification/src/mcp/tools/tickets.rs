//! Tickets toolset: the ticket listing (ticket writes are not served by the
//! gateway yet).

use vstd::prelude::*;
use crate::json::{str_views};
use super::common::{list_call, list_call_spec, ListParams, ToolCall};

verus! {

/// Row keys kept by `openvas_list_tickets`.
pub open spec fn list_tickets_keys() -> Seq<Seq<char>> {
    seq!["id"@, "name"@, "status"@, "assignedTo"@, "task"@]
}

fn list_tickets_key_list() -> (r: Vec<&'static str>)
    ensures
        str_views(r@) == list_tickets_keys(),
{
    let r: Vec<&'static str> = vec!["id", "name", "status", "assignedTo", "task"];
    assert(str_views(r@) =~= list_tickets_keys());
    r
}

/// The `openvas_list_tickets` call: `GET /tickets` with the list query, each row summarized to
/// its key fields, pagination kept.
pub fn list_tickets(params: &ListParams) -> (c: ToolCall)
    ensures
        c.spec() == list_call_spec("tickets"@, "tickets"@, list_tickets_keys(), params.query_spec(), "listing tickets"@),
{
    let keys = list_tickets_key_list();
    list_call("tickets", "tickets", keys.as_slice(), params, "listing tickets")
}

} // verus!
