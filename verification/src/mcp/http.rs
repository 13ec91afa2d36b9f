//! Streamable-HTTP transport settings: the `Host` header guard.
//!
//! `allowed_hosts` guards against DNS-rebinding: requests whose `Host`
//! header is not listed are rejected. The single entry `"*"` disables the
//! check (only sensible behind a reverse proxy that validates Host itself).

use vstd::prelude::*;
use crate::mcp::tools::common::owned_views;
use crate::text::str_equal;

verus! {

/// How the transport checks the `Host` header.
#[derive(Debug)]
pub enum HostGuard {
    /// No check (an entry is `*`).
    Disabled,
    /// Only these hosts are accepted.
    Allow(Vec<String>),
    /// The transport's own default list applies (nothing was configured).
    Default,
}

/// The guard for the configured hosts: disabled when any entry is `*`,
/// otherwise exactly the listed hosts, or the transport default when the
/// list is empty.
pub open spec fn host_guard_spec(hosts: Seq<Seq<char>>) -> Option<Option<Seq<Seq<char>>>> {
    if hosts.contains("*"@) {
        None
    } else if hosts.len() > 0 {
        Some(Some(hosts))
    } else {
        Some(None)
    }
}

/// The `Host` guard for the configured allowed hosts.
pub fn host_guard(allowed_hosts: &Vec<String>) -> (r: HostGuard)
    ensures
        match host_guard_spec(owned_views(allowed_hosts@)) {
            None => r is Disabled,
            Some(Some(hosts)) => r matches HostGuard::Allow(v) && owned_views(v@) == hosts,
            Some(None) => r is Default,
        },
{
    let mut i: usize = 0;
    while i < allowed_hosts.len()
        invariant
            i <= allowed_hosts@.len(),
            forall|j: int| 0 <= j < i ==> allowed_hosts@[j]@ != "*"@,
        decreases allowed_hosts@.len() - i,
    {
        if str_equal(allowed_hosts[i].as_str(), "*") {
            assert(owned_views(allowed_hosts@)[i as int] == "*"@);
            return HostGuard::Disabled;
        }
        i = i + 1;
    }
    assert(!owned_views(allowed_hosts@).contains("*"@)) by {
        if owned_views(allowed_hosts@).contains("*"@) {
            let j = choose|j: int| 0 <= j < owned_views(allowed_hosts@).len() && owned_views(allowed_hosts@)[j] == "*"@;
            assert(allowed_hosts@[j]@ == "*"@);
        }
    }
    if allowed_hosts.len() > 0 {
        HostGuard::Allow(allowed_hosts.clone())
    } else {
        HostGuard::Default
    }
}

} // verus!
