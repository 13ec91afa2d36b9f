//! The tool catalog: every tool the server offers, the toolset it belongs
//! to and whether it only reads, and which of them an instance exposes for
//! its toolset selection and read-only mode.

use vstd::prelude::*;
use crate::json::str_views;
use crate::text::has_prefix;
use crate::mcp::toolset::{default_set, law_default_selection_excludes_identity, law_system_always_enabled, selection_spec, Toolset, ToolsetSelection};

verus! {

/// One tool: its MCP name, its toolset, and whether it only reads (the MCP
/// `readOnlyHint`).
#[derive(Debug, Clone, Copy)]
pub struct ToolEntry {
    pub name: &'static str,
    pub toolset: Toolset,
    pub read_only: bool,
}

/// The mathematical form of a catalog entry.
pub open spec fn entry_view(e: ToolEntry) -> (Seq<char>, Toolset, bool) {
    (e.name@, e.toolset, e.read_only)
}

/// The mathematical form of catalog entries.
pub open spec fn entry_views(v: Seq<ToolEntry>) -> Seq<(Seq<char>, Toolset, bool)> {
    v.map_values(|e: ToolEntry| entry_view(e))
}

/// Every tool, sorted by name.
pub open spec fn catalog_spec() -> Seq<(Seq<char>, Toolset, bool)> {
    seq![
        ("openvas_cancel_job"@, Toolset::Reports, false),
        ("openvas_create_alert"@, Toolset::Alerts, false),
        ("openvas_create_credential"@, Toolset::Credentials, false),
        ("openvas_create_group"@, Toolset::Identity, false),
        ("openvas_create_note"@, Toolset::Notes, false),
        ("openvas_create_override"@, Toolset::Overrides, false),
        ("openvas_create_permission"@, Toolset::Identity, false),
        ("openvas_create_port_list"@, Toolset::PortLists, false),
        ("openvas_create_role"@, Toolset::Identity, false),
        ("openvas_create_scan_config"@, Toolset::ScanConfigs, false),
        ("openvas_create_schedule"@, Toolset::Schedules, false),
        ("openvas_create_target"@, Toolset::Targets, false),
        ("openvas_create_task"@, Toolset::Tasks, false),
        ("openvas_create_user"@, Toolset::Identity, false),
        ("openvas_delete_alert"@, Toolset::Alerts, false),
        ("openvas_delete_credential"@, Toolset::Credentials, false),
        ("openvas_delete_group"@, Toolset::Identity, false),
        ("openvas_delete_note"@, Toolset::Notes, false),
        ("openvas_delete_override"@, Toolset::Overrides, false),
        ("openvas_delete_permission"@, Toolset::Identity, false),
        ("openvas_delete_port_list"@, Toolset::PortLists, false),
        ("openvas_delete_report"@, Toolset::Reports, false),
        ("openvas_delete_role"@, Toolset::Identity, false),
        ("openvas_delete_scan_config"@, Toolset::ScanConfigs, false),
        ("openvas_delete_schedule"@, Toolset::Schedules, false),
        ("openvas_delete_target"@, Toolset::Targets, false),
        ("openvas_delete_task"@, Toolset::Tasks, false),
        ("openvas_delete_user"@, Toolset::Identity, false),
        ("openvas_download_job_result"@, Toolset::Reports, true),
        ("openvas_export_report"@, Toolset::Reports, true),
        ("openvas_get_alert"@, Toolset::Alerts, true),
        ("openvas_get_asset_host"@, Toolset::Assets, true),
        ("openvas_get_credential"@, Toolset::Credentials, true),
        ("openvas_get_filter"@, Toolset::Filters, true),
        ("openvas_get_group"@, Toolset::Identity, true),
        ("openvas_get_job"@, Toolset::Reports, true),
        ("openvas_get_note"@, Toolset::Notes, true),
        ("openvas_get_nvt"@, Toolset::Nvts, true),
        ("openvas_get_override"@, Toolset::Overrides, true),
        ("openvas_get_permission"@, Toolset::Identity, true),
        ("openvas_get_port_list"@, Toolset::PortLists, true),
        ("openvas_get_report"@, Toolset::Reports, true),
        ("openvas_get_report_closed_cves"@, Toolset::Reports, true),
        ("openvas_get_report_errors"@, Toolset::Reports, true),
        ("openvas_get_report_format"@, Toolset::ReportFormats, true),
        ("openvas_get_report_results"@, Toolset::Reports, true),
        ("openvas_get_report_tls_certificates"@, Toolset::Reports, true),
        ("openvas_get_report_vulnerabilities"@, Toolset::Reports, true),
        ("openvas_get_result"@, Toolset::Results, true),
        ("openvas_get_role"@, Toolset::Identity, true),
        ("openvas_get_scan_config"@, Toolset::ScanConfigs, true),
        ("openvas_get_scanner"@, Toolset::Scanners, true),
        ("openvas_get_schedule"@, Toolset::Schedules, true),
        ("openvas_get_tag"@, Toolset::Tags, true),
        ("openvas_get_target"@, Toolset::Targets, true),
        ("openvas_get_task"@, Toolset::Tasks, true),
        ("openvas_get_user"@, Toolset::Identity, true),
        ("openvas_get_user_setting"@, Toolset::Identity, true),
        ("openvas_get_version"@, Toolset::System, true),
        ("openvas_list_alerts"@, Toolset::Alerts, true),
        ("openvas_list_asset_hosts"@, Toolset::Assets, true),
        ("openvas_list_credential_stores"@, Toolset::Credentials, true),
        ("openvas_list_credentials"@, Toolset::Credentials, true),
        ("openvas_list_feeds"@, Toolset::Feeds, true),
        ("openvas_list_filters"@, Toolset::Filters, true),
        ("openvas_list_groups"@, Toolset::Identity, true),
        ("openvas_list_notes"@, Toolset::Notes, true),
        ("openvas_list_nvt_families"@, Toolset::Nvts, true),
        ("openvas_list_overrides"@, Toolset::Overrides, true),
        ("openvas_list_permissions"@, Toolset::Identity, true),
        ("openvas_list_port_lists"@, Toolset::PortLists, true),
        ("openvas_list_report_formats"@, Toolset::ReportFormats, true),
        ("openvas_list_reports"@, Toolset::Reports, true),
        ("openvas_list_results"@, Toolset::Results, true),
        ("openvas_list_roles"@, Toolset::Identity, true),
        ("openvas_list_scan_configs"@, Toolset::ScanConfigs, true),
        ("openvas_list_scanners"@, Toolset::Scanners, true),
        ("openvas_list_schedules"@, Toolset::Schedules, true),
        ("openvas_list_tags"@, Toolset::Tags, true),
        ("openvas_list_targets"@, Toolset::Targets, true),
        ("openvas_list_tasks"@, Toolset::Tasks, true),
        ("openvas_list_tickets"@, Toolset::Tickets, true),
        ("openvas_list_user_settings"@, Toolset::Identity, true),
        ("openvas_list_users"@, Toolset::Identity, true),
        ("openvas_resume_task"@, Toolset::Tasks, false),
        ("openvas_search_nvts"@, Toolset::Nvts, true),
        ("openvas_start_task"@, Toolset::Tasks, false),
        ("openvas_stop_task"@, Toolset::Tasks, false),
        ("openvas_test_connection"@, Toolset::System, true),
        ("openvas_update_alert"@, Toolset::Alerts, false),
        ("openvas_update_credential"@, Toolset::Credentials, false),
        ("openvas_update_group"@, Toolset::Identity, false),
        ("openvas_update_note"@, Toolset::Notes, false),
        ("openvas_update_override"@, Toolset::Overrides, false),
        ("openvas_update_permission"@, Toolset::Identity, false),
        ("openvas_update_port_list"@, Toolset::PortLists, false),
        ("openvas_update_role"@, Toolset::Identity, false),
        ("openvas_update_scan_config"@, Toolset::ScanConfigs, false),
        ("openvas_update_schedule"@, Toolset::Schedules, false),
        ("openvas_update_target"@, Toolset::Targets, false),
        ("openvas_update_task"@, Toolset::Tasks, false),
        ("openvas_update_user"@, Toolset::Identity, false),
        ("openvas_update_user_setting"@, Toolset::Identity, false)
    ]
}

/// Every tool, sorted by name.
pub fn catalog() -> (r: Vec<ToolEntry>)
    ensures
        entry_views(r@) == catalog_spec(),
{
    let r: Vec<ToolEntry> = vec![
        ToolEntry { name: "openvas_cancel_job", toolset: Toolset::Reports, read_only: false },
        ToolEntry { name: "openvas_create_alert", toolset: Toolset::Alerts, read_only: false },
        ToolEntry { name: "openvas_create_credential", toolset: Toolset::Credentials, read_only: false },
        ToolEntry { name: "openvas_create_group", toolset: Toolset::Identity, read_only: false },
        ToolEntry { name: "openvas_create_note", toolset: Toolset::Notes, read_only: false },
        ToolEntry { name: "openvas_create_override", toolset: Toolset::Overrides, read_only: false },
        ToolEntry { name: "openvas_create_permission", toolset: Toolset::Identity, read_only: false },
        ToolEntry { name: "openvas_create_port_list", toolset: Toolset::PortLists, read_only: false },
        ToolEntry { name: "openvas_create_role", toolset: Toolset::Identity, read_only: false },
        ToolEntry { name: "openvas_create_scan_config", toolset: Toolset::ScanConfigs, read_only: false },
        ToolEntry { name: "openvas_create_schedule", toolset: Toolset::Schedules, read_only: false },
        ToolEntry { name: "openvas_create_target", toolset: Toolset::Targets, read_only: false },
        ToolEntry { name: "openvas_create_task", toolset: Toolset::Tasks, read_only: false },
        ToolEntry { name: "openvas_create_user", toolset: Toolset::Identity, read_only: false },
        ToolEntry { name: "openvas_delete_alert", toolset: Toolset::Alerts, read_only: false },
        ToolEntry { name: "openvas_delete_credential", toolset: Toolset::Credentials, read_only: false },
        ToolEntry { name: "openvas_delete_group", toolset: Toolset::Identity, read_only: false },
        ToolEntry { name: "openvas_delete_note", toolset: Toolset::Notes, read_only: false },
        ToolEntry { name: "openvas_delete_override", toolset: Toolset::Overrides, read_only: false },
        ToolEntry { name: "openvas_delete_permission", toolset: Toolset::Identity, read_only: false },
        ToolEntry { name: "openvas_delete_port_list", toolset: Toolset::PortLists, read_only: false },
        ToolEntry { name: "openvas_delete_report", toolset: Toolset::Reports, read_only: false },
        ToolEntry { name: "openvas_delete_role", toolset: Toolset::Identity, read_only: false },
        ToolEntry { name: "openvas_delete_scan_config", toolset: Toolset::ScanConfigs, read_only: false },
        ToolEntry { name: "openvas_delete_schedule", toolset: Toolset::Schedules, read_only: false },
        ToolEntry { name: "openvas_delete_target", toolset: Toolset::Targets, read_only: false },
        ToolEntry { name: "openvas_delete_task", toolset: Toolset::Tasks, read_only: false },
        ToolEntry { name: "openvas_delete_user", toolset: Toolset::Identity, read_only: false },
        ToolEntry { name: "openvas_download_job_result", toolset: Toolset::Reports, read_only: true },
        ToolEntry { name: "openvas_export_report", toolset: Toolset::Reports, read_only: true },
        ToolEntry { name: "openvas_get_alert", toolset: Toolset::Alerts, read_only: true },
        ToolEntry { name: "openvas_get_asset_host", toolset: Toolset::Assets, read_only: true },
        ToolEntry { name: "openvas_get_credential", toolset: Toolset::Credentials, read_only: true },
        ToolEntry { name: "openvas_get_filter", toolset: Toolset::Filters, read_only: true },
        ToolEntry { name: "openvas_get_group", toolset: Toolset::Identity, read_only: true },
        ToolEntry { name: "openvas_get_job", toolset: Toolset::Reports, read_only: true },
        ToolEntry { name: "openvas_get_note", toolset: Toolset::Notes, read_only: true },
        ToolEntry { name: "openvas_get_nvt", toolset: Toolset::Nvts, read_only: true },
        ToolEntry { name: "openvas_get_override", toolset: Toolset::Overrides, read_only: true },
        ToolEntry { name: "openvas_get_permission", toolset: Toolset::Identity, read_only: true },
        ToolEntry { name: "openvas_get_port_list", toolset: Toolset::PortLists, read_only: true },
        ToolEntry { name: "openvas_get_report", toolset: Toolset::Reports, read_only: true },
        ToolEntry { name: "openvas_get_report_closed_cves", toolset: Toolset::Reports, read_only: true },
        ToolEntry { name: "openvas_get_report_errors", toolset: Toolset::Reports, read_only: true },
        ToolEntry { name: "openvas_get_report_format", toolset: Toolset::ReportFormats, read_only: true },
        ToolEntry { name: "openvas_get_report_results", toolset: Toolset::Reports, read_only: true },
        ToolEntry { name: "openvas_get_report_tls_certificates", toolset: Toolset::Reports, read_only: true },
        ToolEntry { name: "openvas_get_report_vulnerabilities", toolset: Toolset::Reports, read_only: true },
        ToolEntry { name: "openvas_get_result", toolset: Toolset::Results, read_only: true },
        ToolEntry { name: "openvas_get_role", toolset: Toolset::Identity, read_only: true },
        ToolEntry { name: "openvas_get_scan_config", toolset: Toolset::ScanConfigs, read_only: true },
        ToolEntry { name: "openvas_get_scanner", toolset: Toolset::Scanners, read_only: true },
        ToolEntry { name: "openvas_get_schedule", toolset: Toolset::Schedules, read_only: true },
        ToolEntry { name: "openvas_get_tag", toolset: Toolset::Tags, read_only: true },
        ToolEntry { name: "openvas_get_target", toolset: Toolset::Targets, read_only: true },
        ToolEntry { name: "openvas_get_task", toolset: Toolset::Tasks, read_only: true },
        ToolEntry { name: "openvas_get_user", toolset: Toolset::Identity, read_only: true },
        ToolEntry { name: "openvas_get_user_setting", toolset: Toolset::Identity, read_only: true },
        ToolEntry { name: "openvas_get_version", toolset: Toolset::System, read_only: true },
        ToolEntry { name: "openvas_list_alerts", toolset: Toolset::Alerts, read_only: true },
        ToolEntry { name: "openvas_list_asset_hosts", toolset: Toolset::Assets, read_only: true },
        ToolEntry { name: "openvas_list_credential_stores", toolset: Toolset::Credentials, read_only: true },
        ToolEntry { name: "openvas_list_credentials", toolset: Toolset::Credentials, read_only: true },
        ToolEntry { name: "openvas_list_feeds", toolset: Toolset::Feeds, read_only: true },
        ToolEntry { name: "openvas_list_filters", toolset: Toolset::Filters, read_only: true },
        ToolEntry { name: "openvas_list_groups", toolset: Toolset::Identity, read_only: true },
        ToolEntry { name: "openvas_list_notes", toolset: Toolset::Notes, read_only: true },
        ToolEntry { name: "openvas_list_nvt_families", toolset: Toolset::Nvts, read_only: true },
        ToolEntry { name: "openvas_list_overrides", toolset: Toolset::Overrides, read_only: true },
        ToolEntry { name: "openvas_list_permissions", toolset: Toolset::Identity, read_only: true },
        ToolEntry { name: "openvas_list_port_lists", toolset: Toolset::PortLists, read_only: true },
        ToolEntry { name: "openvas_list_report_formats", toolset: Toolset::ReportFormats, read_only: true },
        ToolEntry { name: "openvas_list_reports", toolset: Toolset::Reports, read_only: true },
        ToolEntry { name: "openvas_list_results", toolset: Toolset::Results, read_only: true },
        ToolEntry { name: "openvas_list_roles", toolset: Toolset::Identity, read_only: true },
        ToolEntry { name: "openvas_list_scan_configs", toolset: Toolset::ScanConfigs, read_only: true },
        ToolEntry { name: "openvas_list_scanners", toolset: Toolset::Scanners, read_only: true },
        ToolEntry { name: "openvas_list_schedules", toolset: Toolset::Schedules, read_only: true },
        ToolEntry { name: "openvas_list_tags", toolset: Toolset::Tags, read_only: true },
        ToolEntry { name: "openvas_list_targets", toolset: Toolset::Targets, read_only: true },
        ToolEntry { name: "openvas_list_tasks", toolset: Toolset::Tasks, read_only: true },
        ToolEntry { name: "openvas_list_tickets", toolset: Toolset::Tickets, read_only: true },
        ToolEntry { name: "openvas_list_user_settings", toolset: Toolset::Identity, read_only: true },
        ToolEntry { name: "openvas_list_users", toolset: Toolset::Identity, read_only: true },
        ToolEntry { name: "openvas_resume_task", toolset: Toolset::Tasks, read_only: false },
        ToolEntry { name: "openvas_search_nvts", toolset: Toolset::Nvts, read_only: true },
        ToolEntry { name: "openvas_start_task", toolset: Toolset::Tasks, read_only: false },
        ToolEntry { name: "openvas_stop_task", toolset: Toolset::Tasks, read_only: false },
        ToolEntry { name: "openvas_test_connection", toolset: Toolset::System, read_only: true },
        ToolEntry { name: "openvas_update_alert", toolset: Toolset::Alerts, read_only: false },
        ToolEntry { name: "openvas_update_credential", toolset: Toolset::Credentials, read_only: false },
        ToolEntry { name: "openvas_update_group", toolset: Toolset::Identity, read_only: false },
        ToolEntry { name: "openvas_update_note", toolset: Toolset::Notes, read_only: false },
        ToolEntry { name: "openvas_update_override", toolset: Toolset::Overrides, read_only: false },
        ToolEntry { name: "openvas_update_permission", toolset: Toolset::Identity, read_only: false },
        ToolEntry { name: "openvas_update_port_list", toolset: Toolset::PortLists, read_only: false },
        ToolEntry { name: "openvas_update_role", toolset: Toolset::Identity, read_only: false },
        ToolEntry { name: "openvas_update_scan_config", toolset: Toolset::ScanConfigs, read_only: false },
        ToolEntry { name: "openvas_update_schedule", toolset: Toolset::Schedules, read_only: false },
        ToolEntry { name: "openvas_update_target", toolset: Toolset::Targets, read_only: false },
        ToolEntry { name: "openvas_update_task", toolset: Toolset::Tasks, read_only: false },
        ToolEntry { name: "openvas_update_user", toolset: Toolset::Identity, read_only: false },
        ToolEntry { name: "openvas_update_user_setting", toolset: Toolset::Identity, read_only: false }
    ];
    assert(entry_views(r@) =~= catalog_spec());
    r
}

/// A tool is exposed when its toolset is selected and, in read-only mode,
/// when it only reads.
pub open spec fn exposure(selection: Set<Toolset>, read_only: bool) -> spec_fn((Seq<char>, Toolset, bool)) -> bool {
    |e: (Seq<char>, Toolset, bool)| selection.contains(e.1) && (!read_only || e.2)
}

/// The exposed tools, in catalog order.
pub open spec fn exposed_entries(selection: Set<Toolset>, read_only: bool) -> Seq<(Seq<char>, Toolset, bool)> {
    catalog_spec().filter(exposure(selection, read_only))
}

/// The names of the exposed tools, sorted.
pub open spec fn exposed_names(selection: Set<Toolset>, read_only: bool) -> Seq<Seq<char>> {
    exposed_entries(selection, read_only).map_values(|e: (Seq<char>, Toolset, bool)| e.0)
}

/// Names of the tools an instance exposes for its toolset selection and
/// read-only mode, sorted.
pub fn exposed_tools(selection: &ToolsetSelection, read_only: bool) -> (r: Vec<&'static str>)
    ensures
        str_views(r@) == exposed_names(selection@, read_only),
{
    let all = catalog();
    let ghost pred = exposure(selection@, read_only);
    let mut r: Vec<&'static str> = Vec::new();
    let mut i: usize = 0;
    while i < all.len()
        invariant
            i <= all@.len(),
            entry_views(all@) == catalog_spec(),
            pred == exposure(selection@, read_only),
            str_views(r@) == catalog_spec().take(i as int).filter(pred).map_values(
                |e: (Seq<char>, Toolset, bool)| e.0,
            ),
        decreases all@.len() - i,
    {
        let e = all[i];
        let ghost before = r@;
        assert(catalog_spec()[i as int] == entry_view(e));
        proof {
            lemma_filter_step(catalog_spec(), pred, i as int);
        }
        if selection.is_enabled(e.toolset) && (!read_only || e.read_only) {
            r.push(e.name);
            assert(str_views(r@) =~= str_views(before).push(e.name@));
            assert(catalog_spec().take(i + 1).filter(pred) == catalog_spec().take(i as int).filter(pred).push(entry_view(e)));
            assert(catalog_spec().take(i + 1).filter(pred).map_values(|e: (Seq<char>, Toolset, bool)| e.0)
                =~= catalog_spec().take(i as int).filter(pred).map_values(|e: (Seq<char>, Toolset, bool)| e.0).push(e.name@));
        } else {
            assert(catalog_spec().take(i + 1).filter(pred) == catalog_spec().take(i as int).filter(pred));
        }
        i = i + 1;
    }
    assert(catalog_spec().take(all@.len() as int) =~= catalog_spec());
    r
}

proof fn lemma_filter_step<A>(s: Seq<A>, pred: spec_fn(A) -> bool, i: int)
    requires
        0 <= i < s.len(),
    ensures
        s.take(i + 1).filter(pred) == (if pred(s[i]) {
            s.take(i).filter(pred).push(s[i])
        } else {
            s.take(i).filter(pred)
        }),
{
    reveal(Seq::filter);
    let t = s.take(i + 1);
    assert(t.drop_last() =~= s.take(i));
    assert(t.last() == s[i]);
}

/// Filtering by `p` and then by `q` is filtering by both at once.
proof fn lemma_filter_twice<A>(s: Seq<A>, p: spec_fn(A) -> bool, q: spec_fn(A) -> bool, pq: spec_fn(A) -> bool)
    requires
        forall|e: A| #[trigger] pq(e) == (p(e) && q(e)),
    ensures
        s.filter(p).filter(q) == s.filter(pq),
    decreases s.len(),
{
    reveal(Seq::filter);
    if s.len() > 0 {
        lemma_filter_twice(s.drop_last(), p, q, pq);
        let f = s.drop_last().filter(p);
        if p(s.last()) {
            assert(f.push(s.last()).drop_last() =~= f);
        }
    } else {
        assert(s.filter(p).filter(q) =~= s.filter(pq));
    }
}

/// Whether an entry only reads.
pub open spec fn reads_only() -> spec_fn((Seq<char>, Toolset, bool)) -> bool {
    |e: (Seq<char>, Toolset, bool)| e.2
}

/// Read-only mode lists exactly the read-only tools of the full listing, in
/// the same order: turning it on never adds a tool and never reorders one.
pub proof fn law_read_only_listing_is_the_reading_part(selection: Set<Toolset>)
    ensures
        exposed_entries(selection, true) == exposed_entries(selection, false).filter(reads_only()),
        forall|e: (Seq<char>, Toolset, bool)| #[trigger] exposed_entries(selection, true).contains(e)
            ==> exposed_entries(selection, false).contains(e),
{
    let p = exposure(selection, false);
    let q = reads_only();
    let pq = exposure(selection, true);
    assert forall|e: (Seq<char>, Toolset, bool)| #[trigger] pq(e) == (p(e) && q(e)) by {}
    lemma_filter_twice(catalog_spec(), p, q, pq);
    assert forall|e: (Seq<char>, Toolset, bool)| #[trigger] exposed_entries(selection, true).contains(e)
        implies exposed_entries(selection, false).contains(e) by {
        exposed_entries(selection, false).lemma_filter_contains_rev(q, e);
    }
}

/// In read-only mode, every exposed tool only reads.
pub proof fn law_read_only_exposes_only_reads(selection: Set<Toolset>)
    ensures
        forall|i: int| 0 <= i < exposed_entries(selection, true).len() ==> #[trigger] exposed_entries(selection, true)[i].2,
{
    assert forall|i: int| 0 <= i < exposed_entries(selection, true).len() implies #[trigger] exposed_entries(selection, true)[i].2 by {
        catalog_spec().lemma_filter_pred(exposure(selection, true), i);
    }
}

/// Every exposed tool belongs to a selected toolset.
pub proof fn law_exposed_tools_belong_to_selected_toolsets(selection: Set<Toolset>, read_only: bool)
    ensures
        forall|i: int| 0 <= i < exposed_entries(selection, read_only).len() ==> selection.contains(
            #[trigger] exposed_entries(selection, read_only)[i].1,
        ),
{
    assert forall|i: int| 0 <= i < exposed_entries(selection, read_only).len() implies selection.contains(
        #[trigger] exposed_entries(selection, read_only)[i].1,
    ) by {
        catalog_spec().lemma_filter_pred(exposure(selection, read_only), i);
    }
}

/// Every tool of a selected toolset is exposed, except that read-only mode
/// hides the tools that write.
pub proof fn law_selected_tools_are_exposed(selection: Set<Toolset>, read_only: bool)
    ensures
        forall|i: int| 0 <= i < catalog_spec().len() && selection.contains(catalog_spec()[i].1) && (!read_only
            || catalog_spec()[i].2) ==> #[trigger] exposed_entries(selection, read_only).contains(catalog_spec()[i]),
{
    assert forall|i: int| 0 <= i < catalog_spec().len() && selection.contains(catalog_spec()[i].1) && (!read_only
        || catalog_spec()[i].2) implies #[trigger] exposed_entries(selection, read_only).contains(catalog_spec()[i]) by {
        catalog_spec().lemma_filter_contains(exposure(selection, read_only), i);
    }
}

/// Whatever the toolset selection and mode, the connection test and the
/// version tool are exposed.
pub proof fn law_system_tools_always_exposed(raws: Seq<Seq<char>>, read_only: bool)
    requires
        selection_spec(raws) is Ok,
    ensures
        exposed_names(selection_spec(raws)->Ok_0, read_only).contains("openvas_test_connection"@),
        exposed_names(selection_spec(raws)->Ok_0, read_only).contains("openvas_get_version"@),
{
    law_system_always_enabled(raws);
    let selection = selection_spec(raws)->Ok_0;
    let entries = exposed_entries(selection, read_only);
    let pred = exposure(selection, read_only);
    assert(catalog_spec()[88] == ("openvas_test_connection"@, Toolset::System, true));
    assert(catalog_spec()[58] == ("openvas_get_version"@, Toolset::System, true));
    catalog_spec().lemma_filter_contains(pred, 88);
    catalog_spec().lemma_filter_contains(pred, 58);
    let j = choose|j: int| 0 <= j < entries.len() && entries[j] == catalog_spec()[88];
    let k = choose|k: int| 0 <= k < entries.len() && entries[k] == catalog_spec()[58];
    assert(exposed_names(selection, read_only)[j] == "openvas_test_connection"@);
    assert(exposed_names(selection, read_only)[k] == "openvas_get_version"@);
}

/// Without a toolset selection no identity tool is exposed: identity
/// administration is opt-in.
pub proof fn law_default_exposes_no_identity_tool(read_only: bool)
    ensures
        forall|i: int| 0 <= i < exposed_entries(default_set(), read_only).len() ==> #[trigger] exposed_entries(default_set(), read_only)[i].1 != Toolset::Identity,
{
    law_default_selection_excludes_identity();
    law_exposed_tools_belong_to_selected_toolsets(default_set(), read_only);
}

/// `a` comes before `b` in the order of `str`: at the first character where
/// they differ, or a proper prefix first.
pub open spec fn name_lt(a: Seq<char>, b: Seq<char>) -> bool
    decreases a.len(),
{
    if b.len() == 0 {
        false
    } else if a.len() == 0 {
        true
    } else if a[0] != b[0] {
        (a[0] as u32) < (b[0] as u32)
    } else {
        name_lt(a.drop_first(), b.drop_first())
    }
}

/// The names are strictly increasing.
pub open spec fn strictly_sorted(names: Seq<Seq<char>>) -> bool {
    forall|i: int, j: int| 0 <= i < j < names.len() ==> name_lt(#[trigger] names[i], #[trigger] names[j])
}

proof fn lemma_name_lt_at(a: Seq<char>, b: Seq<char>, k: int)
    requires
        0 <= k <= a.len(),
        k <= b.len(),
        forall|j: int| 0 <= j < k ==> a[j] == b[j],
        (k == a.len() && k < b.len()) || (k < a.len() && k < b.len() && (a[k] as u32) < (b[k] as u32)),
    ensures
        name_lt(a, b),
    decreases k,
{
    if k > 0 {
        lemma_name_lt_at(a.drop_first(), b.drop_first(), k - 1);
    }
}

proof fn lemma_name_lt_transitive(a: Seq<char>, b: Seq<char>, c: Seq<char>)
    requires
        name_lt(a, b),
        name_lt(b, c),
    ensures
        name_lt(a, c),
    decreases a.len(),
{
    if a.len() > 0 && b.len() > 0 && c.len() > 0 && a[0] == b[0] && b[0] == c[0] {
        lemma_name_lt_transitive(a.drop_first(), b.drop_first(), c.drop_first());
    }
}

proof fn lemma_catalog_adjacent_0()
    ensures
        forall|i: int| 0 <= i < 10 ==> name_lt(#[trigger] catalog_spec()[i].0, catalog_spec()[i + 1].0),
{
    reveal_strlit("openvas_cancel_job");
    reveal_strlit("openvas_create_alert");
    lemma_name_lt_at(catalog_spec()[0].0, catalog_spec()[1].0, 9);
    reveal_strlit("openvas_create_alert");
    reveal_strlit("openvas_create_credential");
    lemma_name_lt_at(catalog_spec()[1].0, catalog_spec()[2].0, 15);
    reveal_strlit("openvas_create_credential");
    reveal_strlit("openvas_create_group");
    lemma_name_lt_at(catalog_spec()[2].0, catalog_spec()[3].0, 15);
    reveal_strlit("openvas_create_group");
    reveal_strlit("openvas_create_note");
    lemma_name_lt_at(catalog_spec()[3].0, catalog_spec()[4].0, 15);
    reveal_strlit("openvas_create_note");
    reveal_strlit("openvas_create_override");
    lemma_name_lt_at(catalog_spec()[4].0, catalog_spec()[5].0, 15);
    reveal_strlit("openvas_create_override");
    reveal_strlit("openvas_create_permission");
    lemma_name_lt_at(catalog_spec()[5].0, catalog_spec()[6].0, 15);
    reveal_strlit("openvas_create_permission");
    reveal_strlit("openvas_create_port_list");
    lemma_name_lt_at(catalog_spec()[6].0, catalog_spec()[7].0, 16);
    reveal_strlit("openvas_create_port_list");
    reveal_strlit("openvas_create_role");
    lemma_name_lt_at(catalog_spec()[7].0, catalog_spec()[8].0, 15);
    reveal_strlit("openvas_create_role");
    reveal_strlit("openvas_create_scan_config");
    lemma_name_lt_at(catalog_spec()[8].0, catalog_spec()[9].0, 15);
    reveal_strlit("openvas_create_scan_config");
    reveal_strlit("openvas_create_schedule");
    lemma_name_lt_at(catalog_spec()[9].0, catalog_spec()[10].0, 17);
}

proof fn lemma_catalog_adjacent_1()
    ensures
        forall|i: int| 10 <= i < 20 ==> name_lt(#[trigger] catalog_spec()[i].0, catalog_spec()[i + 1].0),
{
    reveal_strlit("openvas_create_schedule");
    reveal_strlit("openvas_create_target");
    lemma_name_lt_at(catalog_spec()[10].0, catalog_spec()[11].0, 15);
    reveal_strlit("openvas_create_target");
    reveal_strlit("openvas_create_task");
    lemma_name_lt_at(catalog_spec()[11].0, catalog_spec()[12].0, 17);
    reveal_strlit("openvas_create_task");
    reveal_strlit("openvas_create_user");
    lemma_name_lt_at(catalog_spec()[12].0, catalog_spec()[13].0, 15);
    reveal_strlit("openvas_create_user");
    reveal_strlit("openvas_delete_alert");
    lemma_name_lt_at(catalog_spec()[13].0, catalog_spec()[14].0, 8);
    reveal_strlit("openvas_delete_alert");
    reveal_strlit("openvas_delete_credential");
    lemma_name_lt_at(catalog_spec()[14].0, catalog_spec()[15].0, 15);
    reveal_strlit("openvas_delete_credential");
    reveal_strlit("openvas_delete_group");
    lemma_name_lt_at(catalog_spec()[15].0, catalog_spec()[16].0, 15);
    reveal_strlit("openvas_delete_group");
    reveal_strlit("openvas_delete_note");
    lemma_name_lt_at(catalog_spec()[16].0, catalog_spec()[17].0, 15);
    reveal_strlit("openvas_delete_note");
    reveal_strlit("openvas_delete_override");
    lemma_name_lt_at(catalog_spec()[17].0, catalog_spec()[18].0, 15);
    reveal_strlit("openvas_delete_override");
    reveal_strlit("openvas_delete_permission");
    lemma_name_lt_at(catalog_spec()[18].0, catalog_spec()[19].0, 15);
    reveal_strlit("openvas_delete_permission");
    reveal_strlit("openvas_delete_port_list");
    lemma_name_lt_at(catalog_spec()[19].0, catalog_spec()[20].0, 16);
}

proof fn lemma_catalog_adjacent_2()
    ensures
        forall|i: int| 20 <= i < 30 ==> name_lt(#[trigger] catalog_spec()[i].0, catalog_spec()[i + 1].0),
{
    reveal_strlit("openvas_delete_port_list");
    reveal_strlit("openvas_delete_report");
    lemma_name_lt_at(catalog_spec()[20].0, catalog_spec()[21].0, 15);
    reveal_strlit("openvas_delete_report");
    reveal_strlit("openvas_delete_role");
    lemma_name_lt_at(catalog_spec()[21].0, catalog_spec()[22].0, 16);
    reveal_strlit("openvas_delete_role");
    reveal_strlit("openvas_delete_scan_config");
    lemma_name_lt_at(catalog_spec()[22].0, catalog_spec()[23].0, 15);
    reveal_strlit("openvas_delete_scan_config");
    reveal_strlit("openvas_delete_schedule");
    lemma_name_lt_at(catalog_spec()[23].0, catalog_spec()[24].0, 17);
    reveal_strlit("openvas_delete_schedule");
    reveal_strlit("openvas_delete_target");
    lemma_name_lt_at(catalog_spec()[24].0, catalog_spec()[25].0, 15);
    reveal_strlit("openvas_delete_target");
    reveal_strlit("openvas_delete_task");
    lemma_name_lt_at(catalog_spec()[25].0, catalog_spec()[26].0, 17);
    reveal_strlit("openvas_delete_task");
    reveal_strlit("openvas_delete_user");
    lemma_name_lt_at(catalog_spec()[26].0, catalog_spec()[27].0, 15);
    reveal_strlit("openvas_delete_user");
    reveal_strlit("openvas_download_job_result");
    lemma_name_lt_at(catalog_spec()[27].0, catalog_spec()[28].0, 9);
    reveal_strlit("openvas_download_job_result");
    reveal_strlit("openvas_export_report");
    lemma_name_lt_at(catalog_spec()[28].0, catalog_spec()[29].0, 8);
    reveal_strlit("openvas_export_report");
    reveal_strlit("openvas_get_alert");
    lemma_name_lt_at(catalog_spec()[29].0, catalog_spec()[30].0, 8);
}

proof fn lemma_catalog_adjacent_3()
    ensures
        forall|i: int| 30 <= i < 40 ==> name_lt(#[trigger] catalog_spec()[i].0, catalog_spec()[i + 1].0),
{
    reveal_strlit("openvas_get_alert");
    reveal_strlit("openvas_get_asset_host");
    lemma_name_lt_at(catalog_spec()[30].0, catalog_spec()[31].0, 13);
    reveal_strlit("openvas_get_asset_host");
    reveal_strlit("openvas_get_credential");
    lemma_name_lt_at(catalog_spec()[31].0, catalog_spec()[32].0, 12);
    reveal_strlit("openvas_get_credential");
    reveal_strlit("openvas_get_filter");
    lemma_name_lt_at(catalog_spec()[32].0, catalog_spec()[33].0, 12);
    reveal_strlit("openvas_get_filter");
    reveal_strlit("openvas_get_group");
    lemma_name_lt_at(catalog_spec()[33].0, catalog_spec()[34].0, 12);
    reveal_strlit("openvas_get_group");
    reveal_strlit("openvas_get_job");
    lemma_name_lt_at(catalog_spec()[34].0, catalog_spec()[35].0, 12);
    reveal_strlit("openvas_get_job");
    reveal_strlit("openvas_get_note");
    lemma_name_lt_at(catalog_spec()[35].0, catalog_spec()[36].0, 12);
    reveal_strlit("openvas_get_note");
    reveal_strlit("openvas_get_nvt");
    lemma_name_lt_at(catalog_spec()[36].0, catalog_spec()[37].0, 13);
    reveal_strlit("openvas_get_nvt");
    reveal_strlit("openvas_get_override");
    lemma_name_lt_at(catalog_spec()[37].0, catalog_spec()[38].0, 12);
    reveal_strlit("openvas_get_override");
    reveal_strlit("openvas_get_permission");
    lemma_name_lt_at(catalog_spec()[38].0, catalog_spec()[39].0, 12);
    reveal_strlit("openvas_get_permission");
    reveal_strlit("openvas_get_port_list");
    lemma_name_lt_at(catalog_spec()[39].0, catalog_spec()[40].0, 13);
}

proof fn lemma_catalog_adjacent_4()
    ensures
        forall|i: int| 40 <= i < 50 ==> name_lt(#[trigger] catalog_spec()[i].0, catalog_spec()[i + 1].0),
{
    reveal_strlit("openvas_get_port_list");
    reveal_strlit("openvas_get_report");
    lemma_name_lt_at(catalog_spec()[40].0, catalog_spec()[41].0, 12);
    reveal_strlit("openvas_get_report");
    reveal_strlit("openvas_get_report_closed_cves");
    lemma_name_lt_at(catalog_spec()[41].0, catalog_spec()[42].0, 18);
    reveal_strlit("openvas_get_report_closed_cves");
    reveal_strlit("openvas_get_report_errors");
    lemma_name_lt_at(catalog_spec()[42].0, catalog_spec()[43].0, 19);
    reveal_strlit("openvas_get_report_errors");
    reveal_strlit("openvas_get_report_format");
    lemma_name_lt_at(catalog_spec()[43].0, catalog_spec()[44].0, 19);
    reveal_strlit("openvas_get_report_format");
    reveal_strlit("openvas_get_report_results");
    lemma_name_lt_at(catalog_spec()[44].0, catalog_spec()[45].0, 19);
    reveal_strlit("openvas_get_report_results");
    reveal_strlit("openvas_get_report_tls_certificates");
    lemma_name_lt_at(catalog_spec()[45].0, catalog_spec()[46].0, 19);
    reveal_strlit("openvas_get_report_tls_certificates");
    reveal_strlit("openvas_get_report_vulnerabilities");
    lemma_name_lt_at(catalog_spec()[46].0, catalog_spec()[47].0, 19);
    reveal_strlit("openvas_get_report_vulnerabilities");
    reveal_strlit("openvas_get_result");
    lemma_name_lt_at(catalog_spec()[47].0, catalog_spec()[48].0, 14);
    reveal_strlit("openvas_get_result");
    reveal_strlit("openvas_get_role");
    lemma_name_lt_at(catalog_spec()[48].0, catalog_spec()[49].0, 13);
    reveal_strlit("openvas_get_role");
    reveal_strlit("openvas_get_scan_config");
    lemma_name_lt_at(catalog_spec()[49].0, catalog_spec()[50].0, 12);
}

proof fn lemma_catalog_adjacent_5()
    ensures
        forall|i: int| 50 <= i < 60 ==> name_lt(#[trigger] catalog_spec()[i].0, catalog_spec()[i + 1].0),
{
    reveal_strlit("openvas_get_scan_config");
    reveal_strlit("openvas_get_scanner");
    lemma_name_lt_at(catalog_spec()[50].0, catalog_spec()[51].0, 16);
    reveal_strlit("openvas_get_scanner");
    reveal_strlit("openvas_get_schedule");
    lemma_name_lt_at(catalog_spec()[51].0, catalog_spec()[52].0, 14);
    reveal_strlit("openvas_get_schedule");
    reveal_strlit("openvas_get_tag");
    lemma_name_lt_at(catalog_spec()[52].0, catalog_spec()[53].0, 12);
    reveal_strlit("openvas_get_tag");
    reveal_strlit("openvas_get_target");
    lemma_name_lt_at(catalog_spec()[53].0, catalog_spec()[54].0, 14);
    reveal_strlit("openvas_get_target");
    reveal_strlit("openvas_get_task");
    lemma_name_lt_at(catalog_spec()[54].0, catalog_spec()[55].0, 14);
    reveal_strlit("openvas_get_task");
    reveal_strlit("openvas_get_user");
    lemma_name_lt_at(catalog_spec()[55].0, catalog_spec()[56].0, 12);
    reveal_strlit("openvas_get_user");
    reveal_strlit("openvas_get_user_setting");
    lemma_name_lt_at(catalog_spec()[56].0, catalog_spec()[57].0, 16);
    reveal_strlit("openvas_get_user_setting");
    reveal_strlit("openvas_get_version");
    lemma_name_lt_at(catalog_spec()[57].0, catalog_spec()[58].0, 12);
    reveal_strlit("openvas_get_version");
    reveal_strlit("openvas_list_alerts");
    lemma_name_lt_at(catalog_spec()[58].0, catalog_spec()[59].0, 8);
    reveal_strlit("openvas_list_alerts");
    reveal_strlit("openvas_list_asset_hosts");
    lemma_name_lt_at(catalog_spec()[59].0, catalog_spec()[60].0, 14);
}

proof fn lemma_catalog_adjacent_6()
    ensures
        forall|i: int| 60 <= i < 70 ==> name_lt(#[trigger] catalog_spec()[i].0, catalog_spec()[i + 1].0),
{
    reveal_strlit("openvas_list_asset_hosts");
    reveal_strlit("openvas_list_credential_stores");
    lemma_name_lt_at(catalog_spec()[60].0, catalog_spec()[61].0, 13);
    reveal_strlit("openvas_list_credential_stores");
    reveal_strlit("openvas_list_credentials");
    lemma_name_lt_at(catalog_spec()[61].0, catalog_spec()[62].0, 23);
    reveal_strlit("openvas_list_credentials");
    reveal_strlit("openvas_list_feeds");
    lemma_name_lt_at(catalog_spec()[62].0, catalog_spec()[63].0, 13);
    reveal_strlit("openvas_list_feeds");
    reveal_strlit("openvas_list_filters");
    lemma_name_lt_at(catalog_spec()[63].0, catalog_spec()[64].0, 14);
    reveal_strlit("openvas_list_filters");
    reveal_strlit("openvas_list_groups");
    lemma_name_lt_at(catalog_spec()[64].0, catalog_spec()[65].0, 13);
    reveal_strlit("openvas_list_groups");
    reveal_strlit("openvas_list_notes");
    lemma_name_lt_at(catalog_spec()[65].0, catalog_spec()[66].0, 13);
    reveal_strlit("openvas_list_notes");
    reveal_strlit("openvas_list_nvt_families");
    lemma_name_lt_at(catalog_spec()[66].0, catalog_spec()[67].0, 14);
    reveal_strlit("openvas_list_nvt_families");
    reveal_strlit("openvas_list_overrides");
    lemma_name_lt_at(catalog_spec()[67].0, catalog_spec()[68].0, 13);
    reveal_strlit("openvas_list_overrides");
    reveal_strlit("openvas_list_permissions");
    lemma_name_lt_at(catalog_spec()[68].0, catalog_spec()[69].0, 13);
    reveal_strlit("openvas_list_permissions");
    reveal_strlit("openvas_list_port_lists");
    lemma_name_lt_at(catalog_spec()[69].0, catalog_spec()[70].0, 14);
}

proof fn lemma_catalog_adjacent_7()
    ensures
        forall|i: int| 70 <= i < 80 ==> name_lt(#[trigger] catalog_spec()[i].0, catalog_spec()[i + 1].0),
{
    reveal_strlit("openvas_list_port_lists");
    reveal_strlit("openvas_list_report_formats");
    lemma_name_lt_at(catalog_spec()[70].0, catalog_spec()[71].0, 13);
    reveal_strlit("openvas_list_report_formats");
    reveal_strlit("openvas_list_reports");
    lemma_name_lt_at(catalog_spec()[71].0, catalog_spec()[72].0, 19);
    reveal_strlit("openvas_list_reports");
    reveal_strlit("openvas_list_results");
    lemma_name_lt_at(catalog_spec()[72].0, catalog_spec()[73].0, 15);
    reveal_strlit("openvas_list_results");
    reveal_strlit("openvas_list_roles");
    lemma_name_lt_at(catalog_spec()[73].0, catalog_spec()[74].0, 14);
    reveal_strlit("openvas_list_roles");
    reveal_strlit("openvas_list_scan_configs");
    lemma_name_lt_at(catalog_spec()[74].0, catalog_spec()[75].0, 13);
    reveal_strlit("openvas_list_scan_configs");
    reveal_strlit("openvas_list_scanners");
    lemma_name_lt_at(catalog_spec()[75].0, catalog_spec()[76].0, 17);
    reveal_strlit("openvas_list_scanners");
    reveal_strlit("openvas_list_schedules");
    lemma_name_lt_at(catalog_spec()[76].0, catalog_spec()[77].0, 15);
    reveal_strlit("openvas_list_schedules");
    reveal_strlit("openvas_list_tags");
    lemma_name_lt_at(catalog_spec()[77].0, catalog_spec()[78].0, 13);
    reveal_strlit("openvas_list_tags");
    reveal_strlit("openvas_list_targets");
    lemma_name_lt_at(catalog_spec()[78].0, catalog_spec()[79].0, 15);
    reveal_strlit("openvas_list_targets");
    reveal_strlit("openvas_list_tasks");
    lemma_name_lt_at(catalog_spec()[79].0, catalog_spec()[80].0, 15);
}

proof fn lemma_catalog_adjacent_8()
    ensures
        forall|i: int| 80 <= i < 90 ==> name_lt(#[trigger] catalog_spec()[i].0, catalog_spec()[i + 1].0),
{
    reveal_strlit("openvas_list_tasks");
    reveal_strlit("openvas_list_tickets");
    lemma_name_lt_at(catalog_spec()[80].0, catalog_spec()[81].0, 14);
    reveal_strlit("openvas_list_tickets");
    reveal_strlit("openvas_list_user_settings");
    lemma_name_lt_at(catalog_spec()[81].0, catalog_spec()[82].0, 13);
    reveal_strlit("openvas_list_user_settings");
    reveal_strlit("openvas_list_users");
    lemma_name_lt_at(catalog_spec()[82].0, catalog_spec()[83].0, 17);
    reveal_strlit("openvas_list_users");
    reveal_strlit("openvas_resume_task");
    lemma_name_lt_at(catalog_spec()[83].0, catalog_spec()[84].0, 8);
    reveal_strlit("openvas_resume_task");
    reveal_strlit("openvas_search_nvts");
    lemma_name_lt_at(catalog_spec()[84].0, catalog_spec()[85].0, 8);
    reveal_strlit("openvas_search_nvts");
    reveal_strlit("openvas_start_task");
    lemma_name_lt_at(catalog_spec()[85].0, catalog_spec()[86].0, 9);
    reveal_strlit("openvas_start_task");
    reveal_strlit("openvas_stop_task");
    lemma_name_lt_at(catalog_spec()[86].0, catalog_spec()[87].0, 10);
    reveal_strlit("openvas_stop_task");
    reveal_strlit("openvas_test_connection");
    lemma_name_lt_at(catalog_spec()[87].0, catalog_spec()[88].0, 8);
    reveal_strlit("openvas_test_connection");
    reveal_strlit("openvas_update_alert");
    lemma_name_lt_at(catalog_spec()[88].0, catalog_spec()[89].0, 8);
    reveal_strlit("openvas_update_alert");
    reveal_strlit("openvas_update_credential");
    lemma_name_lt_at(catalog_spec()[89].0, catalog_spec()[90].0, 15);
}

proof fn lemma_catalog_adjacent_9()
    ensures
        forall|i: int| 90 <= i < 100 ==> name_lt(#[trigger] catalog_spec()[i].0, catalog_spec()[i + 1].0),
{
    reveal_strlit("openvas_update_credential");
    reveal_strlit("openvas_update_group");
    lemma_name_lt_at(catalog_spec()[90].0, catalog_spec()[91].0, 15);
    reveal_strlit("openvas_update_group");
    reveal_strlit("openvas_update_note");
    lemma_name_lt_at(catalog_spec()[91].0, catalog_spec()[92].0, 15);
    reveal_strlit("openvas_update_note");
    reveal_strlit("openvas_update_override");
    lemma_name_lt_at(catalog_spec()[92].0, catalog_spec()[93].0, 15);
    reveal_strlit("openvas_update_override");
    reveal_strlit("openvas_update_permission");
    lemma_name_lt_at(catalog_spec()[93].0, catalog_spec()[94].0, 15);
    reveal_strlit("openvas_update_permission");
    reveal_strlit("openvas_update_port_list");
    lemma_name_lt_at(catalog_spec()[94].0, catalog_spec()[95].0, 16);
    reveal_strlit("openvas_update_port_list");
    reveal_strlit("openvas_update_role");
    lemma_name_lt_at(catalog_spec()[95].0, catalog_spec()[96].0, 15);
    reveal_strlit("openvas_update_role");
    reveal_strlit("openvas_update_scan_config");
    lemma_name_lt_at(catalog_spec()[96].0, catalog_spec()[97].0, 15);
    reveal_strlit("openvas_update_scan_config");
    reveal_strlit("openvas_update_schedule");
    lemma_name_lt_at(catalog_spec()[97].0, catalog_spec()[98].0, 17);
    reveal_strlit("openvas_update_schedule");
    reveal_strlit("openvas_update_target");
    lemma_name_lt_at(catalog_spec()[98].0, catalog_spec()[99].0, 15);
    reveal_strlit("openvas_update_target");
    reveal_strlit("openvas_update_task");
    lemma_name_lt_at(catalog_spec()[99].0, catalog_spec()[100].0, 17);
}

proof fn lemma_catalog_adjacent_10()
    ensures
        forall|i: int| 100 <= i < 102 ==> name_lt(#[trigger] catalog_spec()[i].0, catalog_spec()[i + 1].0),
{
    reveal_strlit("openvas_update_task");
    reveal_strlit("openvas_update_user");
    lemma_name_lt_at(catalog_spec()[100].0, catalog_spec()[101].0, 15);
    reveal_strlit("openvas_update_user");
    reveal_strlit("openvas_update_user_setting");
    lemma_name_lt_at(catalog_spec()[101].0, catalog_spec()[102].0, 19);
}

proof fn lemma_catalog_sorted()
    ensures
        strictly_sorted(catalog_spec().map_values(|e: (Seq<char>, Toolset, bool)| e.0)),
{
    lemma_catalog_adjacent_0();
    lemma_catalog_adjacent_1();
    lemma_catalog_adjacent_2();
    lemma_catalog_adjacent_3();
    lemma_catalog_adjacent_4();
    lemma_catalog_adjacent_5();
    lemma_catalog_adjacent_6();
    lemma_catalog_adjacent_7();
    lemma_catalog_adjacent_8();
    lemma_catalog_adjacent_9();
    lemma_catalog_adjacent_10();
    let names = catalog_spec().map_values(|e: (Seq<char>, Toolset, bool)| e.0);
    assert forall|i: int| 0 <= i < names.len() - 1 implies name_lt(#[trigger] names[i], names[i + 1]) by {
        assert(name_lt(catalog_spec()[i].0, catalog_spec()[i + 1].0));
    }
    assert forall|i: int, j: int| 0 <= i < j < names.len() implies name_lt(#[trigger] names[i], #[trigger] names[j]) by {
        lemma_sorted_from_adjacent(names, i, j);
    }
}

proof fn lemma_sorted_from_adjacent(names: Seq<Seq<char>>, i: int, j: int)
    requires
        0 <= i < j < names.len(),
        forall|k: int| 0 <= k < names.len() - 1 ==> name_lt(#[trigger] names[k], names[k + 1]),
    ensures
        name_lt(names[i], names[j]),
    decreases j - i,
{
    if j > i + 1 {
        lemma_sorted_from_adjacent(names, i, j - 1);
        assert(name_lt(names[j - 1], names[j]));
        lemma_name_lt_transitive(names[i], names[j - 1], names[j]);
    }
}

proof fn lemma_filter_keeps_sorted(s: Seq<(Seq<char>, Toolset, bool)>, pred: spec_fn((Seq<char>, Toolset, bool)) -> bool)
    requires
        strictly_sorted(s.map_values(|e: (Seq<char>, Toolset, bool)| e.0)),
    ensures
        strictly_sorted(s.filter(pred).map_values(|e: (Seq<char>, Toolset, bool)| e.0)),
    decreases s.len(),
{
    reveal(Seq::filter);
    if s.len() > 0 {
        let init = s.drop_last();
        assert(init.map_values(|e: (Seq<char>, Toolset, bool)| e.0) =~= s.map_values(
            |e: (Seq<char>, Toolset, bool)| e.0,
        ).drop_last());
        lemma_filter_keeps_sorted(init, pred);
        if pred(s.last()) {
            let f = init.filter(pred);
            let names = s.filter(pred).map_values(|e: (Seq<char>, Toolset, bool)| e.0);
            assert forall|i: int, j: int| 0 <= i < j < names.len() implies name_lt(#[trigger] names[i], #[trigger] names[j]) by {
                if j == names.len() - 1 {
                    assert(f.contains(f[i]));
                    init.lemma_filter_contains_rev(pred, f[i]);
                    let k = choose|k: int| 0 <= k < init.len() && init[k] == f[i];
                    assert(s[k] == f[i]);
                    assert(s.map_values(|e: (Seq<char>, Toolset, bool)| e.0)[k] == f[i].0);
                    assert(s.map_values(|e: (Seq<char>, Toolset, bool)| e.0)[s.len() - 1] == s.last().0);
                } else {
                    assert(names[i] == f.map_values(|e: (Seq<char>, Toolset, bool)| e.0)[i]);
                    assert(names[j] == f.map_values(|e: (Seq<char>, Toolset, bool)| e.0)[j]);
                }
            }
        } else {
        }
    }
}

/// The exposed tool names are strictly increasing: sorted, each name once.
pub proof fn law_exposed_names_are_sorted(selection: Set<Toolset>, read_only: bool)
    ensures
        strictly_sorted(exposed_names(selection, read_only)),
{
    lemma_catalog_sorted();
    lemma_filter_keeps_sorted(catalog_spec(), exposure(selection, read_only));
}

/// How many entries of `s[a..b)` satisfy `p`.
pub open spec fn count_in<A>(s: Seq<A>, p: spec_fn(A) -> bool, a: int, b: int) -> nat
    decreases b - a,
{
    if b <= a {
        0
    } else {
        count_in(s, p, a, b - 1) + if p(s[b - 1]) {
            1nat
        } else {
            0nat
        }
    }
}

/// Counting over `[a, c)` is counting over `[a, b)` and then `[b, c)`.
proof fn lemma_count_split<A>(s: Seq<A>, p: spec_fn(A) -> bool, a: int, b: int, c: int)
    requires
        a <= b <= c,
    ensures
        count_in(s, p, a, c) == count_in(s, p, a, b) + count_in(s, p, b, c),
    decreases c - b,
{
    if c > b {
        lemma_count_split(s, p, a, b, c - 1);
    }
}

/// Counting looks only at the entries in range.
proof fn lemma_count_same<A>(s: Seq<A>, t: Seq<A>, p: spec_fn(A) -> bool, a: int, b: int)
    requires
        forall|i: int| a <= i < b ==> s[i] == t[i],
    ensures
        count_in(s, p, a, b) == count_in(t, p, a, b),
    decreases b - a,
{
    if b > a {
        lemma_count_same(s, t, p, a, b - 1);
    }
}

/// A filter keeps as many entries as satisfy its predicate.
proof fn lemma_filter_len<A>(s: Seq<A>, p: spec_fn(A) -> bool)
    ensures
        s.filter(p).len() == count_in(s, p, 0, s.len() as int),
    decreases s.len(),
{
    reveal(Seq::filter);
    if s.len() > 0 {
        let init = s.drop_last();
        lemma_filter_len(init, p);
        lemma_count_same(s, init, p, 0, s.len() - 1);
    }
}

proof fn lemma_counts_0()
    ensures
        count_in(catalog_spec(), exposure(default_set(), false), 0, 10) == 7,
        count_in(catalog_spec(), exposure(default_set(), true), 0, 10) == 0,
        count_in(catalog_spec(), exposure(default_set().insert(Toolset::Identity), false), 0, 10) == 10,
{
    reveal_with_fuel(count_in, 11);
}

proof fn lemma_counts_1()
    ensures
        count_in(catalog_spec(), exposure(default_set(), false), 10, 20) == 7,
        count_in(catalog_spec(), exposure(default_set(), true), 10, 20) == 0,
        count_in(catalog_spec(), exposure(default_set().insert(Toolset::Identity), false), 10, 20) == 10,
{
    reveal_with_fuel(count_in, 11);
}

proof fn lemma_counts_2()
    ensures
        count_in(catalog_spec(), exposure(default_set(), false), 20, 30) == 8,
        count_in(catalog_spec(), exposure(default_set(), true), 20, 30) == 2,
        count_in(catalog_spec(), exposure(default_set().insert(Toolset::Identity), false), 20, 30) == 10,
{
    reveal_with_fuel(count_in, 11);
}

proof fn lemma_counts_3()
    ensures
        count_in(catalog_spec(), exposure(default_set(), false), 30, 40) == 8,
        count_in(catalog_spec(), exposure(default_set(), true), 30, 40) == 8,
        count_in(catalog_spec(), exposure(default_set().insert(Toolset::Identity), false), 30, 40) == 10,
{
    reveal_with_fuel(count_in, 11);
}

proof fn lemma_counts_4()
    ensures
        count_in(catalog_spec(), exposure(default_set(), false), 40, 50) == 9,
        count_in(catalog_spec(), exposure(default_set(), true), 40, 50) == 9,
        count_in(catalog_spec(), exposure(default_set().insert(Toolset::Identity), false), 40, 50) == 10,
{
    reveal_with_fuel(count_in, 11);
}

proof fn lemma_counts_5()
    ensures
        count_in(catalog_spec(), exposure(default_set(), false), 50, 60) == 8,
        count_in(catalog_spec(), exposure(default_set(), true), 50, 60) == 8,
        count_in(catalog_spec(), exposure(default_set().insert(Toolset::Identity), false), 50, 60) == 10,
{
    reveal_with_fuel(count_in, 11);
}

proof fn lemma_counts_6()
    ensures
        count_in(catalog_spec(), exposure(default_set(), false), 60, 70) == 8,
        count_in(catalog_spec(), exposure(default_set(), true), 60, 70) == 8,
        count_in(catalog_spec(), exposure(default_set().insert(Toolset::Identity), false), 60, 70) == 10,
{
    reveal_with_fuel(count_in, 11);
}

proof fn lemma_counts_7()
    ensures
        count_in(catalog_spec(), exposure(default_set(), false), 70, 80) == 9,
        count_in(catalog_spec(), exposure(default_set(), true), 70, 80) == 9,
        count_in(catalog_spec(), exposure(default_set().insert(Toolset::Identity), false), 70, 80) == 10,
{
    reveal_with_fuel(count_in, 11);
}

proof fn lemma_counts_8()
    ensures
        count_in(catalog_spec(), exposure(default_set(), false), 80, 90) == 8,
        count_in(catalog_spec(), exposure(default_set(), true), 80, 90) == 4,
        count_in(catalog_spec(), exposure(default_set().insert(Toolset::Identity), false), 80, 90) == 10,
{
    reveal_with_fuel(count_in, 11);
}

proof fn lemma_counts_9()
    ensures
        count_in(catalog_spec(), exposure(default_set(), false), 90, 100) == 7,
        count_in(catalog_spec(), exposure(default_set(), true), 90, 100) == 0,
        count_in(catalog_spec(), exposure(default_set().insert(Toolset::Identity), false), 90, 100) == 10,
{
    reveal_with_fuel(count_in, 11);
}

proof fn lemma_counts_10()
    ensures
        count_in(catalog_spec(), exposure(default_set(), false), 100, 103) == 1,
        count_in(catalog_spec(), exposure(default_set(), true), 100, 103) == 0,
        count_in(catalog_spec(), exposure(default_set().insert(Toolset::Identity), false), 100, 103) == 3,
{
    reveal_with_fuel(count_in, 11);
}

proof fn lemma_count_by_chunks(p: spec_fn((Seq<char>, Toolset, bool)) -> bool)
    ensures
        count_in(catalog_spec(), p, 0, 103) == count_in(catalog_spec(), p, 0, 10) + count_in(catalog_spec(), p, 10, 20) + count_in(catalog_spec(), p, 20, 30) + count_in(catalog_spec(), p, 30, 40) + count_in(catalog_spec(), p, 40, 50) + count_in(catalog_spec(), p, 50, 60) + count_in(catalog_spec(), p, 60, 70) + count_in(catalog_spec(), p, 70, 80) + count_in(catalog_spec(), p, 80, 90) + count_in(catalog_spec(), p, 90, 100) + count_in(catalog_spec(), p, 100, 103),
{
    lemma_count_split(catalog_spec(), p, 0, 10, 20);
    lemma_count_split(catalog_spec(), p, 0, 20, 30);
    lemma_count_split(catalog_spec(), p, 0, 30, 40);
    lemma_count_split(catalog_spec(), p, 0, 40, 50);
    lemma_count_split(catalog_spec(), p, 0, 50, 60);
    lemma_count_split(catalog_spec(), p, 0, 60, 70);
    lemma_count_split(catalog_spec(), p, 0, 70, 80);
    lemma_count_split(catalog_spec(), p, 0, 80, 90);
    lemma_count_split(catalog_spec(), p, 0, 90, 100);
    lemma_count_split(catalog_spec(), p, 0, 100, 103);
}

/// Fixed counts of the exposed tools: the default selection shows 80
/// tools, 48 of them in read-only mode, and adding the opt-in identity
/// toolset shows the whole catalog of 103.
pub proof fn law_tool_counts_per_selection()
    ensures
        catalog_spec().len() == 103,
        exposed_entries(default_set(), false).len() == 80,
        exposed_entries(default_set(), true).len() == 48,
        exposed_entries(default_set().insert(Toolset::Identity), false).len() == 103,
{
    lemma_counts_0();
    lemma_counts_1();
    lemma_counts_2();
    lemma_counts_3();
    lemma_counts_4();
    lemma_counts_5();
    lemma_counts_6();
    lemma_counts_7();
    lemma_counts_8();
    lemma_counts_9();
    lemma_counts_10();
    lemma_count_by_chunks(exposure(default_set(), false));
    lemma_count_by_chunks(exposure(default_set(), true));
    lemma_count_by_chunks(exposure(default_set().insert(Toolset::Identity), false));
    lemma_filter_len(catalog_spec(), exposure(default_set(), false));
    lemma_filter_len(catalog_spec(), exposure(default_set(), true));
    lemma_filter_len(catalog_spec(), exposure(default_set().insert(Toolset::Identity), false));
}


/// The tool names that change gvmd state: creating, updating, deleting,
/// starting, stopping, resuming and cancelling.
pub open spec fn mutating_name(name: Seq<char>) -> bool {
    ||| has_prefix(name, "openvas_create_"@)
    ||| has_prefix(name, "openvas_update_"@)
    ||| has_prefix(name, "openvas_delete_"@)
    ||| has_prefix(name, "openvas_start_"@)
    ||| has_prefix(name, "openvas_stop_"@)
    ||| has_prefix(name, "openvas_resume_"@)
    ||| has_prefix(name, "openvas_cancel_"@)
}

/// A name that differs from `prefix` at a position within both does not
/// start with it.
proof fn lemma_not_prefix(s: Seq<char>, prefix: Seq<char>, k: int)
    requires
        0 <= k < prefix.len(),
        k < s.len(),
        s[k] != prefix[k],
    ensures
        !has_prefix(s, prefix),
{
    if has_prefix(s, prefix) {
        assert(s.subrange(0, prefix.len() as int)[k] == s[k]);
    }
}

/// A name whose first characters spell `prefix` starts with it.
proof fn lemma_prefix(s: Seq<char>, prefix: Seq<char>)
    requires
        prefix.len() <= s.len(),
        forall|k: int| 0 <= k < prefix.len() ==> s[k] == prefix[k],
    ensures
        has_prefix(s, prefix),
{
    assert(s.subrange(0, prefix.len() as int) =~= prefix);
}

proof fn lemma_flags_0()
    ensures
        forall|i: int| 0 <= i < 10 ==> (#[trigger] catalog_spec()[i].2 <==> !mutating_name(catalog_spec()[i].0)),
{
    reveal_strlit("openvas_create_");
    reveal_strlit("openvas_update_");
    reveal_strlit("openvas_delete_");
    reveal_strlit("openvas_start_");
    reveal_strlit("openvas_stop_");
    reveal_strlit("openvas_resume_");
    reveal_strlit("openvas_cancel_");
    reveal_strlit("openvas_cancel_job");
    assert(catalog_spec()[0].0 == "openvas_cancel_job"@);
    lemma_prefix("openvas_cancel_job"@, "openvas_cancel_"@);
    reveal_strlit("openvas_create_alert");
    assert(catalog_spec()[1].0 == "openvas_create_alert"@);
    lemma_prefix("openvas_create_alert"@, "openvas_create_"@);
    reveal_strlit("openvas_create_credential");
    assert(catalog_spec()[2].0 == "openvas_create_credential"@);
    lemma_prefix("openvas_create_credential"@, "openvas_create_"@);
    reveal_strlit("openvas_create_group");
    assert(catalog_spec()[3].0 == "openvas_create_group"@);
    lemma_prefix("openvas_create_group"@, "openvas_create_"@);
    reveal_strlit("openvas_create_note");
    assert(catalog_spec()[4].0 == "openvas_create_note"@);
    lemma_prefix("openvas_create_note"@, "openvas_create_"@);
    reveal_strlit("openvas_create_override");
    assert(catalog_spec()[5].0 == "openvas_create_override"@);
    lemma_prefix("openvas_create_override"@, "openvas_create_"@);
    reveal_strlit("openvas_create_permission");
    assert(catalog_spec()[6].0 == "openvas_create_permission"@);
    lemma_prefix("openvas_create_permission"@, "openvas_create_"@);
    reveal_strlit("openvas_create_port_list");
    assert(catalog_spec()[7].0 == "openvas_create_port_list"@);
    lemma_prefix("openvas_create_port_list"@, "openvas_create_"@);
    reveal_strlit("openvas_create_role");
    assert(catalog_spec()[8].0 == "openvas_create_role"@);
    lemma_prefix("openvas_create_role"@, "openvas_create_"@);
    reveal_strlit("openvas_create_scan_config");
    assert(catalog_spec()[9].0 == "openvas_create_scan_config"@);
    lemma_prefix("openvas_create_scan_config"@, "openvas_create_"@);
}

proof fn lemma_flags_1()
    ensures
        forall|i: int| 10 <= i < 20 ==> (#[trigger] catalog_spec()[i].2 <==> !mutating_name(catalog_spec()[i].0)),
{
    reveal_strlit("openvas_create_");
    reveal_strlit("openvas_update_");
    reveal_strlit("openvas_delete_");
    reveal_strlit("openvas_start_");
    reveal_strlit("openvas_stop_");
    reveal_strlit("openvas_resume_");
    reveal_strlit("openvas_cancel_");
    reveal_strlit("openvas_create_schedule");
    assert(catalog_spec()[10].0 == "openvas_create_schedule"@);
    lemma_prefix("openvas_create_schedule"@, "openvas_create_"@);
    reveal_strlit("openvas_create_target");
    assert(catalog_spec()[11].0 == "openvas_create_target"@);
    lemma_prefix("openvas_create_target"@, "openvas_create_"@);
    reveal_strlit("openvas_create_task");
    assert(catalog_spec()[12].0 == "openvas_create_task"@);
    lemma_prefix("openvas_create_task"@, "openvas_create_"@);
    reveal_strlit("openvas_create_user");
    assert(catalog_spec()[13].0 == "openvas_create_user"@);
    lemma_prefix("openvas_create_user"@, "openvas_create_"@);
    reveal_strlit("openvas_delete_alert");
    assert(catalog_spec()[14].0 == "openvas_delete_alert"@);
    lemma_prefix("openvas_delete_alert"@, "openvas_delete_"@);
    reveal_strlit("openvas_delete_credential");
    assert(catalog_spec()[15].0 == "openvas_delete_credential"@);
    lemma_prefix("openvas_delete_credential"@, "openvas_delete_"@);
    reveal_strlit("openvas_delete_group");
    assert(catalog_spec()[16].0 == "openvas_delete_group"@);
    lemma_prefix("openvas_delete_group"@, "openvas_delete_"@);
    reveal_strlit("openvas_delete_note");
    assert(catalog_spec()[17].0 == "openvas_delete_note"@);
    lemma_prefix("openvas_delete_note"@, "openvas_delete_"@);
    reveal_strlit("openvas_delete_override");
    assert(catalog_spec()[18].0 == "openvas_delete_override"@);
    lemma_prefix("openvas_delete_override"@, "openvas_delete_"@);
    reveal_strlit("openvas_delete_permission");
    assert(catalog_spec()[19].0 == "openvas_delete_permission"@);
    lemma_prefix("openvas_delete_permission"@, "openvas_delete_"@);
}

proof fn lemma_flags_2()
    ensures
        forall|i: int| 20 <= i < 30 ==> (#[trigger] catalog_spec()[i].2 <==> !mutating_name(catalog_spec()[i].0)),
{
    reveal_strlit("openvas_create_");
    reveal_strlit("openvas_update_");
    reveal_strlit("openvas_delete_");
    reveal_strlit("openvas_start_");
    reveal_strlit("openvas_stop_");
    reveal_strlit("openvas_resume_");
    reveal_strlit("openvas_cancel_");
    reveal_strlit("openvas_delete_port_list");
    assert(catalog_spec()[20].0 == "openvas_delete_port_list"@);
    lemma_prefix("openvas_delete_port_list"@, "openvas_delete_"@);
    reveal_strlit("openvas_delete_report");
    assert(catalog_spec()[21].0 == "openvas_delete_report"@);
    lemma_prefix("openvas_delete_report"@, "openvas_delete_"@);
    reveal_strlit("openvas_delete_role");
    assert(catalog_spec()[22].0 == "openvas_delete_role"@);
    lemma_prefix("openvas_delete_role"@, "openvas_delete_"@);
    reveal_strlit("openvas_delete_scan_config");
    assert(catalog_spec()[23].0 == "openvas_delete_scan_config"@);
    lemma_prefix("openvas_delete_scan_config"@, "openvas_delete_"@);
    reveal_strlit("openvas_delete_schedule");
    assert(catalog_spec()[24].0 == "openvas_delete_schedule"@);
    lemma_prefix("openvas_delete_schedule"@, "openvas_delete_"@);
    reveal_strlit("openvas_delete_target");
    assert(catalog_spec()[25].0 == "openvas_delete_target"@);
    lemma_prefix("openvas_delete_target"@, "openvas_delete_"@);
    reveal_strlit("openvas_delete_task");
    assert(catalog_spec()[26].0 == "openvas_delete_task"@);
    lemma_prefix("openvas_delete_task"@, "openvas_delete_"@);
    reveal_strlit("openvas_delete_user");
    assert(catalog_spec()[27].0 == "openvas_delete_user"@);
    lemma_prefix("openvas_delete_user"@, "openvas_delete_"@);
    reveal_strlit("openvas_download_job_result");
    assert(catalog_spec()[28].0 == "openvas_download_job_result"@);
    lemma_not_prefix("openvas_download_job_result"@, "openvas_create_"@, 8);
    lemma_not_prefix("openvas_download_job_result"@, "openvas_update_"@, 8);
    lemma_not_prefix("openvas_download_job_result"@, "openvas_delete_"@, 9);
    lemma_not_prefix("openvas_download_job_result"@, "openvas_start_"@, 8);
    lemma_not_prefix("openvas_download_job_result"@, "openvas_stop_"@, 8);
    lemma_not_prefix("openvas_download_job_result"@, "openvas_resume_"@, 8);
    lemma_not_prefix("openvas_download_job_result"@, "openvas_cancel_"@, 8);
    reveal_strlit("openvas_export_report");
    assert(catalog_spec()[29].0 == "openvas_export_report"@);
    lemma_not_prefix("openvas_export_report"@, "openvas_create_"@, 8);
    lemma_not_prefix("openvas_export_report"@, "openvas_update_"@, 8);
    lemma_not_prefix("openvas_export_report"@, "openvas_delete_"@, 8);
    lemma_not_prefix("openvas_export_report"@, "openvas_start_"@, 8);
    lemma_not_prefix("openvas_export_report"@, "openvas_stop_"@, 8);
    lemma_not_prefix("openvas_export_report"@, "openvas_resume_"@, 8);
    lemma_not_prefix("openvas_export_report"@, "openvas_cancel_"@, 8);
}

proof fn lemma_flags_3()
    ensures
        forall|i: int| 30 <= i < 40 ==> (#[trigger] catalog_spec()[i].2 <==> !mutating_name(catalog_spec()[i].0)),
{
    reveal_strlit("openvas_create_");
    reveal_strlit("openvas_update_");
    reveal_strlit("openvas_delete_");
    reveal_strlit("openvas_start_");
    reveal_strlit("openvas_stop_");
    reveal_strlit("openvas_resume_");
    reveal_strlit("openvas_cancel_");
    reveal_strlit("openvas_get_alert");
    assert(catalog_spec()[30].0 == "openvas_get_alert"@);
    lemma_not_prefix("openvas_get_alert"@, "openvas_create_"@, 8);
    lemma_not_prefix("openvas_get_alert"@, "openvas_update_"@, 8);
    lemma_not_prefix("openvas_get_alert"@, "openvas_delete_"@, 8);
    lemma_not_prefix("openvas_get_alert"@, "openvas_start_"@, 8);
    lemma_not_prefix("openvas_get_alert"@, "openvas_stop_"@, 8);
    lemma_not_prefix("openvas_get_alert"@, "openvas_resume_"@, 8);
    lemma_not_prefix("openvas_get_alert"@, "openvas_cancel_"@, 8);
    reveal_strlit("openvas_get_asset_host");
    assert(catalog_spec()[31].0 == "openvas_get_asset_host"@);
    lemma_not_prefix("openvas_get_asset_host"@, "openvas_create_"@, 8);
    lemma_not_prefix("openvas_get_asset_host"@, "openvas_update_"@, 8);
    lemma_not_prefix("openvas_get_asset_host"@, "openvas_delete_"@, 8);
    lemma_not_prefix("openvas_get_asset_host"@, "openvas_start_"@, 8);
    lemma_not_prefix("openvas_get_asset_host"@, "openvas_stop_"@, 8);
    lemma_not_prefix("openvas_get_asset_host"@, "openvas_resume_"@, 8);
    lemma_not_prefix("openvas_get_asset_host"@, "openvas_cancel_"@, 8);
    reveal_strlit("openvas_get_credential");
    assert(catalog_spec()[32].0 == "openvas_get_credential"@);
    lemma_not_prefix("openvas_get_credential"@, "openvas_create_"@, 8);
    lemma_not_prefix("openvas_get_credential"@, "openvas_update_"@, 8);
    lemma_not_prefix("openvas_get_credential"@, "openvas_delete_"@, 8);
    lemma_not_prefix("openvas_get_credential"@, "openvas_start_"@, 8);
    lemma_not_prefix("openvas_get_credential"@, "openvas_stop_"@, 8);
    lemma_not_prefix("openvas_get_credential"@, "openvas_resume_"@, 8);
    lemma_not_prefix("openvas_get_credential"@, "openvas_cancel_"@, 8);
    reveal_strlit("openvas_get_filter");
    assert(catalog_spec()[33].0 == "openvas_get_filter"@);
    lemma_not_prefix("openvas_get_filter"@, "openvas_create_"@, 8);
    lemma_not_prefix("openvas_get_filter"@, "openvas_update_"@, 8);
    lemma_not_prefix("openvas_get_filter"@, "openvas_delete_"@, 8);
    lemma_not_prefix("openvas_get_filter"@, "openvas_start_"@, 8);
    lemma_not_prefix("openvas_get_filter"@, "openvas_stop_"@, 8);
    lemma_not_prefix("openvas_get_filter"@, "openvas_resume_"@, 8);
    lemma_not_prefix("openvas_get_filter"@, "openvas_cancel_"@, 8);
    reveal_strlit("openvas_get_group");
    assert(catalog_spec()[34].0 == "openvas_get_group"@);
    lemma_not_prefix("openvas_get_group"@, "openvas_create_"@, 8);
    lemma_not_prefix("openvas_get_group"@, "openvas_update_"@, 8);
    lemma_not_prefix("openvas_get_group"@, "openvas_delete_"@, 8);
    lemma_not_prefix("openvas_get_group"@, "openvas_start_"@, 8);
    lemma_not_prefix("openvas_get_group"@, "openvas_stop_"@, 8);
    lemma_not_prefix("openvas_get_group"@, "openvas_resume_"@, 8);
    lemma_not_prefix("openvas_get_group"@, "openvas_cancel_"@, 8);
    reveal_strlit("openvas_get_job");
    assert(catalog_spec()[35].0 == "openvas_get_job"@);
    lemma_not_prefix("openvas_get_job"@, "openvas_create_"@, 8);
    lemma_not_prefix("openvas_get_job"@, "openvas_update_"@, 8);
    lemma_not_prefix("openvas_get_job"@, "openvas_delete_"@, 8);
    lemma_not_prefix("openvas_get_job"@, "openvas_start_"@, 8);
    lemma_not_prefix("openvas_get_job"@, "openvas_stop_"@, 8);
    lemma_not_prefix("openvas_get_job"@, "openvas_resume_"@, 8);
    lemma_not_prefix("openvas_get_job"@, "openvas_cancel_"@, 8);
    reveal_strlit("openvas_get_note");
    assert(catalog_spec()[36].0 == "openvas_get_note"@);
    lemma_not_prefix("openvas_get_note"@, "openvas_create_"@, 8);
    lemma_not_prefix("openvas_get_note"@, "openvas_update_"@, 8);
    lemma_not_prefix("openvas_get_note"@, "openvas_delete_"@, 8);
    lemma_not_prefix("openvas_get_note"@, "openvas_start_"@, 8);
    lemma_not_prefix("openvas_get_note"@, "openvas_stop_"@, 8);
    lemma_not_prefix("openvas_get_note"@, "openvas_resume_"@, 8);
    lemma_not_prefix("openvas_get_note"@, "openvas_cancel_"@, 8);
    reveal_strlit("openvas_get_nvt");
    assert(catalog_spec()[37].0 == "openvas_get_nvt"@);
    lemma_not_prefix("openvas_get_nvt"@, "openvas_create_"@, 8);
    lemma_not_prefix("openvas_get_nvt"@, "openvas_update_"@, 8);
    lemma_not_prefix("openvas_get_nvt"@, "openvas_delete_"@, 8);
    lemma_not_prefix("openvas_get_nvt"@, "openvas_start_"@, 8);
    lemma_not_prefix("openvas_get_nvt"@, "openvas_stop_"@, 8);
    lemma_not_prefix("openvas_get_nvt"@, "openvas_resume_"@, 8);
    lemma_not_prefix("openvas_get_nvt"@, "openvas_cancel_"@, 8);
    reveal_strlit("openvas_get_override");
    assert(catalog_spec()[38].0 == "openvas_get_override"@);
    lemma_not_prefix("openvas_get_override"@, "openvas_create_"@, 8);
    lemma_not_prefix("openvas_get_override"@, "openvas_update_"@, 8);
    lemma_not_prefix("openvas_get_override"@, "openvas_delete_"@, 8);
    lemma_not_prefix("openvas_get_override"@, "openvas_start_"@, 8);
    lemma_not_prefix("openvas_get_override"@, "openvas_stop_"@, 8);
    lemma_not_prefix("openvas_get_override"@, "openvas_resume_"@, 8);
    lemma_not_prefix("openvas_get_override"@, "openvas_cancel_"@, 8);
    reveal_strlit("openvas_get_permission");
    assert(catalog_spec()[39].0 == "openvas_get_permission"@);
    lemma_not_prefix("openvas_get_permission"@, "openvas_create_"@, 8);
    lemma_not_prefix("openvas_get_permission"@, "openvas_update_"@, 8);
    lemma_not_prefix("openvas_get_permission"@, "openvas_delete_"@, 8);
    lemma_not_prefix("openvas_get_permission"@, "openvas_start_"@, 8);
    lemma_not_prefix("openvas_get_permission"@, "openvas_stop_"@, 8);
    lemma_not_prefix("openvas_get_permission"@, "openvas_resume_"@, 8);
    lemma_not_prefix("openvas_get_permission"@, "openvas_cancel_"@, 8);
}

proof fn lemma_flags_4()
    ensures
        forall|i: int| 40 <= i < 50 ==> (#[trigger] catalog_spec()[i].2 <==> !mutating_name(catalog_spec()[i].0)),
{
    reveal_strlit("openvas_create_");
    reveal_strlit("openvas_update_");
    reveal_strlit("openvas_delete_");
    reveal_strlit("openvas_start_");
    reveal_strlit("openvas_stop_");
    reveal_strlit("openvas_resume_");
    reveal_strlit("openvas_cancel_");
    reveal_strlit("openvas_get_port_list");
    assert(catalog_spec()[40].0 == "openvas_get_port_list"@);
    lemma_not_prefix("openvas_get_port_list"@, "openvas_create_"@, 8);
    lemma_not_prefix("openvas_get_port_list"@, "openvas_update_"@, 8);
    lemma_not_prefix("openvas_get_port_list"@, "openvas_delete_"@, 8);
    lemma_not_prefix("openvas_get_port_list"@, "openvas_start_"@, 8);
    lemma_not_prefix("openvas_get_port_list"@, "openvas_stop_"@, 8);
    lemma_not_prefix("openvas_get_port_list"@, "openvas_resume_"@, 8);
    lemma_not_prefix("openvas_get_port_list"@, "openvas_cancel_"@, 8);
    reveal_strlit("openvas_get_report");
    assert(catalog_spec()[41].0 == "openvas_get_report"@);
    lemma_not_prefix("openvas_get_report"@, "openvas_create_"@, 8);
    lemma_not_prefix("openvas_get_report"@, "openvas_update_"@, 8);
    lemma_not_prefix("openvas_get_report"@, "openvas_delete_"@, 8);
    lemma_not_prefix("openvas_get_report"@, "openvas_start_"@, 8);
    lemma_not_prefix("openvas_get_report"@, "openvas_stop_"@, 8);
    lemma_not_prefix("openvas_get_report"@, "openvas_resume_"@, 8);
    lemma_not_prefix("openvas_get_report"@, "openvas_cancel_"@, 8);
    reveal_strlit("openvas_get_report_closed_cves");
    assert(catalog_spec()[42].0 == "openvas_get_report_closed_cves"@);
    lemma_not_prefix("openvas_get_report_closed_cves"@, "openvas_create_"@, 8);
    lemma_not_prefix("openvas_get_report_closed_cves"@, "openvas_update_"@, 8);
    lemma_not_prefix("openvas_get_report_closed_cves"@, "openvas_delete_"@, 8);
    lemma_not_prefix("openvas_get_report_closed_cves"@, "openvas_start_"@, 8);
    lemma_not_prefix("openvas_get_report_closed_cves"@, "openvas_stop_"@, 8);
    lemma_not_prefix("openvas_get_report_closed_cves"@, "openvas_resume_"@, 8);
    lemma_not_prefix("openvas_get_report_closed_cves"@, "openvas_cancel_"@, 8);
    reveal_strlit("openvas_get_report_errors");
    assert(catalog_spec()[43].0 == "openvas_get_report_errors"@);
    lemma_not_prefix("openvas_get_report_errors"@, "openvas_create_"@, 8);
    lemma_not_prefix("openvas_get_report_errors"@, "openvas_update_"@, 8);
    lemma_not_prefix("openvas_get_report_errors"@, "openvas_delete_"@, 8);
    lemma_not_prefix("openvas_get_report_errors"@, "openvas_start_"@, 8);
    lemma_not_prefix("openvas_get_report_errors"@, "openvas_stop_"@, 8);
    lemma_not_prefix("openvas_get_report_errors"@, "openvas_resume_"@, 8);
    lemma_not_prefix("openvas_get_report_errors"@, "openvas_cancel_"@, 8);
    reveal_strlit("openvas_get_report_format");
    assert(catalog_spec()[44].0 == "openvas_get_report_format"@);
    lemma_not_prefix("openvas_get_report_format"@, "openvas_create_"@, 8);
    lemma_not_prefix("openvas_get_report_format"@, "openvas_update_"@, 8);
    lemma_not_prefix("openvas_get_report_format"@, "openvas_delete_"@, 8);
    lemma_not_prefix("openvas_get_report_format"@, "openvas_start_"@, 8);
    lemma_not_prefix("openvas_get_report_format"@, "openvas_stop_"@, 8);
    lemma_not_prefix("openvas_get_report_format"@, "openvas_resume_"@, 8);
    lemma_not_prefix("openvas_get_report_format"@, "openvas_cancel_"@, 8);
    reveal_strlit("openvas_get_report_results");
    assert(catalog_spec()[45].0 == "openvas_get_report_results"@);
    lemma_not_prefix("openvas_get_report_results"@, "openvas_create_"@, 8);
    lemma_not_prefix("openvas_get_report_results"@, "openvas_update_"@, 8);
    lemma_not_prefix("openvas_get_report_results"@, "openvas_delete_"@, 8);
    lemma_not_prefix("openvas_get_report_results"@, "openvas_start_"@, 8);
    lemma_not_prefix("openvas_get_report_results"@, "openvas_stop_"@, 8);
    lemma_not_prefix("openvas_get_report_results"@, "openvas_resume_"@, 8);
    lemma_not_prefix("openvas_get_report_results"@, "openvas_cancel_"@, 8);
    reveal_strlit("openvas_get_report_tls_certificates");
    assert(catalog_spec()[46].0 == "openvas_get_report_tls_certificates"@);
    lemma_not_prefix("openvas_get_report_tls_certificates"@, "openvas_create_"@, 8);
    lemma_not_prefix("openvas_get_report_tls_certificates"@, "openvas_update_"@, 8);
    lemma_not_prefix("openvas_get_report_tls_certificates"@, "openvas_delete_"@, 8);
    lemma_not_prefix("openvas_get_report_tls_certificates"@, "openvas_start_"@, 8);
    lemma_not_prefix("openvas_get_report_tls_certificates"@, "openvas_stop_"@, 8);
    lemma_not_prefix("openvas_get_report_tls_certificates"@, "openvas_resume_"@, 8);
    lemma_not_prefix("openvas_get_report_tls_certificates"@, "openvas_cancel_"@, 8);
    reveal_strlit("openvas_get_report_vulnerabilities");
    assert(catalog_spec()[47].0 == "openvas_get_report_vulnerabilities"@);
    lemma_not_prefix("openvas_get_report_vulnerabilities"@, "openvas_create_"@, 8);
    lemma_not_prefix("openvas_get_report_vulnerabilities"@, "openvas_update_"@, 8);
    lemma_not_prefix("openvas_get_report_vulnerabilities"@, "openvas_delete_"@, 8);
    lemma_not_prefix("openvas_get_report_vulnerabilities"@, "openvas_start_"@, 8);
    lemma_not_prefix("openvas_get_report_vulnerabilities"@, "openvas_stop_"@, 8);
    lemma_not_prefix("openvas_get_report_vulnerabilities"@, "openvas_resume_"@, 8);
    lemma_not_prefix("openvas_get_report_vulnerabilities"@, "openvas_cancel_"@, 8);
    reveal_strlit("openvas_get_result");
    assert(catalog_spec()[48].0 == "openvas_get_result"@);
    lemma_not_prefix("openvas_get_result"@, "openvas_create_"@, 8);
    lemma_not_prefix("openvas_get_result"@, "openvas_update_"@, 8);
    lemma_not_prefix("openvas_get_result"@, "openvas_delete_"@, 8);
    lemma_not_prefix("openvas_get_result"@, "openvas_start_"@, 8);
    lemma_not_prefix("openvas_get_result"@, "openvas_stop_"@, 8);
    lemma_not_prefix("openvas_get_result"@, "openvas_resume_"@, 8);
    lemma_not_prefix("openvas_get_result"@, "openvas_cancel_"@, 8);
    reveal_strlit("openvas_get_role");
    assert(catalog_spec()[49].0 == "openvas_get_role"@);
    lemma_not_prefix("openvas_get_role"@, "openvas_create_"@, 8);
    lemma_not_prefix("openvas_get_role"@, "openvas_update_"@, 8);
    lemma_not_prefix("openvas_get_role"@, "openvas_delete_"@, 8);
    lemma_not_prefix("openvas_get_role"@, "openvas_start_"@, 8);
    lemma_not_prefix("openvas_get_role"@, "openvas_stop_"@, 8);
    lemma_not_prefix("openvas_get_role"@, "openvas_resume_"@, 8);
    lemma_not_prefix("openvas_get_role"@, "openvas_cancel_"@, 8);
}

proof fn lemma_flags_5()
    ensures
        forall|i: int| 50 <= i < 60 ==> (#[trigger] catalog_spec()[i].2 <==> !mutating_name(catalog_spec()[i].0)),
{
    reveal_strlit("openvas_create_");
    reveal_strlit("openvas_update_");
    reveal_strlit("openvas_delete_");
    reveal_strlit("openvas_start_");
    reveal_strlit("openvas_stop_");
    reveal_strlit("openvas_resume_");
    reveal_strlit("openvas_cancel_");
    reveal_strlit("openvas_get_scan_config");
    assert(catalog_spec()[50].0 == "openvas_get_scan_config"@);
    lemma_not_prefix("openvas_get_scan_config"@, "openvas_create_"@, 8);
    lemma_not_prefix("openvas_get_scan_config"@, "openvas_update_"@, 8);
    lemma_not_prefix("openvas_get_scan_config"@, "openvas_delete_"@, 8);
    lemma_not_prefix("openvas_get_scan_config"@, "openvas_start_"@, 8);
    lemma_not_prefix("openvas_get_scan_config"@, "openvas_stop_"@, 8);
    lemma_not_prefix("openvas_get_scan_config"@, "openvas_resume_"@, 8);
    lemma_not_prefix("openvas_get_scan_config"@, "openvas_cancel_"@, 8);
    reveal_strlit("openvas_get_scanner");
    assert(catalog_spec()[51].0 == "openvas_get_scanner"@);
    lemma_not_prefix("openvas_get_scanner"@, "openvas_create_"@, 8);
    lemma_not_prefix("openvas_get_scanner"@, "openvas_update_"@, 8);
    lemma_not_prefix("openvas_get_scanner"@, "openvas_delete_"@, 8);
    lemma_not_prefix("openvas_get_scanner"@, "openvas_start_"@, 8);
    lemma_not_prefix("openvas_get_scanner"@, "openvas_stop_"@, 8);
    lemma_not_prefix("openvas_get_scanner"@, "openvas_resume_"@, 8);
    lemma_not_prefix("openvas_get_scanner"@, "openvas_cancel_"@, 8);
    reveal_strlit("openvas_get_schedule");
    assert(catalog_spec()[52].0 == "openvas_get_schedule"@);
    lemma_not_prefix("openvas_get_schedule"@, "openvas_create_"@, 8);
    lemma_not_prefix("openvas_get_schedule"@, "openvas_update_"@, 8);
    lemma_not_prefix("openvas_get_schedule"@, "openvas_delete_"@, 8);
    lemma_not_prefix("openvas_get_schedule"@, "openvas_start_"@, 8);
    lemma_not_prefix("openvas_get_schedule"@, "openvas_stop_"@, 8);
    lemma_not_prefix("openvas_get_schedule"@, "openvas_resume_"@, 8);
    lemma_not_prefix("openvas_get_schedule"@, "openvas_cancel_"@, 8);
    reveal_strlit("openvas_get_tag");
    assert(catalog_spec()[53].0 == "openvas_get_tag"@);
    lemma_not_prefix("openvas_get_tag"@, "openvas_create_"@, 8);
    lemma_not_prefix("openvas_get_tag"@, "openvas_update_"@, 8);
    lemma_not_prefix("openvas_get_tag"@, "openvas_delete_"@, 8);
    lemma_not_prefix("openvas_get_tag"@, "openvas_start_"@, 8);
    lemma_not_prefix("openvas_get_tag"@, "openvas_stop_"@, 8);
    lemma_not_prefix("openvas_get_tag"@, "openvas_resume_"@, 8);
    lemma_not_prefix("openvas_get_tag"@, "openvas_cancel_"@, 8);
    reveal_strlit("openvas_get_target");
    assert(catalog_spec()[54].0 == "openvas_get_target"@);
    lemma_not_prefix("openvas_get_target"@, "openvas_create_"@, 8);
    lemma_not_prefix("openvas_get_target"@, "openvas_update_"@, 8);
    lemma_not_prefix("openvas_get_target"@, "openvas_delete_"@, 8);
    lemma_not_prefix("openvas_get_target"@, "openvas_start_"@, 8);
    lemma_not_prefix("openvas_get_target"@, "openvas_stop_"@, 8);
    lemma_not_prefix("openvas_get_target"@, "openvas_resume_"@, 8);
    lemma_not_prefix("openvas_get_target"@, "openvas_cancel_"@, 8);
    reveal_strlit("openvas_get_task");
    assert(catalog_spec()[55].0 == "openvas_get_task"@);
    lemma_not_prefix("openvas_get_task"@, "openvas_create_"@, 8);
    lemma_not_prefix("openvas_get_task"@, "openvas_update_"@, 8);
    lemma_not_prefix("openvas_get_task"@, "openvas_delete_"@, 8);
    lemma_not_prefix("openvas_get_task"@, "openvas_start_"@, 8);
    lemma_not_prefix("openvas_get_task"@, "openvas_stop_"@, 8);
    lemma_not_prefix("openvas_get_task"@, "openvas_resume_"@, 8);
    lemma_not_prefix("openvas_get_task"@, "openvas_cancel_"@, 8);
    reveal_strlit("openvas_get_user");
    assert(catalog_spec()[56].0 == "openvas_get_user"@);
    lemma_not_prefix("openvas_get_user"@, "openvas_create_"@, 8);
    lemma_not_prefix("openvas_get_user"@, "openvas_update_"@, 8);
    lemma_not_prefix("openvas_get_user"@, "openvas_delete_"@, 8);
    lemma_not_prefix("openvas_get_user"@, "openvas_start_"@, 8);
    lemma_not_prefix("openvas_get_user"@, "openvas_stop_"@, 8);
    lemma_not_prefix("openvas_get_user"@, "openvas_resume_"@, 8);
    lemma_not_prefix("openvas_get_user"@, "openvas_cancel_"@, 8);
    reveal_strlit("openvas_get_user_setting");
    assert(catalog_spec()[57].0 == "openvas_get_user_setting"@);
    lemma_not_prefix("openvas_get_user_setting"@, "openvas_create_"@, 8);
    lemma_not_prefix("openvas_get_user_setting"@, "openvas_update_"@, 8);
    lemma_not_prefix("openvas_get_user_setting"@, "openvas_delete_"@, 8);
    lemma_not_prefix("openvas_get_user_setting"@, "openvas_start_"@, 8);
    lemma_not_prefix("openvas_get_user_setting"@, "openvas_stop_"@, 8);
    lemma_not_prefix("openvas_get_user_setting"@, "openvas_resume_"@, 8);
    lemma_not_prefix("openvas_get_user_setting"@, "openvas_cancel_"@, 8);
    reveal_strlit("openvas_get_version");
    assert(catalog_spec()[58].0 == "openvas_get_version"@);
    lemma_not_prefix("openvas_get_version"@, "openvas_create_"@, 8);
    lemma_not_prefix("openvas_get_version"@, "openvas_update_"@, 8);
    lemma_not_prefix("openvas_get_version"@, "openvas_delete_"@, 8);
    lemma_not_prefix("openvas_get_version"@, "openvas_start_"@, 8);
    lemma_not_prefix("openvas_get_version"@, "openvas_stop_"@, 8);
    lemma_not_prefix("openvas_get_version"@, "openvas_resume_"@, 8);
    lemma_not_prefix("openvas_get_version"@, "openvas_cancel_"@, 8);
    reveal_strlit("openvas_list_alerts");
    assert(catalog_spec()[59].0 == "openvas_list_alerts"@);
    lemma_not_prefix("openvas_list_alerts"@, "openvas_create_"@, 8);
    lemma_not_prefix("openvas_list_alerts"@, "openvas_update_"@, 8);
    lemma_not_prefix("openvas_list_alerts"@, "openvas_delete_"@, 8);
    lemma_not_prefix("openvas_list_alerts"@, "openvas_start_"@, 8);
    lemma_not_prefix("openvas_list_alerts"@, "openvas_stop_"@, 8);
    lemma_not_prefix("openvas_list_alerts"@, "openvas_resume_"@, 8);
    lemma_not_prefix("openvas_list_alerts"@, "openvas_cancel_"@, 8);
}

proof fn lemma_flags_6()
    ensures
        forall|i: int| 60 <= i < 70 ==> (#[trigger] catalog_spec()[i].2 <==> !mutating_name(catalog_spec()[i].0)),
{
    reveal_strlit("openvas_create_");
    reveal_strlit("openvas_update_");
    reveal_strlit("openvas_delete_");
    reveal_strlit("openvas_start_");
    reveal_strlit("openvas_stop_");
    reveal_strlit("openvas_resume_");
    reveal_strlit("openvas_cancel_");
    reveal_strlit("openvas_list_asset_hosts");
    assert(catalog_spec()[60].0 == "openvas_list_asset_hosts"@);
    lemma_not_prefix("openvas_list_asset_hosts"@, "openvas_create_"@, 8);
    lemma_not_prefix("openvas_list_asset_hosts"@, "openvas_update_"@, 8);
    lemma_not_prefix("openvas_list_asset_hosts"@, "openvas_delete_"@, 8);
    lemma_not_prefix("openvas_list_asset_hosts"@, "openvas_start_"@, 8);
    lemma_not_prefix("openvas_list_asset_hosts"@, "openvas_stop_"@, 8);
    lemma_not_prefix("openvas_list_asset_hosts"@, "openvas_resume_"@, 8);
    lemma_not_prefix("openvas_list_asset_hosts"@, "openvas_cancel_"@, 8);
    reveal_strlit("openvas_list_credential_stores");
    assert(catalog_spec()[61].0 == "openvas_list_credential_stores"@);
    lemma_not_prefix("openvas_list_credential_stores"@, "openvas_create_"@, 8);
    lemma_not_prefix("openvas_list_credential_stores"@, "openvas_update_"@, 8);
    lemma_not_prefix("openvas_list_credential_stores"@, "openvas_delete_"@, 8);
    lemma_not_prefix("openvas_list_credential_stores"@, "openvas_start_"@, 8);
    lemma_not_prefix("openvas_list_credential_stores"@, "openvas_stop_"@, 8);
    lemma_not_prefix("openvas_list_credential_stores"@, "openvas_resume_"@, 8);
    lemma_not_prefix("openvas_list_credential_stores"@, "openvas_cancel_"@, 8);
    reveal_strlit("openvas_list_credentials");
    assert(catalog_spec()[62].0 == "openvas_list_credentials"@);
    lemma_not_prefix("openvas_list_credentials"@, "openvas_create_"@, 8);
    lemma_not_prefix("openvas_list_credentials"@, "openvas_update_"@, 8);
    lemma_not_prefix("openvas_list_credentials"@, "openvas_delete_"@, 8);
    lemma_not_prefix("openvas_list_credentials"@, "openvas_start_"@, 8);
    lemma_not_prefix("openvas_list_credentials"@, "openvas_stop_"@, 8);
    lemma_not_prefix("openvas_list_credentials"@, "openvas_resume_"@, 8);
    lemma_not_prefix("openvas_list_credentials"@, "openvas_cancel_"@, 8);
    reveal_strlit("openvas_list_feeds");
    assert(catalog_spec()[63].0 == "openvas_list_feeds"@);
    lemma_not_prefix("openvas_list_feeds"@, "openvas_create_"@, 8);
    lemma_not_prefix("openvas_list_feeds"@, "openvas_update_"@, 8);
    lemma_not_prefix("openvas_list_feeds"@, "openvas_delete_"@, 8);
    lemma_not_prefix("openvas_list_feeds"@, "openvas_start_"@, 8);
    lemma_not_prefix("openvas_list_feeds"@, "openvas_stop_"@, 8);
    lemma_not_prefix("openvas_list_feeds"@, "openvas_resume_"@, 8);
    lemma_not_prefix("openvas_list_feeds"@, "openvas_cancel_"@, 8);
    reveal_strlit("openvas_list_filters");
    assert(catalog_spec()[64].0 == "openvas_list_filters"@);
    lemma_not_prefix("openvas_list_filters"@, "openvas_create_"@, 8);
    lemma_not_prefix("openvas_list_filters"@, "openvas_update_"@, 8);
    lemma_not_prefix("openvas_list_filters"@, "openvas_delete_"@, 8);
    lemma_not_prefix("openvas_list_filters"@, "openvas_start_"@, 8);
    lemma_not_prefix("openvas_list_filters"@, "openvas_stop_"@, 8);
    lemma_not_prefix("openvas_list_filters"@, "openvas_resume_"@, 8);
    lemma_not_prefix("openvas_list_filters"@, "openvas_cancel_"@, 8);
    reveal_strlit("openvas_list_groups");
    assert(catalog_spec()[65].0 == "openvas_list_groups"@);
    lemma_not_prefix("openvas_list_groups"@, "openvas_create_"@, 8);
    lemma_not_prefix("openvas_list_groups"@, "openvas_update_"@, 8);
    lemma_not_prefix("openvas_list_groups"@, "openvas_delete_"@, 8);
    lemma_not_prefix("openvas_list_groups"@, "openvas_start_"@, 8);
    lemma_not_prefix("openvas_list_groups"@, "openvas_stop_"@, 8);
    lemma_not_prefix("openvas_list_groups"@, "openvas_resume_"@, 8);
    lemma_not_prefix("openvas_list_groups"@, "openvas_cancel_"@, 8);
    reveal_strlit("openvas_list_notes");
    assert(catalog_spec()[66].0 == "openvas_list_notes"@);
    lemma_not_prefix("openvas_list_notes"@, "openvas_create_"@, 8);
    lemma_not_prefix("openvas_list_notes"@, "openvas_update_"@, 8);
    lemma_not_prefix("openvas_list_notes"@, "openvas_delete_"@, 8);
    lemma_not_prefix("openvas_list_notes"@, "openvas_start_"@, 8);
    lemma_not_prefix("openvas_list_notes"@, "openvas_stop_"@, 8);
    lemma_not_prefix("openvas_list_notes"@, "openvas_resume_"@, 8);
    lemma_not_prefix("openvas_list_notes"@, "openvas_cancel_"@, 8);
    reveal_strlit("openvas_list_nvt_families");
    assert(catalog_spec()[67].0 == "openvas_list_nvt_families"@);
    lemma_not_prefix("openvas_list_nvt_families"@, "openvas_create_"@, 8);
    lemma_not_prefix("openvas_list_nvt_families"@, "openvas_update_"@, 8);
    lemma_not_prefix("openvas_list_nvt_families"@, "openvas_delete_"@, 8);
    lemma_not_prefix("openvas_list_nvt_families"@, "openvas_start_"@, 8);
    lemma_not_prefix("openvas_list_nvt_families"@, "openvas_stop_"@, 8);
    lemma_not_prefix("openvas_list_nvt_families"@, "openvas_resume_"@, 8);
    lemma_not_prefix("openvas_list_nvt_families"@, "openvas_cancel_"@, 8);
    reveal_strlit("openvas_list_overrides");
    assert(catalog_spec()[68].0 == "openvas_list_overrides"@);
    lemma_not_prefix("openvas_list_overrides"@, "openvas_create_"@, 8);
    lemma_not_prefix("openvas_list_overrides"@, "openvas_update_"@, 8);
    lemma_not_prefix("openvas_list_overrides"@, "openvas_delete_"@, 8);
    lemma_not_prefix("openvas_list_overrides"@, "openvas_start_"@, 8);
    lemma_not_prefix("openvas_list_overrides"@, "openvas_stop_"@, 8);
    lemma_not_prefix("openvas_list_overrides"@, "openvas_resume_"@, 8);
    lemma_not_prefix("openvas_list_overrides"@, "openvas_cancel_"@, 8);
    reveal_strlit("openvas_list_permissions");
    assert(catalog_spec()[69].0 == "openvas_list_permissions"@);
    lemma_not_prefix("openvas_list_permissions"@, "openvas_create_"@, 8);
    lemma_not_prefix("openvas_list_permissions"@, "openvas_update_"@, 8);
    lemma_not_prefix("openvas_list_permissions"@, "openvas_delete_"@, 8);
    lemma_not_prefix("openvas_list_permissions"@, "openvas_start_"@, 8);
    lemma_not_prefix("openvas_list_permissions"@, "openvas_stop_"@, 8);
    lemma_not_prefix("openvas_list_permissions"@, "openvas_resume_"@, 8);
    lemma_not_prefix("openvas_list_permissions"@, "openvas_cancel_"@, 8);
}

proof fn lemma_flags_7()
    ensures
        forall|i: int| 70 <= i < 80 ==> (#[trigger] catalog_spec()[i].2 <==> !mutating_name(catalog_spec()[i].0)),
{
    reveal_strlit("openvas_create_");
    reveal_strlit("openvas_update_");
    reveal_strlit("openvas_delete_");
    reveal_strlit("openvas_start_");
    reveal_strlit("openvas_stop_");
    reveal_strlit("openvas_resume_");
    reveal_strlit("openvas_cancel_");
    reveal_strlit("openvas_list_port_lists");
    assert(catalog_spec()[70].0 == "openvas_list_port_lists"@);
    lemma_not_prefix("openvas_list_port_lists"@, "openvas_create_"@, 8);
    lemma_not_prefix("openvas_list_port_lists"@, "openvas_update_"@, 8);
    lemma_not_prefix("openvas_list_port_lists"@, "openvas_delete_"@, 8);
    lemma_not_prefix("openvas_list_port_lists"@, "openvas_start_"@, 8);
    lemma_not_prefix("openvas_list_port_lists"@, "openvas_stop_"@, 8);
    lemma_not_prefix("openvas_list_port_lists"@, "openvas_resume_"@, 8);
    lemma_not_prefix("openvas_list_port_lists"@, "openvas_cancel_"@, 8);
    reveal_strlit("openvas_list_report_formats");
    assert(catalog_spec()[71].0 == "openvas_list_report_formats"@);
    lemma_not_prefix("openvas_list_report_formats"@, "openvas_create_"@, 8);
    lemma_not_prefix("openvas_list_report_formats"@, "openvas_update_"@, 8);
    lemma_not_prefix("openvas_list_report_formats"@, "openvas_delete_"@, 8);
    lemma_not_prefix("openvas_list_report_formats"@, "openvas_start_"@, 8);
    lemma_not_prefix("openvas_list_report_formats"@, "openvas_stop_"@, 8);
    lemma_not_prefix("openvas_list_report_formats"@, "openvas_resume_"@, 8);
    lemma_not_prefix("openvas_list_report_formats"@, "openvas_cancel_"@, 8);
    reveal_strlit("openvas_list_reports");
    assert(catalog_spec()[72].0 == "openvas_list_reports"@);
    lemma_not_prefix("openvas_list_reports"@, "openvas_create_"@, 8);
    lemma_not_prefix("openvas_list_reports"@, "openvas_update_"@, 8);
    lemma_not_prefix("openvas_list_reports"@, "openvas_delete_"@, 8);
    lemma_not_prefix("openvas_list_reports"@, "openvas_start_"@, 8);
    lemma_not_prefix("openvas_list_reports"@, "openvas_stop_"@, 8);
    lemma_not_prefix("openvas_list_reports"@, "openvas_resume_"@, 8);
    lemma_not_prefix("openvas_list_reports"@, "openvas_cancel_"@, 8);
    reveal_strlit("openvas_list_results");
    assert(catalog_spec()[73].0 == "openvas_list_results"@);
    lemma_not_prefix("openvas_list_results"@, "openvas_create_"@, 8);
    lemma_not_prefix("openvas_list_results"@, "openvas_update_"@, 8);
    lemma_not_prefix("openvas_list_results"@, "openvas_delete_"@, 8);
    lemma_not_prefix("openvas_list_results"@, "openvas_start_"@, 8);
    lemma_not_prefix("openvas_list_results"@, "openvas_stop_"@, 8);
    lemma_not_prefix("openvas_list_results"@, "openvas_resume_"@, 8);
    lemma_not_prefix("openvas_list_results"@, "openvas_cancel_"@, 8);
    reveal_strlit("openvas_list_roles");
    assert(catalog_spec()[74].0 == "openvas_list_roles"@);
    lemma_not_prefix("openvas_list_roles"@, "openvas_create_"@, 8);
    lemma_not_prefix("openvas_list_roles"@, "openvas_update_"@, 8);
    lemma_not_prefix("openvas_list_roles"@, "openvas_delete_"@, 8);
    lemma_not_prefix("openvas_list_roles"@, "openvas_start_"@, 8);
    lemma_not_prefix("openvas_list_roles"@, "openvas_stop_"@, 8);
    lemma_not_prefix("openvas_list_roles"@, "openvas_resume_"@, 8);
    lemma_not_prefix("openvas_list_roles"@, "openvas_cancel_"@, 8);
    reveal_strlit("openvas_list_scan_configs");
    assert(catalog_spec()[75].0 == "openvas_list_scan_configs"@);
    lemma_not_prefix("openvas_list_scan_configs"@, "openvas_create_"@, 8);
    lemma_not_prefix("openvas_list_scan_configs"@, "openvas_update_"@, 8);
    lemma_not_prefix("openvas_list_scan_configs"@, "openvas_delete_"@, 8);
    lemma_not_prefix("openvas_list_scan_configs"@, "openvas_start_"@, 8);
    lemma_not_prefix("openvas_list_scan_configs"@, "openvas_stop_"@, 8);
    lemma_not_prefix("openvas_list_scan_configs"@, "openvas_resume_"@, 8);
    lemma_not_prefix("openvas_list_scan_configs"@, "openvas_cancel_"@, 8);
    reveal_strlit("openvas_list_scanners");
    assert(catalog_spec()[76].0 == "openvas_list_scanners"@);
    lemma_not_prefix("openvas_list_scanners"@, "openvas_create_"@, 8);
    lemma_not_prefix("openvas_list_scanners"@, "openvas_update_"@, 8);
    lemma_not_prefix("openvas_list_scanners"@, "openvas_delete_"@, 8);
    lemma_not_prefix("openvas_list_scanners"@, "openvas_start_"@, 8);
    lemma_not_prefix("openvas_list_scanners"@, "openvas_stop_"@, 8);
    lemma_not_prefix("openvas_list_scanners"@, "openvas_resume_"@, 8);
    lemma_not_prefix("openvas_list_scanners"@, "openvas_cancel_"@, 8);
    reveal_strlit("openvas_list_schedules");
    assert(catalog_spec()[77].0 == "openvas_list_schedules"@);
    lemma_not_prefix("openvas_list_schedules"@, "openvas_create_"@, 8);
    lemma_not_prefix("openvas_list_schedules"@, "openvas_update_"@, 8);
    lemma_not_prefix("openvas_list_schedules"@, "openvas_delete_"@, 8);
    lemma_not_prefix("openvas_list_schedules"@, "openvas_start_"@, 8);
    lemma_not_prefix("openvas_list_schedules"@, "openvas_stop_"@, 8);
    lemma_not_prefix("openvas_list_schedules"@, "openvas_resume_"@, 8);
    lemma_not_prefix("openvas_list_schedules"@, "openvas_cancel_"@, 8);
    reveal_strlit("openvas_list_tags");
    assert(catalog_spec()[78].0 == "openvas_list_tags"@);
    lemma_not_prefix("openvas_list_tags"@, "openvas_create_"@, 8);
    lemma_not_prefix("openvas_list_tags"@, "openvas_update_"@, 8);
    lemma_not_prefix("openvas_list_tags"@, "openvas_delete_"@, 8);
    lemma_not_prefix("openvas_list_tags"@, "openvas_start_"@, 8);
    lemma_not_prefix("openvas_list_tags"@, "openvas_stop_"@, 8);
    lemma_not_prefix("openvas_list_tags"@, "openvas_resume_"@, 8);
    lemma_not_prefix("openvas_list_tags"@, "openvas_cancel_"@, 8);
    reveal_strlit("openvas_list_targets");
    assert(catalog_spec()[79].0 == "openvas_list_targets"@);
    lemma_not_prefix("openvas_list_targets"@, "openvas_create_"@, 8);
    lemma_not_prefix("openvas_list_targets"@, "openvas_update_"@, 8);
    lemma_not_prefix("openvas_list_targets"@, "openvas_delete_"@, 8);
    lemma_not_prefix("openvas_list_targets"@, "openvas_start_"@, 8);
    lemma_not_prefix("openvas_list_targets"@, "openvas_stop_"@, 8);
    lemma_not_prefix("openvas_list_targets"@, "openvas_resume_"@, 8);
    lemma_not_prefix("openvas_list_targets"@, "openvas_cancel_"@, 8);
}

proof fn lemma_flags_8()
    ensures
        forall|i: int| 80 <= i < 90 ==> (#[trigger] catalog_spec()[i].2 <==> !mutating_name(catalog_spec()[i].0)),
{
    reveal_strlit("openvas_create_");
    reveal_strlit("openvas_update_");
    reveal_strlit("openvas_delete_");
    reveal_strlit("openvas_start_");
    reveal_strlit("openvas_stop_");
    reveal_strlit("openvas_resume_");
    reveal_strlit("openvas_cancel_");
    reveal_strlit("openvas_list_tasks");
    assert(catalog_spec()[80].0 == "openvas_list_tasks"@);
    lemma_not_prefix("openvas_list_tasks"@, "openvas_create_"@, 8);
    lemma_not_prefix("openvas_list_tasks"@, "openvas_update_"@, 8);
    lemma_not_prefix("openvas_list_tasks"@, "openvas_delete_"@, 8);
    lemma_not_prefix("openvas_list_tasks"@, "openvas_start_"@, 8);
    lemma_not_prefix("openvas_list_tasks"@, "openvas_stop_"@, 8);
    lemma_not_prefix("openvas_list_tasks"@, "openvas_resume_"@, 8);
    lemma_not_prefix("openvas_list_tasks"@, "openvas_cancel_"@, 8);
    reveal_strlit("openvas_list_tickets");
    assert(catalog_spec()[81].0 == "openvas_list_tickets"@);
    lemma_not_prefix("openvas_list_tickets"@, "openvas_create_"@, 8);
    lemma_not_prefix("openvas_list_tickets"@, "openvas_update_"@, 8);
    lemma_not_prefix("openvas_list_tickets"@, "openvas_delete_"@, 8);
    lemma_not_prefix("openvas_list_tickets"@, "openvas_start_"@, 8);
    lemma_not_prefix("openvas_list_tickets"@, "openvas_stop_"@, 8);
    lemma_not_prefix("openvas_list_tickets"@, "openvas_resume_"@, 8);
    lemma_not_prefix("openvas_list_tickets"@, "openvas_cancel_"@, 8);
    reveal_strlit("openvas_list_user_settings");
    assert(catalog_spec()[82].0 == "openvas_list_user_settings"@);
    lemma_not_prefix("openvas_list_user_settings"@, "openvas_create_"@, 8);
    lemma_not_prefix("openvas_list_user_settings"@, "openvas_update_"@, 8);
    lemma_not_prefix("openvas_list_user_settings"@, "openvas_delete_"@, 8);
    lemma_not_prefix("openvas_list_user_settings"@, "openvas_start_"@, 8);
    lemma_not_prefix("openvas_list_user_settings"@, "openvas_stop_"@, 8);
    lemma_not_prefix("openvas_list_user_settings"@, "openvas_resume_"@, 8);
    lemma_not_prefix("openvas_list_user_settings"@, "openvas_cancel_"@, 8);
    reveal_strlit("openvas_list_users");
    assert(catalog_spec()[83].0 == "openvas_list_users"@);
    lemma_not_prefix("openvas_list_users"@, "openvas_create_"@, 8);
    lemma_not_prefix("openvas_list_users"@, "openvas_update_"@, 8);
    lemma_not_prefix("openvas_list_users"@, "openvas_delete_"@, 8);
    lemma_not_prefix("openvas_list_users"@, "openvas_start_"@, 8);
    lemma_not_prefix("openvas_list_users"@, "openvas_stop_"@, 8);
    lemma_not_prefix("openvas_list_users"@, "openvas_resume_"@, 8);
    lemma_not_prefix("openvas_list_users"@, "openvas_cancel_"@, 8);
    reveal_strlit("openvas_resume_task");
    assert(catalog_spec()[84].0 == "openvas_resume_task"@);
    lemma_prefix("openvas_resume_task"@, "openvas_resume_"@);
    reveal_strlit("openvas_search_nvts");
    assert(catalog_spec()[85].0 == "openvas_search_nvts"@);
    lemma_not_prefix("openvas_search_nvts"@, "openvas_create_"@, 8);
    lemma_not_prefix("openvas_search_nvts"@, "openvas_update_"@, 8);
    lemma_not_prefix("openvas_search_nvts"@, "openvas_delete_"@, 8);
    lemma_not_prefix("openvas_search_nvts"@, "openvas_start_"@, 9);
    lemma_not_prefix("openvas_search_nvts"@, "openvas_stop_"@, 9);
    lemma_not_prefix("openvas_search_nvts"@, "openvas_resume_"@, 8);
    lemma_not_prefix("openvas_search_nvts"@, "openvas_cancel_"@, 8);
    reveal_strlit("openvas_start_task");
    assert(catalog_spec()[86].0 == "openvas_start_task"@);
    lemma_prefix("openvas_start_task"@, "openvas_start_"@);
    reveal_strlit("openvas_stop_task");
    assert(catalog_spec()[87].0 == "openvas_stop_task"@);
    lemma_prefix("openvas_stop_task"@, "openvas_stop_"@);
    reveal_strlit("openvas_test_connection");
    assert(catalog_spec()[88].0 == "openvas_test_connection"@);
    lemma_not_prefix("openvas_test_connection"@, "openvas_create_"@, 8);
    lemma_not_prefix("openvas_test_connection"@, "openvas_update_"@, 8);
    lemma_not_prefix("openvas_test_connection"@, "openvas_delete_"@, 8);
    lemma_not_prefix("openvas_test_connection"@, "openvas_start_"@, 8);
    lemma_not_prefix("openvas_test_connection"@, "openvas_stop_"@, 8);
    lemma_not_prefix("openvas_test_connection"@, "openvas_resume_"@, 8);
    lemma_not_prefix("openvas_test_connection"@, "openvas_cancel_"@, 8);
    reveal_strlit("openvas_update_alert");
    assert(catalog_spec()[89].0 == "openvas_update_alert"@);
    lemma_prefix("openvas_update_alert"@, "openvas_update_"@);
}

proof fn lemma_flags_9()
    ensures
        forall|i: int| 90 <= i < 100 ==> (#[trigger] catalog_spec()[i].2 <==> !mutating_name(catalog_spec()[i].0)),
{
    reveal_strlit("openvas_create_");
    reveal_strlit("openvas_update_");
    reveal_strlit("openvas_delete_");
    reveal_strlit("openvas_start_");
    reveal_strlit("openvas_stop_");
    reveal_strlit("openvas_resume_");
    reveal_strlit("openvas_cancel_");
    reveal_strlit("openvas_update_credential");
    assert(catalog_spec()[90].0 == "openvas_update_credential"@);
    lemma_prefix("openvas_update_credential"@, "openvas_update_"@);
    reveal_strlit("openvas_update_group");
    assert(catalog_spec()[91].0 == "openvas_update_group"@);
    lemma_prefix("openvas_update_group"@, "openvas_update_"@);
    reveal_strlit("openvas_update_note");
    assert(catalog_spec()[92].0 == "openvas_update_note"@);
    lemma_prefix("openvas_update_note"@, "openvas_update_"@);
    reveal_strlit("openvas_update_override");
    assert(catalog_spec()[93].0 == "openvas_update_override"@);
    lemma_prefix("openvas_update_override"@, "openvas_update_"@);
    reveal_strlit("openvas_update_permission");
    assert(catalog_spec()[94].0 == "openvas_update_permission"@);
    lemma_prefix("openvas_update_permission"@, "openvas_update_"@);
    reveal_strlit("openvas_update_port_list");
    assert(catalog_spec()[95].0 == "openvas_update_port_list"@);
    lemma_prefix("openvas_update_port_list"@, "openvas_update_"@);
    reveal_strlit("openvas_update_role");
    assert(catalog_spec()[96].0 == "openvas_update_role"@);
    lemma_prefix("openvas_update_role"@, "openvas_update_"@);
    reveal_strlit("openvas_update_scan_config");
    assert(catalog_spec()[97].0 == "openvas_update_scan_config"@);
    lemma_prefix("openvas_update_scan_config"@, "openvas_update_"@);
    reveal_strlit("openvas_update_schedule");
    assert(catalog_spec()[98].0 == "openvas_update_schedule"@);
    lemma_prefix("openvas_update_schedule"@, "openvas_update_"@);
    reveal_strlit("openvas_update_target");
    assert(catalog_spec()[99].0 == "openvas_update_target"@);
    lemma_prefix("openvas_update_target"@, "openvas_update_"@);
}

proof fn lemma_flags_10()
    ensures
        forall|i: int| 100 <= i < 103 ==> (#[trigger] catalog_spec()[i].2 <==> !mutating_name(catalog_spec()[i].0)),
{
    reveal_strlit("openvas_create_");
    reveal_strlit("openvas_update_");
    reveal_strlit("openvas_delete_");
    reveal_strlit("openvas_start_");
    reveal_strlit("openvas_stop_");
    reveal_strlit("openvas_resume_");
    reveal_strlit("openvas_cancel_");
    reveal_strlit("openvas_update_task");
    assert(catalog_spec()[100].0 == "openvas_update_task"@);
    lemma_prefix("openvas_update_task"@, "openvas_update_"@);
    reveal_strlit("openvas_update_user");
    assert(catalog_spec()[101].0 == "openvas_update_user"@);
    lemma_prefix("openvas_update_user"@, "openvas_update_"@);
    reveal_strlit("openvas_update_user_setting");
    assert(catalog_spec()[102].0 == "openvas_update_user_setting"@);
    lemma_prefix("openvas_update_user_setting"@, "openvas_update_"@);
}

/// A tool only reads exactly when its name does not create, update,
/// delete, start, stop, resume or cancel anything: every mutating tool is
/// marked as a write.
pub proof fn law_read_only_flags_follow_the_names()
    ensures
        forall|i: int| 0 <= i < catalog_spec().len() ==> (#[trigger] catalog_spec()[i].2 <==> !mutating_name(catalog_spec()[i].0)),
{
    lemma_flags_0();
    lemma_flags_1();
    lemma_flags_2();
    lemma_flags_3();
    lemma_flags_4();
    lemma_flags_5();
    lemma_flags_6();
    lemma_flags_7();
    lemma_flags_8();
    lemma_flags_9();
    lemma_flags_10();
}

/// In read-only mode no exposed tool creates, updates, deletes, starts,
/// stops, resumes or cancels anything, whatever toolsets are selected.
pub proof fn law_read_only_exposes_no_mutating_tool(selection: Set<Toolset>)
    ensures
        forall|i: int| 0 <= i < exposed_entries(selection, true).len() ==> !mutating_name(
            #[trigger] exposed_entries(selection, true)[i].0,
        ),
{
    law_read_only_flags_follow_the_names();
    assert forall|i: int| 0 <= i < exposed_entries(selection, true).len() implies !mutating_name(
        #[trigger] exposed_entries(selection, true)[i].0,
    ) by {
        let e = exposed_entries(selection, true)[i];
        catalog_spec().lemma_filter_pred(exposure(selection, true), i);
        assert(exposed_entries(selection, true).contains(e));
        catalog_spec().lemma_filter_contains_rev(exposure(selection, true), e);
        let j = choose|j: int| 0 <= j < catalog_spec().len() && catalog_spec()[j] == e;
        assert(catalog_spec()[j].2);
    }
}


} // verus!
