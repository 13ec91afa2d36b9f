//! Toolset grouping and gating.
//!
//! The full gateway surface is far too large to expose to an LLM by
//! default. Tools are grouped into toolsets selectable via `--toolsets`;
//! the identity toolset is always opt-in, and the system toolset (which
//! carries the connection test) is always on.

use vstd::prelude::*;
use crate::text::{
    ascii_lower_seq, join_spec, push_char, str_equal, to_ascii_lowercase, trim, trim_spec,
};

verus! {

/// One toolset, roughly one gateway resource family.
#[derive(Debug, Clone, Copy, PartialEq, Eq, PartialOrd, Ord, Hash, Structural)]
pub enum Toolset {
    System,
    Targets,
    Tasks,
    ScanConfigs,
    Scanners,
    Schedules,
    Credentials,
    Alerts,
    PortLists,
    Results,
    Reports,
    Assets,
    TlsCertificates,
    ReportFormats,
    Filters,
    Tags,
    Notes,
    Overrides,
    Nvts,
    Vulnerabilities,
    Feeds,
    Tickets,
    Compliance,
    Identity,
}

/// Number of toolsets.
pub const TOOLSET_COUNT: usize = 24;

/// Every toolset, in declaration order.
pub open spec fn all_toolsets() -> Seq<Toolset> {
    seq![
        Toolset::System,
        Toolset::Targets,
        Toolset::Tasks,
        Toolset::ScanConfigs,
        Toolset::Scanners,
        Toolset::Schedules,
        Toolset::Credentials,
        Toolset::Alerts,
        Toolset::PortLists,
        Toolset::Results,
        Toolset::Reports,
        Toolset::Assets,
        Toolset::TlsCertificates,
        Toolset::ReportFormats,
        Toolset::Filters,
        Toolset::Tags,
        Toolset::Notes,
        Toolset::Overrides,
        Toolset::Nvts,
        Toolset::Vulnerabilities,
        Toolset::Feeds,
        Toolset::Tickets,
        Toolset::Compliance,
        Toolset::Identity,
    ]
}

/// The toolsets enabled when no explicit selection is given: all but identity.
pub open spec fn default_set() -> Set<Toolset> {
    Set::new(|t: Toolset| t != Toolset::Identity)
}

impl Toolset {
    /// Position of the toolset in declaration order.
    pub open spec fn index(self) -> int {
        match self {
            Toolset::System => 0,
            Toolset::Targets => 1,
            Toolset::Tasks => 2,
            Toolset::ScanConfigs => 3,
            Toolset::Scanners => 4,
            Toolset::Schedules => 5,
            Toolset::Credentials => 6,
            Toolset::Alerts => 7,
            Toolset::PortLists => 8,
            Toolset::Results => 9,
            Toolset::Reports => 10,
            Toolset::Assets => 11,
            Toolset::TlsCertificates => 12,
            Toolset::ReportFormats => 13,
            Toolset::Filters => 14,
            Toolset::Tags => 15,
            Toolset::Notes => 16,
            Toolset::Overrides => 17,
            Toolset::Nvts => 18,
            Toolset::Vulnerabilities => 19,
            Toolset::Feeds => 20,
            Toolset::Tickets => 21,
            Toolset::Compliance => 22,
            Toolset::Identity => 23,
        }
    }

    /// The selection name of the toolset.
    pub open spec fn spec_name(self) -> Seq<char> {
        match self {
            Toolset::System => "system"@,
            Toolset::Targets => "targets"@,
            Toolset::Tasks => "tasks"@,
            Toolset::ScanConfigs => "scan-configs"@,
            Toolset::Scanners => "scanners"@,
            Toolset::Schedules => "schedules"@,
            Toolset::Credentials => "credentials"@,
            Toolset::Alerts => "alerts"@,
            Toolset::PortLists => "port-lists"@,
            Toolset::Results => "results"@,
            Toolset::Reports => "reports"@,
            Toolset::Assets => "assets"@,
            Toolset::TlsCertificates => "tls-certificates"@,
            Toolset::ReportFormats => "report-formats"@,
            Toolset::Filters => "filters"@,
            Toolset::Tags => "tags"@,
            Toolset::Notes => "notes"@,
            Toolset::Overrides => "overrides"@,
            Toolset::Nvts => "nvts"@,
            Toolset::Vulnerabilities => "vulnerabilities"@,
            Toolset::Feeds => "feeds"@,
            Toolset::Tickets => "tickets"@,
            Toolset::Compliance => "compliance"@,
            Toolset::Identity => "identity"@,
        }
    }

    /// The one-line description printed by `--list-toolsets`.
    pub open spec fn spec_description(self) -> Seq<char> {
        match self {
            Toolset::System => "Connectivity, health and version information"@,
            Toolset::Targets => "Scan targets (hosts, port list bindings)"@,
            Toolset::Tasks => "Scan tasks and their lifecycle (start/stop/resume)"@,
            Toolset::ScanConfigs => "Scan configurations"@,
            Toolset::Scanners => "Scanner instances"@,
            Toolset::Schedules => "Scan schedules"@,
            Toolset::Credentials => "Authenticated-scan credentials"@,
            Toolset::Alerts => "Alerts and notifications"@,
            Toolset::PortLists => "Port lists"@,
            Toolset::Results => "Individual scan results"@,
            Toolset::Reports => "Scan reports, drill-down and exports"@,
            Toolset::Assets => "Host assets and operating systems"@,
            Toolset::TlsCertificates => "TLS certificates discovered by scans"@,
            Toolset::ReportFormats => "Report formats"@,
            Toolset::Filters => "Saved filters"@,
            Toolset::Tags => "Tags on resources"@,
            Toolset::Notes => "Notes on results"@,
            Toolset::Overrides => "Severity overrides"@,
            Toolset::Nvts => "NVTs and NVT families"@,
            Toolset::Vulnerabilities => "Vulnerability listing"@,
            Toolset::Feeds => "Feed status"@,
            Toolset::Tickets => "Remediation tickets"@,
            Toolset::Compliance => "Compliance audits and policies"@,
            Toolset::Identity => "Users, groups, roles, permissions (opt-in)"@,
        }
    }

    /// Every toolset, in declaration order.
    pub fn all() -> (v: Vec<Toolset>)
        ensures
            v@ == all_toolsets(),
    {
        vec![
            Toolset::System,
            Toolset::Targets,
            Toolset::Tasks,
            Toolset::ScanConfigs,
            Toolset::Scanners,
            Toolset::Schedules,
            Toolset::Credentials,
            Toolset::Alerts,
            Toolset::PortLists,
            Toolset::Results,
            Toolset::Reports,
            Toolset::Assets,
            Toolset::TlsCertificates,
            Toolset::ReportFormats,
            Toolset::Filters,
            Toolset::Tags,
            Toolset::Notes,
            Toolset::Overrides,
            Toolset::Nvts,
            Toolset::Vulnerabilities,
            Toolset::Feeds,
            Toolset::Tickets,
            Toolset::Compliance,
            Toolset::Identity,
        ]
    }

    /// Position of the toolset in declaration order.
    pub fn position(self) -> (i: usize)
        ensures
            i == self.index(),
            i < TOOLSET_COUNT,
    {
        match self {
            Toolset::System => 0,
            Toolset::Targets => 1,
            Toolset::Tasks => 2,
            Toolset::ScanConfigs => 3,
            Toolset::Scanners => 4,
            Toolset::Schedules => 5,
            Toolset::Credentials => 6,
            Toolset::Alerts => 7,
            Toolset::PortLists => 8,
            Toolset::Results => 9,
            Toolset::Reports => 10,
            Toolset::Assets => 11,
            Toolset::TlsCertificates => 12,
            Toolset::ReportFormats => 13,
            Toolset::Filters => 14,
            Toolset::Tags => 15,
            Toolset::Notes => 16,
            Toolset::Overrides => 17,
            Toolset::Nvts => 18,
            Toolset::Vulnerabilities => 19,
            Toolset::Feeds => 20,
            Toolset::Tickets => 21,
            Toolset::Compliance => 22,
            Toolset::Identity => 23,
        }
    }

    /// The selection name of the toolset, as accepted by `--toolsets`.
    pub fn name(self) -> (r: &'static str)
        ensures
            r@ == self.spec_name(),
    {
        match self {
            Toolset::System => "system",
            Toolset::Targets => "targets",
            Toolset::Tasks => "tasks",
            Toolset::ScanConfigs => "scan-configs",
            Toolset::Scanners => "scanners",
            Toolset::Schedules => "schedules",
            Toolset::Credentials => "credentials",
            Toolset::Alerts => "alerts",
            Toolset::PortLists => "port-lists",
            Toolset::Results => "results",
            Toolset::Reports => "reports",
            Toolset::Assets => "assets",
            Toolset::TlsCertificates => "tls-certificates",
            Toolset::ReportFormats => "report-formats",
            Toolset::Filters => "filters",
            Toolset::Tags => "tags",
            Toolset::Notes => "notes",
            Toolset::Overrides => "overrides",
            Toolset::Nvts => "nvts",
            Toolset::Vulnerabilities => "vulnerabilities",
            Toolset::Feeds => "feeds",
            Toolset::Tickets => "tickets",
            Toolset::Compliance => "compliance",
            Toolset::Identity => "identity",
        }
    }

    /// The one-line description printed by `--list-toolsets`.
    pub fn describe(self) -> (r: &'static str)
        ensures
            r@ == self.spec_description(),
    {
        match self {
            Toolset::System => "Connectivity, health and version information",
            Toolset::Targets => "Scan targets (hosts, port list bindings)",
            Toolset::Tasks => "Scan tasks and their lifecycle (start/stop/resume)",
            Toolset::ScanConfigs => "Scan configurations",
            Toolset::Scanners => "Scanner instances",
            Toolset::Schedules => "Scan schedules",
            Toolset::Credentials => "Authenticated-scan credentials",
            Toolset::Alerts => "Alerts and notifications",
            Toolset::PortLists => "Port lists",
            Toolset::Results => "Individual scan results",
            Toolset::Reports => "Scan reports, drill-down and exports",
            Toolset::Assets => "Host assets and operating systems",
            Toolset::TlsCertificates => "TLS certificates discovered by scans",
            Toolset::ReportFormats => "Report formats",
            Toolset::Filters => "Saved filters",
            Toolset::Tags => "Tags on resources",
            Toolset::Notes => "Notes on results",
            Toolset::Overrides => "Severity overrides",
            Toolset::Nvts => "NVTs and NVT families",
            Toolset::Vulnerabilities => "Vulnerability listing",
            Toolset::Feeds => "Feed status",
            Toolset::Tickets => "Remediation tickets",
            Toolset::Compliance => "Compliance audits and policies",
            Toolset::Identity => "Users, groups, roles, permissions (opt-in)",
        }
    }

    /// The toolset whose selection name is exactly `name`, if any.
    pub fn from_name(name: &str) -> (r: Option<Toolset>)
        ensures
            forall|t: Toolset| r == Some(t) <==> t.spec_name() == name@,
            r is None <==> (forall|t: Toolset| t.spec_name() != name@),
    {
        let all = Toolset::all();
        let mut i: usize = 0;
        while i < all.len()
            invariant
                all@ == all_toolsets(),
                i <= all@.len(),
                forall|k: int| 0 <= k < i ==> (#[trigger] all@[k]).spec_name() != name@,
            decreases all@.len() - i,
        {
            let t = all[i];
            if str_equal(t.name(), name) {
                proof {
                    lemma_name_injective_all();
                }
                return Some(t);
            }
            i = i + 1;
        }
        proof {
            assert forall|t: Toolset| t.spec_name() != name@ by {
                lemma_all_toolsets_index(t);
            }
        }
        None
    }

    /// Toolsets exposed when no explicit selection is given: every toolset
    /// except identity, in declaration order.
    pub fn default_enabled() -> (v: Vec<Toolset>)
        ensures
            v@ == all_toolsets().take(23),
            forall|t: Toolset| v@.contains(t) <==> default_set().contains(t),
    {
        let mut v = Toolset::all();
        v.pop();
        proof {
            assert(v@ =~= all_toolsets().take(23));
            assert forall|t: Toolset| v@.contains(t) <==> default_set().contains(t) by {
                lemma_all_toolsets_index(t);
                if t != Toolset::Identity {
                    assert(v@[t.index()] == t);
                }
            }
        }
        v
    }
}

/// Each toolset sits at its own index in [`all_toolsets`], which holds
/// exactly the indices `0..24`.
pub proof fn lemma_all_toolsets_index(t: Toolset)
    ensures
        0 <= t.index() < 24,
        all_toolsets().len() == 24,
        all_toolsets()[t.index()] == t,
{
}

/// Length, first and third character of a name: enough to tell the
/// toolset names apart.
spec fn name_key(s: Seq<char>) -> (int, char, char) {
    (s.len() as int, s[0], s[2])
}

spec fn expected_key(t: Toolset) -> (int, char, char) {
    match t {
        Toolset::System => (6, 's', 's'),
        Toolset::Targets => (7, 't', 'r'),
        Toolset::Tasks => (5, 't', 's'),
        Toolset::ScanConfigs => (12, 's', 'a'),
        Toolset::Scanners => (8, 's', 'a'),
        Toolset::Schedules => (9, 's', 'h'),
        Toolset::Credentials => (11, 'c', 'e'),
        Toolset::Alerts => (6, 'a', 'e'),
        Toolset::PortLists => (10, 'p', 'r'),
        Toolset::Results => (7, 'r', 's'),
        Toolset::Reports => (7, 'r', 'p'),
        Toolset::Assets => (6, 'a', 's'),
        Toolset::TlsCertificates => (16, 't', 's'),
        Toolset::ReportFormats => (14, 'r', 'p'),
        Toolset::Filters => (7, 'f', 'l'),
        Toolset::Tags => (4, 't', 'g'),
        Toolset::Notes => (5, 'n', 't'),
        Toolset::Overrides => (9, 'o', 'e'),
        Toolset::Nvts => (4, 'n', 't'),
        Toolset::Vulnerabilities => (15, 'v', 'l'),
        Toolset::Feeds => (5, 'f', 'e'),
        Toolset::Tickets => (7, 't', 'c'),
        Toolset::Compliance => (10, 'c', 'm'),
        Toolset::Identity => (8, 'i', 'e'),
    }
}

proof fn lemma_name_key(t: Toolset)
    ensures
        name_key(t.spec_name()) == expected_key(t),
{
    match t {
        Toolset::System => { reveal_strlit("system"); }
        Toolset::Targets => { reveal_strlit("targets"); }
        Toolset::Tasks => { reveal_strlit("tasks"); }
        Toolset::ScanConfigs => { reveal_strlit("scan-configs"); }
        Toolset::Scanners => { reveal_strlit("scanners"); }
        Toolset::Schedules => { reveal_strlit("schedules"); }
        Toolset::Credentials => { reveal_strlit("credentials"); }
        Toolset::Alerts => { reveal_strlit("alerts"); }
        Toolset::PortLists => { reveal_strlit("port-lists"); }
        Toolset::Results => { reveal_strlit("results"); }
        Toolset::Reports => { reveal_strlit("reports"); }
        Toolset::Assets => { reveal_strlit("assets"); }
        Toolset::TlsCertificates => { reveal_strlit("tls-certificates"); }
        Toolset::ReportFormats => { reveal_strlit("report-formats"); }
        Toolset::Filters => { reveal_strlit("filters"); }
        Toolset::Tags => { reveal_strlit("tags"); }
        Toolset::Notes => { reveal_strlit("notes"); }
        Toolset::Overrides => { reveal_strlit("overrides"); }
        Toolset::Nvts => { reveal_strlit("nvts"); }
        Toolset::Vulnerabilities => { reveal_strlit("vulnerabilities"); }
        Toolset::Feeds => { reveal_strlit("feeds"); }
        Toolset::Tickets => { reveal_strlit("tickets"); }
        Toolset::Compliance => { reveal_strlit("compliance"); }
        Toolset::Identity => { reveal_strlit("identity"); }
    }
}

/// Two toolsets with the same selection name are the same toolset.
pub proof fn lemma_name_injective(a: Toolset, b: Toolset)
    requires
        a.spec_name() == b.spec_name(),
    ensures
        a == b,
{
    lemma_name_key(a);
    lemma_name_key(b);
}

/// Every toolset has a unique selection name.
pub proof fn lemma_name_injective_all()
    ensures
        forall|a: Toolset, b: Toolset| a.spec_name() == b.spec_name() ==> a == b,
{
    assert forall|a: Toolset, b: Toolset| a.spec_name() == b.spec_name() implies a == b by {
        lemma_name_injective(a, b);
    }
}


/// Length and first character of a description: enough to tell the
/// toolset descriptions apart.
spec fn description_key(s: Seq<char>) -> (int, char) {
    (s.len() as int, s[0])
}

spec fn expected_description_key(t: Toolset) -> (int, char) {
    match t {
        Toolset::System => (44, 'C'),
        Toolset::Targets => (40, 'S'),
        Toolset::Tasks => (50, 'S'),
        Toolset::ScanConfigs => (19, 'S'),
        Toolset::Scanners => (17, 'S'),
        Toolset::Schedules => (14, 'S'),
        Toolset::Credentials => (30, 'A'),
        Toolset::Alerts => (24, 'A'),
        Toolset::PortLists => (10, 'P'),
        Toolset::Results => (23, 'I'),
        Toolset::Reports => (36, 'S'),
        Toolset::Assets => (33, 'H'),
        Toolset::TlsCertificates => (36, 'T'),
        Toolset::ReportFormats => (14, 'R'),
        Toolset::Filters => (13, 'S'),
        Toolset::Tags => (17, 'T'),
        Toolset::Notes => (16, 'N'),
        Toolset::Overrides => (18, 'S'),
        Toolset::Nvts => (21, 'N'),
        Toolset::Vulnerabilities => (21, 'V'),
        Toolset::Feeds => (11, 'F'),
        Toolset::Tickets => (19, 'R'),
        Toolset::Compliance => (30, 'C'),
        Toolset::Identity => (42, 'U'),
    }
}

proof fn lemma_description_key(t: Toolset)
    ensures
        description_key(t.spec_description()) == expected_description_key(t),
{
    match t {
        Toolset::System => { reveal_strlit("Connectivity, health and version information"); }
        Toolset::Targets => { reveal_strlit("Scan targets (hosts, port list bindings)"); }
        Toolset::Tasks => { reveal_strlit("Scan tasks and their lifecycle (start/stop/resume)"); }
        Toolset::ScanConfigs => { reveal_strlit("Scan configurations"); }
        Toolset::Scanners => { reveal_strlit("Scanner instances"); }
        Toolset::Schedules => { reveal_strlit("Scan schedules"); }
        Toolset::Credentials => { reveal_strlit("Authenticated-scan credentials"); }
        Toolset::Alerts => { reveal_strlit("Alerts and notifications"); }
        Toolset::PortLists => { reveal_strlit("Port lists"); }
        Toolset::Results => { reveal_strlit("Individual scan results"); }
        Toolset::Reports => { reveal_strlit("Scan reports, drill-down and exports"); }
        Toolset::Assets => { reveal_strlit("Host assets and operating systems"); }
        Toolset::TlsCertificates => { reveal_strlit("TLS certificates discovered by scans"); }
        Toolset::ReportFormats => { reveal_strlit("Report formats"); }
        Toolset::Filters => { reveal_strlit("Saved filters"); }
        Toolset::Tags => { reveal_strlit("Tags on resources"); }
        Toolset::Notes => { reveal_strlit("Notes on results"); }
        Toolset::Overrides => { reveal_strlit("Severity overrides"); }
        Toolset::Nvts => { reveal_strlit("NVTs and NVT families"); }
        Toolset::Vulnerabilities => { reveal_strlit("Vulnerability listing"); }
        Toolset::Feeds => { reveal_strlit("Feed status"); }
        Toolset::Tickets => { reveal_strlit("Remediation tickets"); }
        Toolset::Compliance => { reveal_strlit("Compliance audits and policies"); }
        Toolset::Identity => { reveal_strlit("Users, groups, roles, permissions (opt-in)"); }
    }
}

/// Every toolset has its own description: the `--list-toolsets` lines are
/// pairwise distinct, and none is empty.
pub proof fn law_descriptions_are_distinct()
    ensures
        forall|a: Toolset, b: Toolset| a.spec_description() == b.spec_description() ==> a == b,
        forall|t: Toolset| #[trigger] t.spec_description().len() > 0,
{
    assert forall|a: Toolset, b: Toolset| a.spec_description() == b.spec_description() implies a == b by {
        lemma_description_key(a);
        lemma_description_key(b);
    }
    assert forall|t: Toolset| #[trigger] t.spec_description().len() > 0 by {
        lemma_description_key(t);
    }
}

/// Why a `--toolsets` selection was refused.
#[derive(Debug, Clone)]
pub enum ToolsetError {
    /// An entry that is neither a toolset name nor `default`/`all`; holds
    /// the entry as given.
    Unknown(String),
    /// The selection named nothing (only blank entries).
    Empty,
}

/// How an entry is compared: trimmed and ASCII lower-cased.
pub open spec fn normalized(raw: Seq<char>) -> Seq<char> {
    ascii_lower_seq(trim_spec(raw))
}

/// What one normalized entry adds to the selection; `None` when it names
/// nothing known. Blank entries add nothing, `default` and `all` add every
/// toolset but identity.
pub open spec fn contribution(n: Seq<char>) -> Option<Set<Toolset>> {
    if n.len() == 0 {
        Some(Set::empty())
    } else if n == "default"@ || n == "all"@ {
        Some(default_set())
    } else if exists|t: Toolset| t.spec_name() == n {
        Some(Set::new(|t: Toolset| t.spec_name() == n))
    } else {
        None
    }
}

/// The union of the contributions of the first `k` entries, or the index
/// of the first unknown entry among them.
pub open spec fn parse_prefix(raws: Seq<Seq<char>>, k: nat) -> Result<Set<Toolset>, int>
    decreases k,
{
    if k == 0 {
        Ok(Set::empty())
    } else {
        match parse_prefix(raws, (k - 1) as nat) {
            Err(i) => Err(i),
            Ok(s) => match contribution(normalized(raws[k - 1])) {
                None => Err(k - 1),
                Some(c) => Ok(s.union(c)),
            },
        }
    }
}

/// The outcome of parsing `--toolsets` entries: the enabled set, or the
/// index of the first unknown entry (`Err(Some(i))`), or an empty selection
/// (`Err(None)`). No entries at all means the default selection; any
/// non-empty selection also enables the system toolset.
pub open spec fn selection_spec(raws: Seq<Seq<char>>) -> Result<Set<Toolset>, Option<int>> {
    if raws.len() == 0 {
        Ok(default_set())
    } else {
        match parse_prefix(raws, raws.len()) {
            Err(i) => Err(Some(i)),
            Ok(s) => if nonempty(s) {
                Ok(s.insert(Toolset::System))
            } else {
                Err(None)
            },
        }
    }
}

/// The set holds at least one toolset.
pub open spec fn nonempty(s: Set<Toolset>) -> bool {
    exists|t: Toolset| s.contains(t)
}

/// The views of a list of strings.
pub open spec fn string_views(v: Seq<String>) -> Seq<Seq<char>> {
    v.map_values(|s: String| s@)
}

/// The toolsets whose flag is set.
pub open spec fn flags_set(flags: Seq<bool>) -> Set<Toolset> {
    Set::new(|t: Toolset| flags[t.index()])
}

/// The toolsets whose flag is set among the first `k`, in declaration order.
pub open spec fn members_prefix(flags: Seq<bool>, k: nat) -> Seq<Toolset>
    decreases k,
{
    if k == 0 {
        Seq::empty()
    } else {
        let p = members_prefix(flags, (k - 1) as nat);
        if flags[k - 1] {
            p.push(all_toolsets()[k - 1])
        } else {
            p
        }
    }
}

/// The set of toolsets this server instance exposes.
#[derive(Debug, Clone, Copy, PartialEq, Eq)]
pub struct ToolsetSelection {
    enabled: [bool; 24],
}

impl View for ToolsetSelection {
    type V = Set<Toolset>;

    closed spec fn view(&self) -> Set<Toolset> {
        flags_set(self.enabled@)
    }
}

impl ToolsetSelection {
    /// The enabled toolsets, in declaration order.
    pub closed spec fn members(self) -> Seq<Toolset> {
        members_prefix(self.enabled@, 24)
    }

    /// Parse `--toolsets` values. Accepts toolset names plus the specials
    /// `default` (all minus identity) and `all` (still minus identity:
    /// identity must be named explicitly). Empty input means `default`;
    /// entries are trimmed and compared case-insensitively; a non-empty
    /// selection always includes the system toolset.
    pub fn parse(names: &[String]) -> (r: Result<Self, ToolsetError>)
        ensures
            match selection_spec(string_views(names@)) {
                Ok(set) => r matches Ok(sel) && sel@ == set,
                Err(Some(i)) => 0 <= i < names@.len() && (r matches Err(ToolsetError::Unknown(raw))
                    && raw@ == names@[i]@),
                Err(None) => r matches Err(ToolsetError::Empty),
            },
    {
        let ghost raws = string_views(names@);
        if names.len() == 0 {
            let mut enabled: [bool; 24] = [true; 24];
            enabled[23] = false;
            proof {
                assert forall|t: Toolset| flags_set(enabled@).contains(t) <==> default_set().contains(
                    t,
                ) by {
                    lemma_all_toolsets_index(t);
                }
                assert(flags_set(enabled@) =~= default_set());
            }
            return Ok(ToolsetSelection { enabled });
        }
        let mut enabled: [bool; 24] = [false; 24];
        let mut i: usize = 0;
        assert(flags_set(enabled@) =~= Set::<Toolset>::empty());
        while i < names.len()
            invariant
                raws == string_views(names@),
                enabled@.len() == TOOLSET_COUNT,
                i <= names@.len(),
                parse_prefix(raws, i as nat) == Ok::<Set<Toolset>, int>(flags_set(enabled@)),
            decreases names@.len() - i,
        {
            let trimmed = trim(names[i].as_str());
            let name = to_ascii_lowercase(trimmed.as_str());
            assert(name@ == normalized(raws[i as int]));
            let ghost before = flags_set(enabled@);
            if name.unicode_len() == 0 {
                assert(before.union(Set::empty()) =~= before);
            } else if str_equal(name.as_str(), "default") || str_equal(name.as_str(), "all") {
                enable_defaults(&mut enabled);
            } else {
                match Toolset::from_name(name.as_str()) {
                    Some(ts) => {
                        enabled[ts.position()] = true;
                        proof {
                            lemma_name_injective_all();
                            assert(flags_set(enabled@) =~= before.union(
                                Set::new(|t: Toolset| t.spec_name() == name@),
                            ));
                        }
                    },
                    None => {
                        proof {
                            lemma_parse_prefix_error_sticks(raws, (i + 1) as nat, names@.len());
                        }
                        return Err(ToolsetError::Unknown(names[i].clone()));
                    },
                }
            }
            i = i + 1;
        }
        let mut any = false;
        let mut k: usize = 0;
        while k < TOOLSET_COUNT
            invariant
                enabled@.len() == TOOLSET_COUNT,
                k <= TOOLSET_COUNT,
                any <==> exists|j: int| 0 <= j < k && enabled@[j],
            decreases TOOLSET_COUNT - k,
        {
            if enabled[k] {
                any = true;
            }
            k = k + 1;
        }
        proof {
            assert(raws.len() == names@.len());
            if any {
                let j = choose|j: int| 0 <= j < 24 && enabled@[j];
                lemma_all_toolsets_index(all_toolsets()[j]);
                lemma_toolset_at_index(j);
                assert(flags_set(enabled@).contains(all_toolsets()[j]));
            } else {
                assert forall|t: Toolset| !flags_set(enabled@).contains(t) by {
                    lemma_all_toolsets_index(t);
                }
            }
        }
        if !any {
            return Err(ToolsetError::Empty);
        }
        let ghost chosen = flags_set(enabled@);
        enabled[0] = true;
        assert(flags_set(enabled@) =~= chosen.insert(Toolset::System));
        assert(parse_prefix(raws, raws.len()) == Ok::<Set<Toolset>, int>(chosen));
        assert(nonempty(chosen));
        assert(raws.len() != 0);
        assert(selection_spec(raws) == Ok::<Set<Toolset>, Option<int>>(chosen.insert(Toolset::System)));
        assert(selection_spec(raws) == Ok::<Set<Toolset>, Option<int>>(flags_set(enabled@)));
        Ok(ToolsetSelection { enabled })
    }

    /// Whether `toolset` is enabled.
    pub fn is_enabled(&self, toolset: Toolset) -> (r: bool)
        ensures
            r == self@.contains(toolset),
    {
        self.enabled[toolset.position()]
    }

    /// The enabled toolsets, in declaration order.
    pub fn iter(&self) -> (v: Vec<Toolset>)
        ensures
            v@ == self.members(),
    {
        let all = Toolset::all();
        let mut v: Vec<Toolset> = Vec::new();
        let mut k: usize = 0;
        while k < TOOLSET_COUNT
            invariant
                all@ == all_toolsets(),
                self.enabled@.len() == TOOLSET_COUNT,
                k <= TOOLSET_COUNT,
                v@ == members_prefix(self.enabled@, k as nat),
            decreases TOOLSET_COUNT - k,
        {
            if self.enabled[k] {
                v.push(all[k]);
            }
            k = k + 1;
        }
        v
    }

    /// The enabled toolset names, comma-separated, in declaration order.
    pub fn to_string(&self) -> (r: String)
        ensures
            r@ == join_spec(self.members().map_values(|t: Toolset| t.spec_name()), ","@),
    {
        let members = self.iter();
        let ghost names = members@.map_values(|t: Toolset| t.spec_name());
        let mut r = String::new();
        let mut i: usize = 0;
        assert(names.take(0) =~= Seq::<Seq<char>>::empty());
        while i < members.len()
            invariant
                names == members@.map_values(|t: Toolset| t.spec_name()),
                i <= members@.len(),
                r@ == join_spec(names.take(i as int), ","@),
            decreases members@.len() - i,
        {
            assert(names.take(i + 1).drop_last() =~= names.take(i as int));
            if i > 0 {
                r.append(",");
            }
            r.append(members[i].name());
            proof {
                if i == 0 {
                    assert(r@ =~= names.take(1)[0]);
                }
            }
            i = i + 1;
        }
        assert(names.take(members@.len() as int) =~= names);
        r
    }
}

/// Sets the flags of every toolset but identity.
fn enable_defaults(enabled: &mut [bool; 24])
    requires
        old(enabled)@.len() == TOOLSET_COUNT,
    ensures
        final(enabled)@.len() == TOOLSET_COUNT,
        flags_set(final(enabled)@) == flags_set(old(enabled)@).union(default_set()),
{
    let mut k: usize = 0;
    while k < 23
        invariant
            enabled@.len() == TOOLSET_COUNT,
            k <= 23,
            forall|j: int| 0 <= j < k ==> enabled@[j],
            forall|j: int| k <= j < 24 ==> enabled@[j] == old(enabled)@[j],
        decreases 23 - k,
    {
        enabled[k] = true;
        k = k + 1;
    }
    assert forall|t: Toolset| flags_set(enabled@).contains(t) <==> flags_set(old(enabled)@).union(
        default_set(),
    ).contains(t) by {
        lemma_all_toolsets_index(t);
    }
    assert(flags_set(enabled@) =~= flags_set(old(enabled)@).union(default_set()));
}

/// Once an entry is unknown, every longer prefix reports that entry.
proof fn lemma_parse_prefix_error_sticks(raws: Seq<Seq<char>>, k: nat, m: nat)
    requires
        k <= m,
        parse_prefix(raws, k) is Err,
    ensures
        parse_prefix(raws, m) == parse_prefix(raws, k),
    decreases m - k,
{
    if k < m {
        lemma_parse_prefix_error_sticks(raws, k, (m - 1) as nat);
    }
}

/// The toolset at index `i` of [`all_toolsets`] has index `i`.
pub proof fn lemma_toolset_at_index(i: int)
    requires
        0 <= i < 24,
    ensures
        all_toolsets()[i].index() == i,
{
}

/// Iterating a selection yields exactly its enabled toolsets, each once,
/// in declaration order.
pub proof fn law_iter_yields_the_selection(sel: ToolsetSelection)
    ensures
        forall|t: Toolset| sel.members().contains(t) <==> sel@.contains(t),
        forall|i: int, j: int|
            0 <= i < j < sel.members().len() ==> sel.members()[i].index()
                < sel.members()[j].index(),
{
    lemma_members_prefix(sel.enabled@, 24);
    assert forall|t: Toolset| sel.members().contains(t) <==> sel@.contains(t) by {
        lemma_all_toolsets_index(t);
    }
}

proof fn lemma_members_prefix(flags: Seq<bool>, k: nat)
    requires
        k <= 24,
        flags.len() == 24,
    ensures
        forall|t: Toolset| #[trigger]
            members_prefix(flags, k).contains(t) <==> (t.index() < k && flags[t.index()]),
        forall|i: int| 0 <= i < members_prefix(flags, k).len() ==> #[trigger] members_prefix(
            flags,
            k,
        )[i].index() < k,
        forall|i: int, j: int|
            0 <= i < j < members_prefix(flags, k).len() ==> members_prefix(flags, k)[i].index()
                < members_prefix(flags, k)[j].index(),
    decreases k,
{
    if k > 0 {
        lemma_members_prefix(flags, (k - 1) as nat);
        lemma_toolset_at_index(k - 1);
        let p = members_prefix(flags, (k - 1) as nat);
        let m = members_prefix(flags, k);
        let a = all_toolsets()[k - 1];
        if flags[k - 1] {
            assert(m == p.push(a));
            assert forall|t: Toolset| #[trigger] m.contains(t) <==> (t.index() < k && flags[t.index()]) by {
                lemma_all_toolsets_index(t);
                if t.index() == k - 1 {
                    assert(t == a);
                    assert(m[p.len() as int] == t);
                } else {
                    if m.contains(t) {
                        let w = choose|w: int| 0 <= w < m.len() && m[w] == t;
                        if w == p.len() {
                            assert(t == a);
                        } else {
                            assert(p[w] == t);
                            assert(p.contains(t));
                        }
                    }
                    if t.index() < k - 1 && flags[t.index()] {
                        assert(p.contains(t));
                        let w = choose|w: int| 0 <= w < p.len() && p[w] == t;
                        assert(m[w] == t);
                    }
                }
            }
            assert forall|i: int| 0 <= i < m.len() implies #[trigger] m[i].index() < k by {
                if i < p.len() {
                    assert(m[i] == p[i]);
                }
            }
            assert forall|i: int, j: int| 0 <= i < j < m.len() implies m[i].index()
                < m[j].index() by {
                if j < p.len() {
                    assert(m[i] == p[i]);
                    assert(m[j] == p[j]);
                } else {
                    assert(m[i] == p[i]);
                    assert(p[i].index() < k - 1);
                }
            }
        } else {
            assert(m == p);
            assert forall|t: Toolset| #[trigger] m.contains(t) <==> (t.index() < k && flags[t.index()]) by {
                lemma_all_toolsets_index(t);
                if t.index() == k - 1 {
                    assert(t == a);
                }
            }
        }
    }
}


impl ToolsetError {
    /// The user-facing message.
    pub open spec fn spec_message(&self) -> Seq<char> {
        match self {
            ToolsetError::Unknown(raw) => "unknown toolset '"@ + raw@
                + "'; run with --list-toolsets to see valid names"@,
            ToolsetError::Empty => "toolset selection is empty"@,
        }
    }

    /// The user-facing message.
    pub fn message(&self) -> (r: String)
        ensures
            r@ == self.spec_message(),
    {
        match self {
            ToolsetError::Unknown(raw) => {
                let mut r = String::from_str("unknown toolset '");
                r.append(raw.as_str());
                r.append("'; run with --list-toolsets to see valid names");
                r
            },
            ToolsetError::Empty => String::from_str("toolset selection is empty"),
        }
    }
}

/// Entry `n` (normalized) enables toolset `t`.
pub open spec fn enables(n: Seq<char>, t: Toolset) -> bool {
    contribution(n) matches Some(c) && c.contains(t)
}

/// A successfully parsed prefix enables exactly the toolsets that one of
/// its entries enables.
proof fn lemma_parse_prefix_members(raws: Seq<Seq<char>>, k: nat)
    requires
        k <= raws.len(),
        parse_prefix(raws, k) is Ok,
    ensures
        forall|t: Toolset|
            parse_prefix(raws, k)->Ok_0.contains(t) <==> exists|i: int|
                0 <= i < k && #[trigger] enables(normalized(raws[i]), t),
        forall|i: int| 0 <= i < k ==> contribution(#[trigger] normalized(raws[i])) is Some,
    decreases k,
{
    if k > 0 {
        lemma_parse_prefix_members(raws, (k - 1) as nat);
        let prev = parse_prefix(raws, (k - 1) as nat)->Ok_0;
        assert forall|t: Toolset|
            parse_prefix(raws, k)->Ok_0.contains(t) <==> exists|i: int|
                0 <= i < k && #[trigger] enables(normalized(raws[i]), t) by {
            if parse_prefix(raws, k)->Ok_0.contains(t) && !prev.contains(t) {
                assert(enables(normalized(raws[k - 1]), t));
            }
            if exists|i: int| 0 <= i < k && #[trigger] enables(normalized(raws[i]), t) {
                let i = choose|i: int| 0 <= i < k && #[trigger] enables(normalized(raws[i]), t);
                if i < k - 1 {
                    assert(prev.contains(t));
                }
            }
        }
        assert forall|i: int| 0 <= i < k implies contribution(#[trigger] normalized(raws[i])) is Some by {
            if i == k - 1 {
            }
        }
    }
}

/// No toolset is named after a keyword, and no toolset name is blank.
proof fn lemma_names_are_not_keywords(t: Toolset)
    ensures
        t.spec_name().len() > 0,
        t.spec_name() != "default"@,
        t.spec_name() != "all"@,
{
    lemma_name_key(t);
    reveal_strlit("default");
    reveal_strlit("all");
    if t.spec_name() == "default"@ {
        assert(name_key("default"@) == (7int, 'd', 'f'));
    }
    if t.spec_name() == "all"@ {
        assert(name_key("all"@) == (3int, 'a', 'l'));
    }
}

/// What a single entry enables: `default`/`all` enable every toolset but
/// identity, a toolset name enables exactly that toolset.
proof fn lemma_enables(n: Seq<char>, t: Toolset)
    ensures
        (n == "default"@ || n == "all"@) ==> (enables(n, t) <==> t != Toolset::Identity),
        (exists|u: Toolset| u.spec_name() == n) ==> (enables(n, t) <==> t.spec_name() == n),
        n.len() == 0 ==> !enables(n, t),
{
    reveal_strlit("default");
    reveal_strlit("all");
    lemma_names_are_not_keywords(t);
    if exists|u: Toolset| u.spec_name() == n {
        let u = choose|u: Toolset| u.spec_name() == n;
        lemma_names_are_not_keywords(u);
    }
}

/// The default selection (no `--toolsets` given) enables every toolset but
/// identity; in particular it includes the system toolset.
pub proof fn law_default_selection_excludes_identity()
    ensures
        selection_spec(Seq::empty()) == Ok::<Set<Toolset>, Option<int>>(default_set()),
        default_set().contains(Toolset::System),
        !default_set().contains(Toolset::Identity),
        forall|t: Toolset| t != Toolset::Identity ==> default_set().contains(t),
{
}

/// Every accepted selection includes the system toolset.
pub proof fn law_system_always_enabled(raws: Seq<Seq<char>>)
    ensures
        selection_spec(raws) matches Ok(s) ==> s.contains(Toolset::System),
{
}

/// Identity is opt-in: an accepted selection enables identity exactly when
/// one of its entries names it (`default` and `all` never do).
pub proof fn law_identity_must_be_named(raws: Seq<Seq<char>>)
    ensures
        selection_spec(raws) matches Ok(s) ==> (s.contains(Toolset::Identity) <==> exists|i: int|
            0 <= i < raws.len() && #[trigger] normalized(raws[i]) == "identity"@),
{
    if raws.len() > 0 && selection_spec(raws) is Ok {
        lemma_parse_prefix_members(raws, raws.len());
        let s = parse_prefix(raws, raws.len())->Ok_0;
        if exists|i: int| 0 <= i < raws.len() && #[trigger] normalized(raws[i]) == "identity"@ {
            let i = choose|i: int| 0 <= i < raws.len() && #[trigger] normalized(raws[i]) == "identity"@;
            lemma_enables(normalized(raws[i]), Toolset::Identity);
            assert(enables(normalized(raws[i]), Toolset::Identity));
        }
        if s.contains(Toolset::Identity) {
            let i = choose|i: int|
                0 <= i < raws.len() && #[trigger] enables(normalized(raws[i]), Toolset::Identity);
            let n = normalized(raws[i]);
            lemma_enables(n, Toolset::Identity);
            if !(exists|u: Toolset| u.spec_name() == n) {
                assert(n == "default"@ || n == "all"@ || n.len() == 0);
            }
            assert(n == "identity"@);
        }
    }
    if raws.len() == 0 {
        assert(!default_set().contains(Toolset::Identity));
    }
}

/// A selection that only names toolsets enables exactly those toolsets plus
/// the system toolset.
pub proof fn law_explicit_selection_is_exact(raws: Seq<Seq<char>>)
    requires
        raws.len() > 0,
        forall|i: int| 0 <= i < raws.len() ==> exists|t: Toolset| t.spec_name() == #[trigger] normalized(raws[i]),
    ensures
        selection_spec(raws) matches Ok(s) && forall|t: Toolset| s.contains(t) <==> (t
            == Toolset::System || exists|i: int|
            0 <= i < raws.len() && #[trigger] normalized(raws[i]) == t.spec_name()),
{
    lemma_parse_prefix_ok(raws, raws.len());
    lemma_parse_prefix_members(raws, raws.len());
    let s = parse_prefix(raws, raws.len())->Ok_0;
    let n0 = normalized(raws[0]);
    let t0 = choose|t: Toolset| t.spec_name() == n0;
    lemma_enables(n0, t0);
    assert(enables(normalized(raws[0]), t0));
    assert(s.contains(t0));
    assert(nonempty(s));
    assert forall|t: Toolset| s.insert(Toolset::System).contains(t) <==> (t == Toolset::System
        || exists|i: int| 0 <= i < raws.len() && #[trigger] normalized(raws[i]) == t.spec_name()) by {
        if s.contains(t) {
            let i = choose|i: int| 0 <= i < raws.len() && #[trigger] enables(normalized(raws[i]), t);
            lemma_enables(normalized(raws[i]), t);
        }
        if exists|i: int| 0 <= i < raws.len() && #[trigger] normalized(raws[i]) == t.spec_name() {
            let i = choose|i: int| 0 <= i < raws.len() && #[trigger] normalized(raws[i]) == t.spec_name();
            lemma_enables(normalized(raws[i]), t);
            assert(enables(normalized(raws[i]), t));
        }
    }
}

/// When every entry is known, parsing succeeds.
proof fn lemma_parse_prefix_ok(raws: Seq<Seq<char>>, k: nat)
    requires
        k <= raws.len(),
        forall|i: int| 0 <= i < raws.len() ==> exists|t: Toolset| t.spec_name() == #[trigger] normalized(raws[i]),
    ensures
        parse_prefix(raws, k) is Ok,
    decreases k,
{
    if k > 0 {
        lemma_parse_prefix_ok(raws, (k - 1) as nat);
        let n = normalized(raws[k - 1]);
        assert(exists|t: Toolset| t.spec_name() == normalized(raws[k - 1]));
    }
}

/// Parsing looks at entries only through their trimmed, lower-cased form:
/// entries that normalize alike give the same selection.
pub proof fn law_selection_is_case_and_space_insensitive(a: Seq<Seq<char>>, b: Seq<Seq<char>>)
    requires
        a.len() == b.len(),
        forall|i: int| 0 <= i < a.len() ==> normalized(#[trigger] a[i]) == normalized(b[i]),
    ensures
        selection_spec(a) == selection_spec(b),
{
    lemma_parse_prefix_same(a, b, a.len());
}

proof fn lemma_parse_prefix_same(a: Seq<Seq<char>>, b: Seq<Seq<char>>, k: nat)
    requires
        k <= a.len(),
        a.len() == b.len(),
        forall|i: int| 0 <= i < a.len() ==> normalized(#[trigger] a[i]) == normalized(b[i]),
    ensures
        parse_prefix(a, k) == parse_prefix(b, k),
    decreases k,
{
    if k > 0 {
        lemma_parse_prefix_same(a, b, (k - 1) as nat);
        assert(normalized(a[k - 1]) == normalized(b[k - 1]));
    }
}

/// Every entry of `a` normalizes like some entry of `b`, and every entry of
/// `b` like some entry of `a`: the two lists name the same things, in any
/// order and with any repetition.
pub open spec fn same_entries(a: Seq<Seq<char>>, b: Seq<Seq<char>>) -> bool {
    &&& forall|i: int| 0 <= i < a.len() ==> named_in(#[trigger] a[i], b)
    &&& forall|j: int| 0 <= j < b.len() ==> named_in(#[trigger] b[j], a)
}

/// Some entry of `list` normalizes like `x`.
pub open spec fn named_in(x: Seq<char>, list: Seq<Seq<char>>) -> bool {
    exists|k: int| 0 <= k < list.len() && alike(#[trigger] list[k], x)
}

/// Two entries normalize alike: trimmed and ASCII lower-cased, they are
/// the same text.
#[verifier::opaque]
pub open spec fn alike(x: Seq<char>, y: Seq<char>) -> bool {
    normalized(x) == normalized(y)
}

/// A refused prefix holds an entry that names nothing known.
proof fn lemma_parse_prefix_err(raws: Seq<Seq<char>>, k: nat)
    requires
        k <= raws.len(),
        parse_prefix(raws, k) is Err,
    ensures
        exists|i: int| 0 <= i < k && contribution(#[trigger] normalized(raws[i])) is None,
    decreases k,
{
    if parse_prefix(raws, (k - 1) as nat) is Err {
        lemma_parse_prefix_err(raws, (k - 1) as nat);
        let i = choose|i: int| 0 <= i < k - 1 && contribution(#[trigger] normalized(raws[i])) is None;
        assert(0 <= i < k && contribution(normalized(raws[i])) is None);
    } else {
        assert(contribution(normalized(raws[k - 1])) is None);
    }
}

/// If every entry of `a` normalizes like an entry of `b` and `a` parses,
/// so does `b`.
proof fn lemma_parse_covered(a: Seq<Seq<char>>, b: Seq<Seq<char>>)
    requires
        same_entries(a, b),
        parse_prefix(a, a.len()) is Ok,
    ensures
        parse_prefix(b, b.len()) is Ok,
{
    lemma_parse_prefix_members(a, a.len());
    if parse_prefix(b, b.len()) is Err {
        lemma_parse_prefix_err(b, b.len());
        let j = choose|j: int| 0 <= j && j < b.len() && contribution(#[trigger] normalized(b[j])) is None;
        let i = choose|i: int| 0 <= i < a.len() && alike(#[trigger] a[i], b[j]);
        reveal(alike);
        assert(contribution(normalized(a[i])) is Some);
    }
}

/// Two lists that name the same things and both parse enable the same
/// toolsets.
proof fn lemma_same_sets(a: Seq<Seq<char>>, b: Seq<Seq<char>>)
    requires
        same_entries(a, b),
        parse_prefix(a, a.len()) is Ok,
        parse_prefix(b, b.len()) is Ok,
    ensures
        parse_prefix(a, a.len()) == parse_prefix(b, b.len()),
{
    lemma_parse_prefix_members(a, a.len());
    lemma_parse_prefix_members(b, b.len());
    let sa = parse_prefix(a, a.len())->Ok_0;
    let sb = parse_prefix(b, b.len())->Ok_0;
    assert forall|t: Toolset| sa.contains(t) implies sb.contains(t) by {
        let i = choose|i: int| 0 <= i && i < a.len() && #[trigger] enables(normalized(a[i]), t);
        let j = choose|j: int| 0 <= j < b.len() && alike(#[trigger] b[j], a[i]);
        reveal(alike);
        assert(enables(normalized(b[j]), t));
    }
    assert forall|t: Toolset| sb.contains(t) implies sa.contains(t) by {
        let j = choose|j: int| 0 <= j && j < b.len() && #[trigger] enables(normalized(b[j]), t);
        let i = choose|i: int| 0 <= i < a.len() && alike(#[trigger] a[i], b[j]);
        reveal(alike);
        assert(enables(normalized(a[i]), t));
    }
    assert(sa =~= sb);
}

/// The order of the `--toolsets` entries and their repetition do not
/// matter: two lists that name the same things give the same outcome, the
/// same selection when both parse, and the same kind of refusal otherwise.
pub proof fn law_selection_ignores_order_and_repetition(a: Seq<Seq<char>>, b: Seq<Seq<char>>)
    requires
        same_entries(a, b),
    ensures
        selection_spec(a) is Ok <==> selection_spec(b) is Ok,
        selection_spec(a) == Err::<Set<Toolset>, Option<int>>(None) <==> selection_spec(b) == Err::<Set<Toolset>, Option<int>>(None),
        selection_spec(a) is Ok ==> selection_spec(a) == selection_spec(b),
{
    if a.len() == 0 {
        if b.len() > 0 {
            let _ = b[0];
        }
    } else if b.len() == 0 {
        let _ = a[0];
    } else {
        if parse_prefix(a, a.len()) is Ok {
            lemma_parse_covered(a, b);
            lemma_same_sets(a, b);
        } else if parse_prefix(b, b.len()) is Ok {
            lemma_parse_covered(b, a);
        }
    }
}

/// Reordering the `--toolsets` entries changes nothing: a permutation of
/// the entries parses exactly as the entries do.
pub proof fn law_selection_ignores_order(a: Seq<Seq<char>>, b: Seq<Seq<char>>)
    requires
        a.to_multiset() =~= b.to_multiset(),
    ensures
        selection_spec(a) is Ok <==> selection_spec(b) is Ok,
        selection_spec(a) == Err::<Set<Toolset>, Option<int>>(None) <==> selection_spec(b) == Err::<Set<Toolset>, Option<int>>(None),
        selection_spec(a) is Ok ==> selection_spec(a) == selection_spec(b),
{
    a.to_multiset_ensures();
    b.to_multiset_ensures();
    assert forall|i: int| 0 <= i < a.len() implies named_in(#[trigger] a[i], b) by {
        assert(a.contains(a[i]));
        assert(a.to_multiset().count(a[i]) > 0);
        assert(b.to_multiset().count(a[i]) > 0);
        assert(b.contains(a[i]));
        let j = choose|j: int| 0 <= j && j < b.len() && b[j] == a[i];
        reveal(alike);
        assert(alike(b[j], a[i]));
    }
    assert forall|j: int| 0 <= j < b.len() implies named_in(#[trigger] b[j], a) by {
        assert(b.contains(b[j]));
        assert(b.to_multiset().count(b[j]) > 0);
        assert(a.to_multiset().count(b[j]) > 0);
        assert(a.contains(b[j]));
        let i = choose|i: int| 0 <= i && i < a.len() && a[i] == b[j];
        reveal(alike);
        assert(alike(a[i], b[j]));
    }
    law_selection_ignores_order_and_repetition(a, b);
}

/// Repeating the `--toolsets` entries changes nothing: the entries given
/// twice parse exactly as the entries given once.
pub proof fn law_selection_ignores_repetition(a: Seq<Seq<char>>)
    ensures
        selection_spec(a) is Ok <==> selection_spec(a + a) is Ok,
        selection_spec(a) == Err::<Set<Toolset>, Option<int>>(None) <==> selection_spec(a + a) == Err::<Set<Toolset>, Option<int>>(None),
        selection_spec(a) is Ok ==> selection_spec(a) == selection_spec(a + a),
{
    let b = a + a;
    assert forall|k: int| 0 <= k < a.len() implies #[trigger] b[k] == a[k] by {}
    assert forall|k: int| a.len() <= k < b.len() implies #[trigger] b[k] == a[k - a.len()] by {}
    lemma_doubled_same_entries(a, b);
    law_selection_ignores_order_and_repetition(a, b);
}

/// The entries given twice name the same things as the entries.
proof fn lemma_doubled_same_entries(a: Seq<Seq<char>>, b: Seq<Seq<char>>)
    requires
        b.len() == 2 * a.len(),
        forall|k: int| 0 <= k < a.len() ==> #[trigger] b[k] == a[k],
        forall|k: int| a.len() <= k < b.len() ==> #[trigger] b[k] == a[k - a.len()],
    ensures
        same_entries(a, b),
{
    assert forall|i: int| 0 <= i < a.len() implies named_in(#[trigger] a[i], b) by {
        assert(b[i] == a[i]);
        reveal(alike);
        assert(alike(b[i], a[i]));
    }
    assert forall|j: int| 0 <= j < b.len() implies named_in(#[trigger] b[j], a) by {
        reveal(alike);
        if j < a.len() {
            assert(b[j] == a[j]);
            assert(alike(a[j], b[j]));
        } else {
            assert(b[j] == a[j - a.len()]);
            assert(alike(a[j - a.len()], b[j]));
        }
    }
}

/// `s` padded with spaces on the right to at least `width` characters.
pub open spec fn padded(s: Seq<char>, width: nat) -> Seq<char> {
    if s.len() >= width {
        s
    } else {
        s + Seq::new((width - s.len()) as nat, |i: int| ' ')
    }
}

/// Width of the name column in the toolset listing.
pub const LISTING_NAME_WIDTH: usize = 18;

impl Toolset {
    /// One line of the toolset listing: the name left-aligned in a column
    /// of [`LISTING_NAME_WIDTH`] characters, a space, the description.
    pub open spec fn spec_listing_line(self) -> Seq<char> {
        padded(self.spec_name(), LISTING_NAME_WIDTH as nat) + " "@ + self.spec_description()
    }

    /// One line of the toolset listing (`--list-toolsets`).
    pub fn listing_line(self) -> (r: String)
        ensures
            r@ == self.spec_listing_line(),
    {
        let name = self.name();
        let mut r = String::from_str(name);
        let n = name.unicode_len();
        let mut k: usize = n;
        while k < LISTING_NAME_WIDTH
            invariant
                n == self.spec_name().len(),
                n <= k <= LISTING_NAME_WIDTH || (k == n && n > LISTING_NAME_WIDTH),
                r@ == self.spec_name() + Seq::new((k - n) as nat, |i: int| ' '),
            decreases LISTING_NAME_WIDTH - k,
        {
            push_char(&mut r, ' ');
            assert(r@ =~= self.spec_name() + Seq::new((k + 1 - n) as nat, |i: int| ' '));
            k = k + 1;
        }
        assert(r@ =~= padded(self.spec_name(), LISTING_NAME_WIDTH as nat));
        r.append(" ");
        r.append(self.describe());
        r
    }
}

} // verus!
