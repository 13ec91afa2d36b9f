//! Tool implementations, one module per toolset: each tool's parameters
//! and the gateway call it makes.

pub mod alerts;
pub mod answer;
pub mod assets;
pub mod common;
pub mod credentials;
pub mod feeds;
pub mod filters;
pub mod identity;
pub mod notes;
pub mod nvts;
pub mod overrides;
pub mod port_lists;
pub mod report_formats;
pub mod reports;
pub mod results;
pub mod scan_configs;
pub mod scanners;
pub mod schedules;
pub mod system;
pub mod tags;
pub mod targets;
pub mod tasks;
pub mod tickets;
