//! MCP layer: toolset gating, the tool catalog, per-tool request shaping
//! and error wording.

pub mod catalog;
pub mod error;
pub mod http;
pub mod toolset;
pub mod tools;
