//! Verified core of an MCP front end for the Greenbone Vulnerability
//! Management REST gateway: toolset gating, configuration validation,
//! request shaping, error classification and response summarization.

pub mod body;
pub mod codec;
pub mod config;
pub mod gateway;
pub mod json;
pub mod mcp;
pub mod text;
