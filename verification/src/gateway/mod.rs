//! The gateway side: data shapes, error classification, identity
//! forwarding, URL construction and session bookkeeping.

pub mod auth;
pub mod client;
pub mod error;
pub mod models;
pub mod session;
