//! Verified core of the homelab MCP server: configuration model, command
//! screening, confirmation tokens, rate limiting, connection health and the
//! decisions behind each tool.
pub mod text;
pub mod json;
pub mod confirmation;
pub mod rate_limit;
pub mod health;
pub mod config;
pub mod connection;
pub mod tools;
pub mod mcp;
pub mod metrics;
pub mod notifications;
pub mod audit;
pub mod setup;
pub mod doctor;
