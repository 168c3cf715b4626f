//! Verified core of a Feishu (Lark) MCP server.

pub mod auth;
pub mod clock;
pub mod config;
pub mod feishu;
pub mod mcp;
pub mod middleware;
pub mod text;
pub mod tools;
