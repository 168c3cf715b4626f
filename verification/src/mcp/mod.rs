//! The MCP side of the server: the arguments of its tools.

pub mod types;
