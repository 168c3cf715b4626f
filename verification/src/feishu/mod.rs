//! The Feishu open API: its errors, its data and the requests made to it.

pub mod client;
pub mod error;
pub mod http;
pub mod types;
