//! Request admission, and how errors are reported to the tools' callers.

pub mod error_handler;
pub mod rate_limit;
