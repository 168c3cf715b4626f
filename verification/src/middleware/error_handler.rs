//! How API errors are reported to the tools' callers.

use vstd::prelude::*;

use crate::feishu::error::FeishuError;
use crate::text::{decimal_int, push_decimal_signed};

verus! {

/// An error as a tool reports it.
#[derive(Debug, Clone)]
pub enum ToolError {
    /// The caller's request was wrong; retrying it will not help.
    UserError(String),
    /// A passing failure; the same request may succeed later.
    RetryableError(String),
    /// The caller must wait this long before retrying.
    RateLimit { retry_after_secs: u64 },
    /// A failure inside the server.
    InternalError(String),
}

/// How an API error is reported:
/// - a rate limit keeps its wait;
/// - an expired token and a server error (an API error whose code lies in
///   500..=599) are retryable;
/// - every other error (a missing resource, any other API error, a network
///   failure, an internal failure) is reported as the caller's error.
pub open spec fn reported_as(e: FeishuError, t: ToolError) -> bool {
    match e {
        FeishuError::RateLimited { retry_after_secs } => t == ToolError::RateLimit { retry_after_secs },
        FeishuError::TokenExpired => t matches ToolError::RetryableError(m) && m@ == "Token expired"@,
        FeishuError::NotFound(msg) => t matches ToolError::UserError(m) && m@ == "Not found: "@ + msg@,
        FeishuError::InternalError(msg) => t matches ToolError::UserError(m) && m@ == msg@,
        FeishuError::ApiError { code, msg } => if 500 <= code && code <= 599 {
            t matches ToolError::RetryableError(m) && m@ == "Server error: "@ + decimal_int(code as int) + " - "@
                + msg@
        } else {
            t matches ToolError::UserError(m) && m@ == "API error: "@ + decimal_int(code as int) + " - "@ + msg@
        },
        FeishuError::NetworkError(err) => t matches ToolError::UserError(m) && m@ == "Network error: "@ + err@,
    }
}

/// Reports an API error as a tool error.
pub fn handle_error(e: &FeishuError) -> (t: ToolError)
    ensures
        reported_as(*e, t),
{
    match e {
        FeishuError::RateLimited { retry_after_secs } => ToolError::RateLimit { retry_after_secs: *retry_after_secs },
        FeishuError::TokenExpired => ToolError::RetryableError("Token expired".to_owned()),
        FeishuError::NotFound(msg) => ToolError::UserError("Not found: ".to_owned().concat(msg.as_str())),
        FeishuError::InternalError(msg) => ToolError::UserError(msg.clone()),
        FeishuError::ApiError { code, msg } => {
            if 500 <= *code && *code <= 599 {
                let mut m = "Server error: ".to_owned();
                push_decimal_signed(&mut m, *code as i64);
                m.append(" - ");
                m.append(msg.as_str());
                ToolError::RetryableError(m)
            } else {
                let mut m = "API error: ".to_owned();
                push_decimal_signed(&mut m, *code as i64);
                m.append(" - ");
                m.append(msg.as_str());
                ToolError::UserError(m)
            }
        },
        FeishuError::NetworkError(err) => ToolError::UserError("Network error: ".to_owned().concat(err.as_str())),
    }
}

impl ToolError {
    /// The tool error that reports `err`, as `handle_error` makes it.
    pub fn from_feishu(err: FeishuError) -> (t: ToolError)
        ensures
            reported_as(err, t),
    {
        handle_error(&err)
    }
}

} // verus!
