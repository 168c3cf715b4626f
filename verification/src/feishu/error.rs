//! Errors of the Feishu open API and how HTTP failures map onto them.

use vstd::prelude::*;

use crate::feishu::http::{reqwest_error_text, status_display, status_text};
use crate::text::{decimal, decimal_int, parse_u64, parse_u64_spec, push_decimal, push_decimal_signed};

verus! {

/// Everything that can go wrong in a call to the Feishu open API.
#[derive(Debug, Clone)]
pub enum FeishuError {
    /// The API answered with a non-zero code.
    ApiError { code: i32, msg: String },
    /// The access token was refused or is missing.
    TokenExpired,
    /// The API asked the caller to slow down.
    RateLimited { retry_after_secs: u64 },
    /// The resource does not exist.
    NotFound(String),
    /// The request did not complete.
    NetworkError(String),
    /// A local failure, such as an unreadable token store.
    InternalError(String),
}

/// The body of an error answer: `{"code": .., "msg": ..}`.
#[derive(Debug, Clone)]
pub struct FeishuApiErrorResponse {
    pub code: i32,
    pub msg: String,
}

/// The text of an error, as its `Display` renders it.
pub open spec fn error_text(e: FeishuError) -> Seq<char> {
    match e {
        FeishuError::ApiError { code, msg } => "API error: "@ + decimal_int(code as int) + " - "@ + msg@,
        FeishuError::TokenExpired => "Token expired, need refresh"@,
        FeishuError::RateLimited { retry_after_secs } => "Rate limit exceeded, retry after "@ + decimal(
            retry_after_secs as nat,
        ) + "s"@,
        FeishuError::NotFound(m) => "Not found: "@ + m@,
        FeishuError::NetworkError(m) => "Network error: "@ + m@,
        FeishuError::InternalError(m) => "Internal error: "@ + m@,
    }
}

/// The wait announced by a `retry-after` header: its value when it reads as
/// a number of seconds, 60 otherwise.
pub open spec fn retry_after_from_header(header: Option<Seq<char>>) -> u64 {
    match header {
        Some(h) => match parse_u64_spec(h) {
            Some(v) => v,
            None => 60,
        },
        None => 60,
    }
}

/// Whether a status code alone decides the error (401, 404, 429).
pub open spec fn decided_by_status(status: u16) -> bool {
    status == 401 || status == 404 || status == 429
}

/// The Feishu codes that mean the access token is no longer valid.
pub open spec fn is_token_expired_code(code: i32) -> bool {
    code == 99991663 || code == 99991664 || code == 99991665
}

/// The error that a status code alone decides.
pub open spec fn status_error_matches(status: u16, retry_after: Option<Seq<char>>, e: FeishuError) -> bool {
    if status == 401 {
        e is TokenExpired
    } else if status == 404 {
        e matches FeishuError::NotFound(m) && m@ == "Resource not found"@
    } else {
        e == FeishuError::RateLimited { retry_after_secs: retry_after_from_header(retry_after) }
    }
}

/// The error read from the body of a failed answer with status `status`;
/// `body` is `None` when the body did not parse as an error answer.
pub open spec fn body_error_matches(status: u16, body: Option<FeishuApiErrorResponse>, e: FeishuError) -> bool {
    match body {
        Some(b) => if is_token_expired_code(b.code) {
            e is TokenExpired
        } else if b.code == 0 {
            e matches FeishuError::ApiError { code, msg } && code == 0 && msg@ == "Success"@
        } else {
            e matches FeishuError::ApiError { code, msg } && code == b.code && msg@ == b.msg@
        },
        None => e matches FeishuError::ApiError { code, msg } && code == status as i32 && msg@ == "HTTP "@
            + status_display(status),
    }
}

impl FeishuError {
    /// The error that the status of a failed answer decides by itself, if
    /// any: 401 means an expired token, 404 a missing resource, and 429 a
    /// rate limit whose wait comes from the `retry-after` header (60 seconds
    /// when it is absent or not a number).
    pub fn from_status(status: u16, retry_after: Option<&str>) -> (e: Option<FeishuError>)
        ensures
            e is Some <==> decided_by_status(status),
            e matches Some(err) ==> status_error_matches(
                status,
                match retry_after {
                    Some(h) => Some(h@),
                    None => None,
                },
                err,
            ),
    {
        if status == 401 {
            Some(FeishuError::TokenExpired)
        } else if status == 404 {
            Some(FeishuError::NotFound("Resource not found".to_owned()))
        } else if status == 429 {
            let retry_after_secs = match retry_after {
                Some(h) => match parse_u64(h) {
                    Some(v) => v,
                    None => 60,
                },
                None => 60,
            };
            Some(FeishuError::RateLimited { retry_after_secs })
        } else {
            None
        }
    }

    /// The error read from the body of a failed answer whose status does not
    /// decide it: the Feishu code in the body when there is one, else an
    /// `ApiError` that carries the HTTP status.
    pub fn from_body(status: u16, body: Option<FeishuApiErrorResponse>) -> (e: FeishuError)
        ensures
            body_error_matches(status, body, e),
    {
        match body {
            Some(b) => {
                if b.code == 99991663 || b.code == 99991664 || b.code == 99991665 {
                    FeishuError::TokenExpired
                } else if b.code == 0 {
                    FeishuError::ApiError { code: 0, msg: "Success".to_owned() }
                } else {
                    FeishuError::ApiError { code: b.code, msg: b.msg }
                }
            },
            None => {
                let mut msg = "HTTP ".to_owned();
                let shown = status_text(status);
                msg.append(shown.as_str());
                FeishuError::ApiError { code: status as i32, msg }
            },
        }
    }

    /// The error for a failed answer: decided by the status when it is 401,
    /// 404 or 429, and read from the body otherwise.
    pub fn from_response(status: u16, retry_after: Option<&str>, body: Option<FeishuApiErrorResponse>) -> (e: FeishuError)
        ensures
            decided_by_status(status) ==> status_error_matches(
                status,
                match retry_after {
                    Some(h) => Some(h@),
                    None => None,
                },
                e,
            ),
            !decided_by_status(status) ==> body_error_matches(status, body, e),
    {
        match FeishuError::from_status(status, retry_after) {
            Some(e) => e,
            None => FeishuError::from_body(status, body),
        }
    }

    /// The error for a request that did not complete.
    pub fn from_transport(err: &reqwest::Error) -> (e: FeishuError)
        ensures
            e is NetworkError,
    {
        FeishuError::NetworkError(reqwest_error_text(err))
    }

    /// The text of the error, as its `Display` renders it.
    pub fn to_string(&self) -> (s: String)
        ensures
            s@ == error_text(*self),
    {
        let mut s = String::new();
        match self {
            FeishuError::ApiError { code, msg } => {
                s.append("API error: ");
                push_decimal_signed(&mut s, *code as i64);
                s.append(" - ");
                s.append(msg.as_str());
            },
            FeishuError::TokenExpired => {
                s.append("Token expired, need refresh");
            },
            FeishuError::RateLimited { retry_after_secs } => {
                s.append("Rate limit exceeded, retry after ");
                push_decimal(&mut s, *retry_after_secs);
                s.append("s");
            },
            FeishuError::NotFound(m) => {
                s.append("Not found: ");
                s.append(m.as_str());
            },
            FeishuError::NetworkError(m) => {
                s.append("Network error: ");
                s.append(m.as_str());
            },
            FeishuError::InternalError(m) => {
                s.append("Internal error: ");
                s.append(m.as_str());
            },
        }
        assert(s@ =~= error_text(*self));
        s
    }
}

} // verus!
