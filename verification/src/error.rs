//! The errors of the application and the reply each one earns.
use vstd::prelude::*;

verus! {

/// The errors of the application. Storage and connection-pool failures
/// carry the text of the underlying error.
#[derive(Debug)]
pub enum AppError {
    Db(String),
    Pool(String),
    NotFound,
    Unauthorized,
    BadRequest(String),
    RateLimited,
    Internal(String),
}

/// How an error is answered: a plain status with a body, a redirect, or an
/// internal fault that is logged and answered with status 500.
#[derive(Debug)]
pub enum ErrorReply {
    Plain { status: u16, body: String },
    Redirect { location: String },
    ServerFault { log_line: String },
}

/// The text by which an error is described.
pub open spec fn error_text(e: AppError) -> Seq<char> {
    match e {
        AppError::Db(m) => "database error: "@ + m@,
        AppError::Pool(m) => "pool error: "@ + m@,
        AppError::NotFound => "not found"@,
        AppError::Unauthorized => "unauthorized"@,
        AppError::BadRequest(m) => "bad request: "@ + m@,
        AppError::RateLimited => "rate limited"@,
        AppError::Internal(m) => "internal error: "@ + m@,
    }
}

/// The reply that an error earns.
pub open spec fn reply_matches(e: AppError, r: ErrorReply) -> bool {
    match e {
        AppError::NotFound => r matches ErrorReply::Plain { status, body } && status == 404
            && body@ == "Not found"@,
        AppError::Unauthorized => r matches ErrorReply::Redirect { location } && location@
            == "/admin/login"@,
        AppError::BadRequest(m) => r matches ErrorReply::Plain { status, body } && status == 400
            && body@ == m@,
        AppError::RateLimited => r matches ErrorReply::Plain { status, body } && status == 429
            && body@ == "Too many requests"@,
        _ => r matches ErrorReply::ServerFault { log_line } && log_line@ == "Internal error: "@
            + error_text(e),
    }
}

/// The body sent with a server fault.
pub open spec fn server_fault_body() -> Seq<char> {
    "Internal server error"@
}

impl AppError {
    /// The text by which this error is described.
    pub fn message(&self) -> (r: String)
        ensures
            r@ == error_text(*self),
    {
        match self {
            AppError::Db(m) => String::from_str("database error: ").concat(m.as_str()),
            AppError::Pool(m) => String::from_str("pool error: ").concat(m.as_str()),
            AppError::NotFound => String::from_str("not found"),
            AppError::Unauthorized => String::from_str("unauthorized"),
            AppError::BadRequest(m) => String::from_str("bad request: ").concat(m.as_str()),
            AppError::RateLimited => String::from_str("rate limited"),
            AppError::Internal(m) => String::from_str("internal error: ").concat(m.as_str()),
        }
    }

    /// The reply this error earns: not found and bad requests are answered
    /// plainly, an unauthorized request is sent to the login page, too many
    /// requests are refused, and every other error is logged and answered
    /// as an internal fault.
    pub fn reply(&self) -> (r: ErrorReply)
        ensures
            reply_matches(*self, r),
    {
        match self {
            AppError::NotFound => ErrorReply::Plain {
                status: 404,
                body: String::from_str("Not found"),
            },
            AppError::Unauthorized => ErrorReply::Redirect {
                location: String::from_str("/admin/login"),
            },
            AppError::BadRequest(m) => ErrorReply::Plain { status: 400, body: m.clone() },
            AppError::RateLimited => ErrorReply::Plain {
                status: 429,
                body: String::from_str("Too many requests"),
            },
            _ => {
                let text = self.message();
                ErrorReply::ServerFault {
                    log_line: String::from_str("Internal error: ").concat(text.as_str()),
                }
            },
        }
    }
}

} // verus!
