//! The service-level error taxonomy and its user-facing rendering.

use vstd::prelude::*;
use vstd::string::StringExecFns;

verus! {

/// The errors the HTTP layer reports to clients.
#[derive(Debug, Clone)]
pub enum AppError {
    BadRequest(String),
    NotFound(String),
    InternalServerError(String),
    ValidationError(String),
    BrowserError(String),
    NetworkError(String),
}

/// The description an error renders to.
pub open spec fn spec_app_error_message(e: AppError) -> Seq<char> {
    match e {
        AppError::BadRequest(m) => ("Bad request: ")@ + m@,
        AppError::NotFound(m) => ("Not found: ")@ + m@,
        AppError::InternalServerError(m) => ("Internal server error: ")@ + m@,
        AppError::ValidationError(m) => ("Validation error: ")@ + m@,
        AppError::BrowserError(m) => ("Browser error: ")@ + m@,
        AppError::NetworkError(m) => ("Network error: ")@ + m@,
    }
}

impl AppError {
    /// Renders the error for a client.
    pub fn message(&self) -> (r: String)
        ensures
            r@ == spec_app_error_message(*self),
    {
        match self {
            AppError::BadRequest(m) => {
                let mut s = String::from_str("Bad request: ");
                s.append(m.as_str());
                s
            },
            AppError::NotFound(m) => {
                let mut s = String::from_str("Not found: ");
                s.append(m.as_str());
                s
            },
            AppError::InternalServerError(m) => {
                let mut s = String::from_str("Internal server error: ");
                s.append(m.as_str());
                s
            },
            AppError::ValidationError(m) => {
                let mut s = String::from_str("Validation error: ");
                s.append(m.as_str());
                s
            },
            AppError::BrowserError(m) => {
                let mut s = String::from_str("Browser error: ");
                s.append(m.as_str());
                s
            },
            AppError::NetworkError(m) => {
                let mut s = String::from_str("Network error: ");
                s.append(m.as_str());
                s
            },
        }
    }

    /// The HTTP status the error is served with.
    pub fn status_code(&self) -> (r: u16)
        ensures
            *self matches AppError::BadRequest(_) ==> r == 400,
            *self matches AppError::NotFound(_) ==> r == 404,
            *self matches AppError::InternalServerError(_) ==> r == 500,
            *self matches AppError::ValidationError(_) ==> r == 400,
            *self matches AppError::BrowserError(_) ==> r == 503,
            *self matches AppError::NetworkError(_) ==> r == 502,
    {
        match self {
            AppError::BadRequest(_) => 400,
            AppError::NotFound(_) => 404,
            AppError::InternalServerError(_) => 500,
            AppError::ValidationError(_) => 400,
            AppError::BrowserError(_) => 503,
            AppError::NetworkError(_) => 502,
        }
    }

    /// The machine-readable label of the error's class.
    pub fn error_type_label(&self) -> (r: &'static str)
        ensures
            *self matches AppError::BadRequest(_) ==> r@ == ("bad_request")@,
            *self matches AppError::NotFound(_) ==> r@ == ("not_found")@,
            *self matches AppError::InternalServerError(_) ==> r@ == ("internal_server_error")@,
            *self matches AppError::ValidationError(_) ==> r@ == ("validation_error")@,
            *self matches AppError::BrowserError(_) ==> r@ == ("browser_error")@,
            *self matches AppError::NetworkError(_) ==> r@ == ("network_error")@,
    {
        match self {
            AppError::BadRequest(_) => "bad_request",
            AppError::NotFound(_) => "not_found",
            AppError::InternalServerError(_) => "internal_server_error",
            AppError::ValidationError(_) => "validation_error",
            AppError::BrowserError(_) => "browser_error",
            AppError::NetworkError(_) => "network_error",
        }
    }
}

/// Renders an error for the service log.
pub fn log_error(error: &AppError) -> (r: String)
    ensures
        r@ == ("[ERROR] ")@ + spec_app_error_message(*error),
{
    let mut s = String::from_str("[ERROR] ");
    let msg = error.message();
    s.append(msg.as_str());
    s
}

/// Wraps a browser-automation failure.
pub fn browser_error(message: &str) -> (r: AppError)
    ensures
        r matches AppError::BrowserError(m) && m@ == message@,
{
    AppError::BrowserError(String::from_str(message))
}

/// Wraps a network failure.
pub fn network_error(message: &str) -> (r: AppError)
    ensures
        r matches AppError::NetworkError(m) && m@ == message@,
{
    AppError::NetworkError(String::from_str(message))
}

/// Classifies an HTTP client error from its observed properties: a
/// timeout and a connection failure are network errors; anything else
/// is an internal request error.
pub fn classify_request_error(is_timeout: bool, is_connect: bool, text: &str) -> (r: AppError)
    ensures
        is_timeout ==> (r matches AppError::NetworkError(m) && m@ == ("Request timed out: ")@
            + text@),
        !is_timeout && is_connect ==> (r matches AppError::NetworkError(m) && m@ == (
        "Connection error: ")@ + text@),
        !is_timeout && !is_connect ==> (r matches AppError::InternalServerError(m) && m@ == (
        "Request error: ")@ + text@),
{
    if is_timeout {
        let mut s = String::from_str("Request timed out: ");
        s.append(text);
        AppError::NetworkError(s)
    } else if is_connect {
        let mut s = String::from_str("Connection error: ");
        s.append(text);
        AppError::NetworkError(s)
    } else {
        let mut s = String::from_str("Request error: ");
        s.append(text);
        AppError::InternalServerError(s)
    }
}

/// Wraps a filesystem failure.
pub fn io_error(text: &str) -> (r: AppError)
    ensures
        r matches AppError::InternalServerError(m) && m@ == ("IO error: ")@ + text@,
{
    let mut s = String::from_str("IO error: ");
    s.append(text);
    AppError::InternalServerError(s)
}

/// Wraps a malformed-payload failure.
pub fn json_error(text: &str) -> (r: AppError)
    ensures
        r matches AppError::BadRequest(m) && m@ == ("JSON error: ")@ + text@,
{
    let mut s = String::from_str("JSON error: ");
    s.append(text);
    AppError::BadRequest(s)
}

} // verus!
