//! Error types of the client and the exit codes they map to.

use crate::text::{decimal, owned, u64_to_decimal};
use vstd::prelude::*;

verus! {

/// Main error type of the client.
#[derive(Debug)]
pub enum VultrError {
    /// The API answered with an error status and message.
    ApiError { status: u16, message: String },
    /// No API key is available.
    AuthenticationRequired,
    /// The API rejected the key.
    InvalidApiKey,
    /// A transport error, carried as its message.
    NetworkError(String),
    /// A configuration problem.
    ConfigError(String),
    /// A JSON (de)serialization problem, carried as its message.
    JsonError(String),
    /// A resource of the given type and id does not exist.
    NotFound { resource_type: String, id: String },
    /// The API rate limit was hit.
    RateLimited,
    /// An operation did not finish in time.
    Timeout { seconds: u64 },
    /// The user cancelled the operation.
    Cancelled,
    /// The user gave invalid input.
    InvalidInput(String),
    /// A local I/O problem, carried as its message.
    IoError(String),
}

/// The exit code that the command line reports for an error.
pub open spec fn spec_exit_code(e: VultrError) -> int {
    match e {
        VultrError::AuthenticationRequired => 2,
        VultrError::InvalidApiKey => 2,
        VultrError::NotFound { .. } => 3,
        VultrError::RateLimited => 4,
        VultrError::Timeout { .. } => 5,
        VultrError::Cancelled => 6,
        VultrError::InvalidInput(_) => 7,
        VultrError::ApiError { status, .. } => if status >= 500 {
            10
        } else if status >= 400 {
            11
        } else {
            1
        },
        _ => 1,
    }
}

/// Result type alias for client operations.
pub type VultrResult<T> = Result<T, VultrError>;

/// API error response body from Vultr.
#[derive(Debug, Clone)]
pub struct ApiErrorResponse {
    pub error: String,
    pub status: Option<u16>,
}

impl VultrError {
    /// Create an API error from status code and message.
    pub fn api_error(status: u16, message: &str) -> (e: Self)
        ensures
            e matches VultrError::ApiError { status: s, message: m } && s == status && m@ == message@,
    {
        VultrError::ApiError { status, message: owned(message) }
    }

    /// Create a not found error.
    pub fn not_found(resource_type: &str, id: &str) -> (e: Self)
        ensures
            e matches VultrError::NotFound { resource_type: t, id: i } && t@ == resource_type@ && i@ == id@,
    {
        VultrError::NotFound { resource_type: owned(resource_type), id: owned(id) }
    }

    /// Get the exit code for this error.
    pub fn exit_code(&self) -> (code: i32)
        ensures
            code == spec_exit_code(*self),
    {
        match self {
            VultrError::AuthenticationRequired => 2,
            VultrError::InvalidApiKey => 2,
            VultrError::NotFound { .. } => 3,
            VultrError::RateLimited => 4,
            VultrError::Timeout { .. } => 5,
            VultrError::Cancelled => 6,
            VultrError::InvalidInput(_) => 7,
            VultrError::ApiError { status, .. } => {
                if *status >= 500 {
                    10
                } else if *status >= 400 {
                    11
                } else {
                    1
                }
            },
            _ => 1,
        }
    }
}

/// The message shown for an error.
pub open spec fn message_of(e: VultrError) -> Seq<char> {
    match e {
        VultrError::ApiError { status, message } => "API error: "@ + decimal(status as nat) + " - "@ + message@,
        VultrError::AuthenticationRequired => "Authentication required. Run 'vultr-cli auth login' or set VULTR_API_KEY"@,
        VultrError::InvalidApiKey => "Invalid API key format"@,
        VultrError::NetworkError(m) => "Network error: "@ + m@,
        VultrError::ConfigError(m) => "Configuration error: "@ + m@,
        VultrError::JsonError(m) => "JSON parsing error: "@ + m@,
        VultrError::NotFound { resource_type, id } => "Resource not found: "@ + resource_type@ + " with id '"@ + id@ + "'"@,
        VultrError::RateLimited => "Rate limit exceeded. Please wait and try again."@,
        VultrError::Timeout { seconds } => "Operation timed out after "@ + decimal(seconds as nat) + " seconds"@,
        VultrError::Cancelled => "Operation cancelled by user"@,
        VultrError::InvalidInput(m) => "Invalid input: "@ + m@,
        VultrError::IoError(m) => "IO error: "@ + m@,
    }
}

fn prefixed(prefix: &str, rest: &str) -> (r: String)
    ensures
        r@ == prefix@ + rest@,
{
    let mut r = owned(prefix);
    r.append(rest);
    r
}

impl VultrError {
    /// The message shown for this error, as its display form writes it.
    pub fn to_string(&self) -> (r: String)
        ensures
            r@ == message_of(*self),
    {
        match self {
            VultrError::ApiError { status, message } => {
                let mut r = owned("API error: ");
                let d = u64_to_decimal(*status as u64);
                r.append(d.as_str());
                r.append(" - ");
                r.append(message.as_str());
                r
            },
            VultrError::AuthenticationRequired => owned(
                "Authentication required. Run 'vultr-cli auth login' or set VULTR_API_KEY",
            ),
            VultrError::InvalidApiKey => owned("Invalid API key format"),
            VultrError::NetworkError(m) => prefixed("Network error: ", m.as_str()),
            VultrError::ConfigError(m) => prefixed("Configuration error: ", m.as_str()),
            VultrError::JsonError(m) => prefixed("JSON parsing error: ", m.as_str()),
            VultrError::NotFound { resource_type, id } => {
                let mut r = owned("Resource not found: ");
                r.append(resource_type.as_str());
                r.append(" with id '");
                r.append(id.as_str());
                r.append("'");
                r
            },
            VultrError::RateLimited => owned("Rate limit exceeded. Please wait and try again."),
            VultrError::Timeout { seconds } => {
                let mut r = owned("Operation timed out after ");
                let d = u64_to_decimal(*seconds);
                r.append(d.as_str());
                r.append(" seconds");
                r
            },
            VultrError::Cancelled => owned("Operation cancelled by user"),
            VultrError::InvalidInput(m) => prefixed("Invalid input: ", m.as_str()),
            VultrError::IoError(m) => prefixed("IO error: ", m.as_str()),
        }
    }
}

/// The documented exit codes: authentication problems exit with 2, a missing resource
/// with 3, rate limiting with 4, a timeout with 5, a cancellation with 6, invalid input
/// with 7, API errors with 10 for 5xx and 11 for 4xx statuses, and every other error with 1.
pub proof fn exit_codes_follow_the_documented_table(e: VultrError)
    ensures
        (e is AuthenticationRequired || e is InvalidApiKey) ==> spec_exit_code(e) == 2,
        e is NotFound ==> spec_exit_code(e) == 3,
        e is RateLimited ==> spec_exit_code(e) == 4,
        e is Timeout ==> spec_exit_code(e) == 5,
        e is Cancelled ==> spec_exit_code(e) == 6,
        e is InvalidInput ==> spec_exit_code(e) == 7,
        e matches VultrError::ApiError { status, .. } ==> (
            (500 <= status ==> spec_exit_code(e) == 10)
            && (400 <= status < 500 ==> spec_exit_code(e) == 11)
            && (status < 400 ==> spec_exit_code(e) == 1)),
        (e is NetworkError || e is ConfigError || e is JsonError || e is IoError) ==> spec_exit_code(e) == 1,
        spec_exit_code(e) != 0,
{
}

} // verus!
