//! Client settings, request URLs and the mapping of HTTP answers to errors.

use crate::error::{ApiErrorResponse, VultrError, VultrResult};
use crate::models::common::Meta;
use crate::text::owned;
use vstd::prelude::*;

verus! {

/// Base URL for the Vultr API.
pub const API_BASE_URL: &'static str = "https://api.vultr.com/v2";

/// The settings of an authenticated API client: its key and its retry policy.
/// The HTTP transport that carries the requests is held beside it by the caller.
#[derive(Debug, Clone)]
pub struct VultrClient {
    api_key: String,
    http_timeout_seconds: u64,
    max_retries: u32,
    backoff_initial_ms: u64,
    backoff_max_ms: u64,
}

impl VultrClient {
    /// The API key the client authenticates with.
    pub closed spec fn key(&self) -> Seq<char> {
        self.api_key@
    }

    /// The HTTP timeout, in seconds.
    pub closed spec fn timeout_secs(&self) -> u64 {
        self.http_timeout_seconds
    }

    /// How often a transient failure is retried.
    pub closed spec fn retries(&self) -> u32 {
        self.max_retries
    }

    /// The first backoff delay, in milliseconds.
    pub closed spec fn initial_backoff(&self) -> u64 {
        self.backoff_initial_ms
    }

    /// The longest backoff delay, in milliseconds.
    pub closed spec fn max_backoff(&self) -> u64 {
        self.backoff_max_ms
    }

    /// Create a new Vultr API client. The HTTP timeout is at least one second.
    pub fn new(
        api_key: String,
        http_timeout_seconds: u64,
        max_retries: u32,
        backoff_initial_ms: u64,
        backoff_max_ms: u64,
    ) -> (r: VultrResult<Self>)
        ensures
            r matches Ok(c) && c.key() == api_key@ && c.timeout_secs() == (if http_timeout_seconds
                >= 1 {
                http_timeout_seconds
            } else {
                1
            }) && c.retries() == max_retries && c.initial_backoff() == backoff_initial_ms
                && c.max_backoff() == backoff_max_ms,
    {
        let timeout = if http_timeout_seconds >= 1 { http_timeout_seconds } else { 1 };
        Ok(VultrClient {
            api_key,
            http_timeout_seconds: timeout,
            max_retries,
            backoff_initial_ms,
            backoff_max_ms,
        })
    }

    /// The API key.
    pub fn api_key(&self) -> (r: &str)
        ensures
            r@ == self.key(),
    {
        self.api_key.as_str()
    }

    /// The HTTP timeout, in seconds.
    pub fn http_timeout_seconds(&self) -> (r: u64)
        ensures
            r == self.timeout_secs(),
    {
        self.http_timeout_seconds
    }

    /// How often a transient failure is retried.
    pub fn max_retries(&self) -> (r: u32)
        ensures
            r == self.retries(),
    {
        self.max_retries
    }

    /// The first backoff delay, in milliseconds.
    pub fn backoff_initial_ms(&self) -> (r: u64)
        ensures
            r == self.initial_backoff(),
    {
        self.backoff_initial_ms
    }

    /// The longest backoff delay, in milliseconds.
    pub fn backoff_max_ms(&self) -> (r: u64)
        ensures
            r == self.max_backoff(),
    {
        self.backoff_max_ms
    }

    /// The value of the `Authorization` header: `Bearer <key>`.
    pub fn authorization(&self) -> (r: String)
        ensures
            r@ == "Bearer "@ + self.key(),
    {
        let mut r = owned("Bearer ");
        r.append(self.api_key.as_str());
        r
    }
}

/// The full URL of an API path.
pub fn api_url(path: &str) -> (r: String)
    ensures
        r@ == API_BASE_URL@ + path@,
{
    let mut r = owned(API_BASE_URL);
    r.append(path);
    r
}

/// A 2xx status.
pub open spec fn success_status(status: u16) -> bool {
    200 <= status <= 299
}

/// Whether a status is a success (2xx), as `StatusCode::is_success` decides.
pub fn is_success(status: u16) -> (r: bool)
    ensures
        r == success_status(status),
{
    200 <= status && status <= 299
}

/// The error that an unsuccessful answer with the given status, body and parsed error body
/// is turned into.
pub open spec fn is_error_for(e: VultrError, status: u16, body: Seq<char>, parsed: Option<ApiErrorResponse>) -> bool {
    if status == 401 {
        e is InvalidApiKey
    } else if status == 429 {
        e is RateLimited
    } else {
        match parsed {
            Some(p) => e matches VultrError::ApiError { status: s, message: m } && s == (match p.status {
                Some(ps) => ps,
                None => status,
            }) && m@ == p.error@,
            None => e matches VultrError::ApiError { status: s, message: m } && s == status && m@ == (
            if status == 404 {
                "Resource not found"@
            } else {
                "API error: "@ + body
            }),
        }
    }
}

/// Turn an unsuccessful answer into an error. `parsed` is the body read as an API error
/// document, when it is one.
pub fn error_for_status(status: u16, body: &str, parsed: Option<ApiErrorResponse>) -> (e: VultrError)
    ensures
        is_error_for(e, status, body@, parsed),
{
    if status == 401 {
        VultrError::InvalidApiKey
    } else if status == 429 {
        VultrError::RateLimited
    } else {
        match parsed {
            Some(p) => {
                let s = match p.status {
                    Some(ps) => ps,
                    None => status,
                };
                VultrError::ApiError { status: s, message: p.error }
            },
            None => {
                if status == 404 {
                    VultrError::api_error(status, "Resource not found")
                } else {
                    let mut m = owned("API error: ");
                    m.append(body);
                    VultrError::ApiError { status, message: m }
                }
            },
        }
    }
}

/// The error for a successful answer whose body is empty.
pub fn empty_body_error() -> (e: VultrError)
    ensures
        e matches VultrError::JsonError(m) && m@ == "Empty response"@,
{
    VultrError::JsonError(owned("Empty response"))
}

/// Pagination metadata for a listing that the API returns whole: the total is the count,
/// converted as `len() as i32` converts it, and there are no links.
pub fn meta_for_count(count: usize) -> (m: Meta)
    ensures
        m.total == Some(count as i32),
        m.links is None,
{
    Meta { total: Some(count as i32), links: None }
}

/// Only a 401 answer means an invalid key and only a 429 answer a rate limit; every other
/// unsuccessful answer is an API error carrying the status and message of the error
/// document when there is one, else the answer's own status with "Resource not found" for a
/// 404 or the body otherwise.
pub proof fn errors_for_answers(e: VultrError, status: u16, body: Seq<char>, parsed: Option<ApiErrorResponse>)
    requires
        is_error_for(e, status, body, parsed),
    ensures
        e is InvalidApiKey <==> status == 401,
        e is RateLimited <==> status == 429,
        status != 401 && status != 429 ==> e is ApiError,
        status != 401 && status != 429 && parsed is None ==> (e matches VultrError::ApiError { status: s, message: m }
            && s == status && (status == 404 ==> m@ == "Resource not found"@) && (status != 404 ==> m@ == "API error: "@ + body)),
        status != 401 && status != 429 ==> (parsed matches Some(p) ==> (e matches VultrError::ApiError { status: s, message: m }
            && m@ == p.error@ && (p.status matches Some(ps) ==> s == ps) && (p.status is None ==> s == status))),
{
}

} // verus!
