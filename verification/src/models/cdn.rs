//! CDN model types

use vstd::prelude::*;
use crate::text::owned;
use crate::models::common::Meta;

verus! {

/// CDN Zone status
#[derive(Debug, Clone, Copy, PartialEq, Eq, Structural)]
pub enum CdnZoneStatus {
    Active,
    Pending,
    Unknown,
}

/// CDN origin scheme
#[derive(Debug, Clone, Copy, PartialEq, Eq, Structural)]
pub enum OriginScheme {
    Http,
    Https,
    Unknown,
}

/// CDN Pull Zone
#[derive(Debug, Clone)]
pub struct CdnPullZone {
    /// Unique ID for the CDN Pull Zone
    pub id: String,
    /// Date the CDN Pull Zone was created
    pub date_created: Option<String>,
    /// Current status (active, pending)
    pub status: Option<CdnZoneStatus>,
    /// User-supplied label
    pub label: Option<String>,
    /// URI scheme of the origin domain (http, https)
    pub origin_scheme: Option<OriginScheme>,
    /// Domain name from which content is pulled
    pub origin_domain: Option<String>,
    /// Vultr CDN endpoint URL
    pub cdn_url: Option<String>,
    /// Custom vanity domain
    pub vanity_domain: Option<String>,
    /// Cache size in bytes
    pub cache_size: Option<i64>,
    /// Number of requests
    pub requests: Option<i64>,
    /// Inbound bytes
    pub in_bytes: Option<i64>,
    /// Outbound bytes
    pub out_bytes: Option<i64>,
    /// Rate limit in packets per second
    pub packets_per_sec: Option<i64>,
    /// Last purge date
    pub last_purge: Option<String>,
    /// Cross-origin resource sharing enabled
    pub cors: Option<bool>,
    /// Gzip compression enabled
    pub gzip: Option<bool>,
    /// Block AI bots
    pub block_ai: Option<bool>,
    /// Block bad bots
    pub block_bad_bots: Option<bool>,
    /// List of region IDs
    pub regions: Vec<String>,
}

/// CDN Push Zone
#[derive(Debug, Clone)]
pub struct CdnPushZone {
    /// Unique ID for the CDN Push Zone
    pub id: String,
    /// Date the CDN Push Zone was created
    pub date_created: Option<String>,
    /// Current status (active, pending)
    pub status: Option<CdnZoneStatus>,
    /// User-supplied label
    pub label: Option<String>,
    /// Vultr CDN endpoint URL
    pub cdn_url: Option<String>,
    /// Custom vanity domain
    pub vanity_domain: Option<String>,
    /// Cache size in bytes
    pub cache_size: Option<i64>,
    /// Number of requests
    pub requests: Option<i64>,
    /// Inbound bytes
    pub in_bytes: Option<i64>,
    /// Outbound bytes
    pub out_bytes: Option<i64>,
    /// Rate limit in packets per second
    pub packets_per_sec: Option<i64>,
    /// Cross-origin resource sharing enabled
    pub cors: Option<bool>,
    /// Gzip compression enabled
    pub gzip: Option<bool>,
    /// Block AI bots
    pub block_ai: Option<bool>,
    /// Block bad bots
    pub block_bad_bots: Option<bool>,
    /// List of region IDs
    pub regions: Vec<String>,
}

/// CDN Push Zone File
#[derive(Debug, Clone)]
pub struct CdnPushZoneFile {
    /// File name
    pub name: Option<String>,
    /// MIME type
    pub mime: Option<String>,
    /// File size
    pub size: Option<String>,
    /// Base64 encoded file content
    pub content: Option<String>,
    /// Last modified date
    pub last_modified: Option<String>,
}

/// CDN Push Zone File Meta (for list operations)
#[derive(Debug, Clone)]
pub struct CdnPushZoneFileMeta {
    /// File name
    pub name: Option<String>,
    /// File size
    pub size: Option<String>,
    /// Last modified date
    pub last_modified: Option<String>,
}

/// CDN Upload Endpoint inputs
#[derive(Debug, Clone)]
pub struct CdnUploadEndpointInputs {
    /// Access control list
    pub acl: Option<String>,
    /// Upload key
    pub key: Option<String>,
    /// AWS credential
    pub x_amz_credential: Option<String>,
    /// AWS algorithm
    pub x_amz_algorithm: Option<String>,
    /// Encrypted policy
    pub policy: Option<String>,
    /// Request signature
    pub x_amz_signature: Option<String>,
    /// AWS date
    pub x_amz_date: Option<String>,
}

/// CDN Upload Endpoint
#[derive(Debug, Clone)]
pub struct CdnUploadEndpoint {
    /// Upload URL
    pub url: Option<String>,
    /// Upload inputs/credentials
    pub inputs: Option<CdnUploadEndpointInputs>,
}

/// Request to create a CDN Pull Zone
#[derive(Debug, Clone)]
pub struct CreatePullZoneRequest {
    /// Label for the pull zone
    pub label: String,
    /// Origin domain to pull content from
    pub origin_domain: String,
    /// Origin scheme (http or https)
    pub origin_scheme: Option<String>,
    /// Custom vanity domain
    pub vanity_domain: Option<String>,
    /// Enable SSL
    pub ssl_cert: Option<String>,
    /// SSL private key
    pub ssl_cert_key: Option<String>,
    /// Enable CORS
    pub cors: Option<bool>,
    /// Enable gzip compression
    pub gzip: Option<bool>,
    /// Block AI bots
    pub block_ai: Option<bool>,
    /// Block bad bots
    pub block_bad_bots: Option<bool>,
    /// List of region IDs
    pub regions: Option<Vec<String>>,
}

/// Request to update a CDN Pull Zone
#[derive(Debug, Clone, Default)]
pub struct UpdatePullZoneRequest {
    /// New label
    pub label: Option<String>,
    /// Origin domain
    pub origin_domain: Option<String>,
    /// Origin scheme
    pub origin_scheme: Option<String>,
    /// Custom vanity domain
    pub vanity_domain: Option<String>,
    /// SSL certificate
    pub ssl_cert: Option<String>,
    /// SSL private key
    pub ssl_cert_key: Option<String>,
    /// Enable CORS
    pub cors: Option<bool>,
    /// Enable gzip compression
    pub gzip: Option<bool>,
    /// Block AI bots
    pub block_ai: Option<bool>,
    /// Block bad bots
    pub block_bad_bots: Option<bool>,
    /// List of region IDs
    pub regions: Option<Vec<String>>,
}

/// Request to create a CDN Push Zone
#[derive(Debug, Clone)]
pub struct CreatePushZoneRequest {
    /// Label for the push zone
    pub label: String,
    /// Custom vanity domain
    pub vanity_domain: Option<String>,
    /// SSL certificate
    pub ssl_cert: Option<String>,
    /// SSL private key
    pub ssl_cert_key: Option<String>,
    /// Enable CORS
    pub cors: Option<bool>,
    /// Enable gzip compression
    pub gzip: Option<bool>,
    /// Block AI bots
    pub block_ai: Option<bool>,
    /// Block bad bots
    pub block_bad_bots: Option<bool>,
    /// List of region IDs
    pub regions: Option<Vec<String>>,
}

/// Request to update a CDN Push Zone
#[derive(Debug, Clone, Default)]
pub struct UpdatePushZoneRequest {
    /// New label
    pub label: Option<String>,
    /// Custom vanity domain
    pub vanity_domain: Option<String>,
    /// SSL certificate
    pub ssl_cert: Option<String>,
    /// SSL private key
    pub ssl_cert_key: Option<String>,
    /// Enable CORS
    pub cors: Option<bool>,
    /// Enable gzip compression
    pub gzip: Option<bool>,
    /// Block AI bots
    pub block_ai: Option<bool>,
    /// Block bad bots
    pub block_bad_bots: Option<bool>,
    /// List of region IDs
    pub regions: Option<Vec<String>>,
}

/// Request to create a file upload endpoint
#[derive(Debug, Clone)]
pub struct CreateFileEndpointRequest {
    /// File name
    pub name: String,
    /// File size in bytes
    pub size: i64,
}

/// Response wrapper for pull zone operations
#[derive(Debug, Clone)]
pub struct PullZoneResponse {
    pub pull_zone: CdnPullZone,
}

/// Response wrapper for pull zone list
#[derive(Debug, Clone)]
pub struct PullZonesResponse {
    pub pull_zones: Vec<CdnPullZone>,
}

/// Response wrapper for push zone operations
#[derive(Debug, Clone)]
pub struct PushZoneResponse {
    pub push_zone: CdnPushZone,
}

/// Response wrapper for push zone list
#[derive(Debug, Clone)]
pub struct PushZonesResponse {
    pub push_zones: Vec<CdnPushZone>,
}

/// Response wrapper for push zone file operations
#[derive(Debug, Clone)]
pub struct PushZoneFileResponse {
    pub file: CdnPushZoneFile,
}

/// Response wrapper for push zone file list
#[derive(Debug, Clone)]
pub struct PushZoneFilesResponse {
    pub files: Vec<CdnPushZoneFileMeta>,
}

/// Response wrapper for upload endpoint
#[derive(Debug, Clone)]
pub struct UploadEndpointResponse {
    pub upload_endpoint: CdnUploadEndpoint,
}

} // verus!

verus! {

impl CdnZoneStatus {
    /// The text that the API and the tables use for this value.
    pub open spec fn label(self) -> Seq<char> {
        match self {
            CdnZoneStatus::Active => "active"@,
            CdnZoneStatus::Pending => "pending"@,
            CdnZoneStatus::Unknown => "unknown"@,
        }
    }

    /// The text of this value, as its display form shows it.
    pub fn as_str(&self) -> (s: &'static str)
        ensures
            s@ == self.label(),
    {
        match self {
            CdnZoneStatus::Active => "active",
            CdnZoneStatus::Pending => "pending",
            CdnZoneStatus::Unknown => "unknown",
        }
    }

    /// The display form of this value as an owned string.
    pub fn to_string(&self) -> (s: String)
        ensures
            s@ == self.label(),
    {
        owned(self.as_str())
    }
}

impl OriginScheme {
    /// The text that the API and the tables use for this value.
    pub open spec fn label(self) -> Seq<char> {
        match self {
            OriginScheme::Http => "http"@,
            OriginScheme::Https => "https"@,
            OriginScheme::Unknown => "unknown"@,
        }
    }

    /// The text of this value, as its display form shows it.
    pub fn as_str(&self) -> (s: &'static str)
        ensures
            s@ == self.label(),
    {
        match self {
            OriginScheme::Http => "http",
            OriginScheme::Https => "https",
            OriginScheme::Unknown => "unknown",
        }
    }

    /// The display form of this value as an owned string.
    pub fn to_string(&self) -> (s: String)
        ensures
            s@ == self.label(),
    {
        owned(self.as_str())
    }
}

impl CdnPullZone {
    /// Check if the pull zone is active.
    pub fn is_active(&self) -> (r: bool)
        ensures
            r == (self.status == Some(CdnZoneStatus::Active)),
    {
        match self.status {
            Some(CdnZoneStatus::Active) => true,
            _ => false,
        }
    }
}

impl CdnPushZone {
    /// Check if the push zone is active.
    pub fn is_active(&self) -> (r: bool)
        ensures
            r == (self.status == Some(CdnZoneStatus::Active)),
    {
        match self.status {
            Some(CdnZoneStatus::Active) => true,
            _ => false,
        }
    }
}

} // verus!
