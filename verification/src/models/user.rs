//! User model types

use vstd::prelude::*;
use crate::models::common::Meta;

verus! {

/// User account
#[derive(Debug, Clone)]
pub struct User {
    /// User ID
    pub id: String,
    /// User name
    pub name: Option<String>,
    /// User email
    pub email: Option<String>,
    /// Whether API is enabled
    pub api_enabled: Option<bool>,
    /// Access control list
    pub acls: Vec<String>,
}

/// Response wrapper for user
#[derive(Debug, Clone)]
pub struct UserResponse {
    pub user: User,
}

/// Response wrapper for user list
#[derive(Debug, Clone)]
pub struct UsersResponse {
    pub users: Vec<User>,
    pub meta: Option<Meta>,
}

/// Request to create a user
#[derive(Debug, Clone)]
pub struct CreateUserRequest {
    /// User email
    pub email: String,
    /// User name
    pub name: String,
    /// User password
    pub password: String,
    /// Whether API is enabled
    pub api_enabled: Option<bool>,
    /// Access control list
    pub acls: Option<Vec<String>>,
}

/// Request to update a user
#[derive(Debug, Clone, Default)]
pub struct UpdateUserRequest {
    /// User name
    pub name: Option<String>,
    /// User email
    pub email: Option<String>,
    /// User password
    pub password: Option<String>,
    /// Whether API is enabled
    pub api_enabled: Option<bool>,
    /// Access control list
    pub acls: Option<Vec<String>>,
}

/// API key
#[derive(Debug, Clone)]
pub struct ApiKey {
    /// API key ID
    pub id: Option<String>,
    /// API key name
    pub name: Option<String>,
    /// The API key value (only shown on creation)
    pub api_key: Option<String>,
    /// Date created
    pub date_created: Option<String>,
}

/// Response wrapper for API key
#[derive(Debug, Clone)]
pub struct ApiKeyResponse {
    pub api_key: ApiKey,
}

/// Response wrapper for API key list
#[derive(Debug, Clone)]
pub struct ApiKeysResponse {
    pub api_keys: Vec<ApiKey>,
    pub meta: Option<Meta>,
}

/// Request to create an API key
#[derive(Debug, Clone)]
pub struct CreateApiKeyRequest {
    /// API key name
    pub name: String,
}

/// IP whitelist entry
#[derive(Debug, Clone)]
pub struct IpWhitelistEntry {
    /// Subnet (IP address)
    pub subnet: Option<String>,
    /// Subnet size (CIDR mask)
    pub subnet_size: Option<i32>,
    /// Date added
    pub date_added: Option<String>,
    /// IP type (v4 or v6)
    pub ip_type: Option<String>,
}

/// Response wrapper for IP whitelist entry
#[derive(Debug, Clone)]
pub struct IpWhitelistEntryResponse {
    pub ip_whitelist_entry: IpWhitelistEntry,
}

/// Response wrapper for IP whitelist list
#[derive(Debug, Clone)]
pub struct IpWhitelistResponse {
    pub ip_whitelist: Vec<IpWhitelistEntry>,
    pub meta: Option<Meta>,
}

/// Request to add an IP to whitelist
#[derive(Debug, Clone)]
pub struct AddIpWhitelistRequest {
    /// Subnet (IP address)
    pub subnet: String,
    /// Subnet size (CIDR mask)
    pub subnet_size: i32,
}

/// Request to delete an IP from whitelist
#[derive(Debug, Clone)]
pub struct DeleteIpWhitelistRequest {
    /// Subnet (IP address)
    pub subnet: String,
    /// Subnet size (CIDR mask)
    pub subnet_size: i32,
}

} // verus!
