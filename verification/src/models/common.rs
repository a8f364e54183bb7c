//! Common model types shared across the API

use vstd::prelude::*;

verus! {

/// Pagination metadata
#[derive(Debug, Clone, Default)]
pub struct Meta {
    /// Total number of objects available
    pub total: Option<i32>,
    /// Pagination links
    pub links: Option<PaginationLinks>,
}

/// Cursor-based pagination links
#[derive(Debug, Clone, Default)]
pub struct PaginationLinks {
    /// Cursor for the next page
    pub next: Option<String>,
    /// Cursor for the previous page  
    pub prev: Option<String>,
}

/// Generic list response wrapper
#[derive(Debug, Clone)]
pub struct ListResponse<T> {
    pub data: T,
    pub meta: Meta,
}

/// Region information
#[derive(Debug, Clone)]
pub struct Region {
    /// Unique ID for the region (e.g., "ewr", "lax")
    pub id: String,
    /// City name
    pub city: Option<String>,
    /// Two-letter country code
    pub country: Option<String>,
    /// Continent name
    pub continent: Option<String>,
    /// Available features in this region
    pub options: Vec<String>,
}

/// Operating System information
#[derive(Debug, Clone)]
pub struct Os {
    /// Operating System ID
    pub id: i32,
    /// OS name/description
    pub name: Option<String>,
    /// Architecture (x64, i386, etc.)
    pub arch: Option<String>,
    /// OS family (centos, ubuntu, windows, etc.)
    pub family: Option<String>,
}

/// Response wrapper for regions list
#[derive(Debug, Clone)]
pub struct RegionsResponse {
    pub regions: Vec<Region>,
}

/// Response wrapper for OS list
#[derive(Debug, Clone)]
pub struct OsResponse {
    pub os: Vec<Os>,
}

} // verus!
