//! Account model types

use vstd::prelude::*;

verus! {

/// BGP information for the account
#[derive(Debug, Clone)]
pub struct BgpInfo {
    /// BGP enabled status
    pub enabled: Option<bool>,
    /// BGP ASN
    pub asn: Option<i64>,
    /// IPv4 prefixes
    pub allowed_prefix_ipv4: Vec<BgpPrefix>,
    /// IPv6 prefixes
    pub allowed_prefix_ipv6: Vec<BgpPrefix>,
}

/// BGP prefix information
#[derive(Debug, Clone)]
pub struct BgpPrefix {
    /// IP prefix
    pub prefix: Option<String>,
    /// Description
    pub description: Option<String>,
}

/// Response wrapper for BGP info
#[derive(Debug, Clone)]
pub struct BgpResponse {
    pub bgp_info: BgpInfo,
}

} // verus!
