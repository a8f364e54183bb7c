//! DNS model types

use vstd::prelude::*;
use crate::models::common::Meta;

verus! {

/// DNS Domain
#[derive(Debug, Clone)]
pub struct DnsDomain {
    /// Your registered domain name
    pub domain: String,
    /// Date the DNS Domain was created
    pub date_created: Option<String>,
    /// The domain's DNSSEC status (enabled/disabled)
    pub dns_sec: Option<String>,
}

/// DNS SOA Record information
#[derive(Debug, Clone)]
pub struct DnsSoa {
    /// Primary nameserver for this domain
    pub nsprimary: Option<String>,
    /// Domain contact email address
    pub email: Option<String>,
}

/// DNS Record information
#[derive(Debug, Clone)]
pub struct DnsRecord {
    /// A unique ID for the DNS Record
    pub id: String,
    /// The DNS record type (A, AAAA, CNAME, NS, MX, SRV, TXT, CAA, SSHFP)
    pub record_type: Option<String>,
    /// The hostname for this DNS record
    pub name: Option<String>,
    /// The DNS data for this record type
    pub data: Option<String>,
    /// DNS priority. Does not apply to all record types
    pub priority: Option<i32>,
    /// Time to Live in seconds
    pub ttl: Option<i32>,
}

/// DNSSEC information (array of DNSKEY and DS records as strings)
#[derive(Debug, Clone)]
pub struct DnsSec {
    /// Array of DNSKEY and DS record strings
    pub dns_sec: Vec<String>,
}

/// Request to create a DNS domain
#[derive(Debug, Clone)]
pub struct CreateDomainRequest {
    /// Your registered DNS Domain name
    pub domain: String,
    /// The default IP address for your DNS Domain (optional)
    pub ip: Option<String>,
    /// Enable or disable DNSSEC (enabled/disabled)
    pub dns_sec: Option<String>,
}

/// Request to update a DNS domain
#[derive(Debug, Clone, Default)]
pub struct UpdateDomainRequest {
    /// Enable or disable DNSSEC (enabled/disabled)
    pub dns_sec: Option<String>,
}

/// Request to create a DNS record
#[derive(Debug, Clone)]
pub struct CreateRecordRequest {
    /// The hostname for this DNS record
    pub name: String,
    /// The DNS record type (A, AAAA, CNAME, NS, MX, SRV, TXT, CAA, SSHFP)
    pub record_type: String,
    /// The DNS data for this record type
    pub data: String,
    /// Time to Live in seconds
    pub ttl: Option<i32>,
    /// DNS priority. Only required for MX and SRV
    pub priority: Option<i32>,
}

/// Request to update a DNS record
#[derive(Debug, Clone, Default)]
pub struct UpdateRecordRequest {
    /// The hostname for this DNS record
    pub name: Option<String>,
    /// The DNS data for this record type
    pub data: Option<String>,
    /// Time to Live in seconds
    pub ttl: Option<i32>,
    /// DNS priority
    pub priority: Option<i32>,
}

/// Request to update SOA information
#[derive(Debug, Clone, Default)]
pub struct UpdateSoaRequest {
    /// Set the primary nameserver
    pub nsprimary: Option<String>,
    /// Set the contact email address
    pub email: Option<String>,
}

/// Response wrapper for domain operations
#[derive(Debug, Clone)]
pub struct DomainResponse {
    pub domain: DnsDomain,
}

/// Response wrapper for record operations
#[derive(Debug, Clone)]
pub struct RecordResponse {
    pub record: DnsRecord,
}

/// Response wrapper for SOA
#[derive(Debug, Clone)]
pub struct SoaResponse {
    pub dns_soa: DnsSoa,
}

/// Response wrapper for domain list with pagination
#[derive(Debug, Clone)]
pub struct DomainsResponseWithMeta {
    pub domains: Vec<DnsDomain>,
    pub meta: Meta,
}

/// Response wrapper for record list with pagination
#[derive(Debug, Clone)]
pub struct RecordsResponseWithMeta {
    pub records: Vec<DnsRecord>,
    pub meta: Meta,
}

} // verus!
