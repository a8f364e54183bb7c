//! Firewall model types

use vstd::prelude::*;
use crate::codec::{spec_to_lowercase, spec_to_uppercase, to_lowercase, to_uppercase};
use crate::text::{cidr, cidr_text, owned, str_eq};

verus! {

/// IP type for firewall rules
#[derive(Debug, Clone, Copy, PartialEq, Eq, Structural)]
pub enum IpType {
    V4,
    V6,
    Unknown,
}

/// Protocol for firewall rules
#[derive(Debug, Clone, Copy, PartialEq, Eq, Structural)]
pub enum Protocol {
    Tcp,
    Udp,
    Icmp,
    Gre,
    Esp,
    Ah,
    Unknown,
}

/// Firewall Group
#[derive(Debug, Clone)]
pub struct FirewallGroup {
    /// Unique ID for the firewall group
    pub id: String,
    /// User-supplied description
    pub description: Option<String>,
    /// Date created
    pub date_created: Option<String>,
    /// Date last modified
    pub date_modified: Option<String>,
    /// Number of instances using this group
    pub instance_count: Option<i32>,
    /// Number of rules in this group
    pub rule_count: Option<i32>,
    /// Maximum number of rules allowed
    pub max_rule_count: Option<i32>,
}

/// Firewall Rule
#[derive(Debug, Clone)]
pub struct FirewallRule {
    /// Unique ID for the rule
    pub id: i32,
    /// IP type (v4 or v6)
    pub ip_type: Option<IpType>,
    /// Action (currently only "accept")
    pub action: Option<String>,
    /// Protocol
    pub protocol: Option<Protocol>,
    /// Port or port range
    pub port: Option<String>,
    /// Subnet IP address
    pub subnet: Option<String>,
    /// Subnet size (CIDR bits)
    pub subnet_size: Option<i32>,
    /// Source (empty string, "cloudflare", or load balancer ID)
    pub source: Option<String>,
    /// User-supplied notes
    pub notes: Option<String>,
}

/// Request to create a firewall group
#[derive(Debug, Clone, Default)]
pub struct CreateFirewallGroupRequest {
    /// Description for the firewall group
    pub description: Option<String>,
}

/// Request to update a firewall group
#[derive(Debug, Clone, Default)]
pub struct UpdateFirewallGroupRequest {
    /// New description
    pub description: Option<String>,
}

/// Request to create a firewall rule
#[derive(Debug, Clone)]
pub struct CreateFirewallRuleRequest {
    /// IP type (v4 or v6)
    pub ip_type: String,
    /// Protocol (TCP, UDP, ICMP, GRE, ESP, AH)
    pub protocol: String,
    /// Subnet IP address
    pub subnet: String,
    /// Subnet size (CIDR bits)
    pub subnet_size: i32,
    /// Port or port range (for TCP/UDP)
    pub port: Option<String>,
    /// Source (empty, "cloudflare", or load balancer ID)
    pub source: Option<String>,
    /// Notes
    pub notes: Option<String>,
}

/// Response wrapper for firewall group operations
#[derive(Debug, Clone)]
pub struct FirewallGroupResponse {
    pub firewall_group: FirewallGroup,
}

/// Response wrapper for firewall group list
#[derive(Debug, Clone)]
pub struct FirewallGroupsResponse {
    pub firewall_groups: Vec<FirewallGroup>,
}

/// Response wrapper for firewall rule operations
#[derive(Debug, Clone)]
pub struct FirewallRuleResponse {
    pub firewall_rule: FirewallRule,
}

/// Response wrapper for firewall rule list
#[derive(Debug, Clone)]
pub struct FirewallRulesResponse {
    pub firewall_rules: Vec<FirewallRule>,
}

} // verus!

verus! {

impl IpType {
    /// The text that the API and the tables use for this value.
    pub open spec fn label(self) -> Seq<char> {
        match self {
            IpType::V4 => "v4"@,
            IpType::V6 => "v6"@,
            IpType::Unknown => "unknown"@,
        }
    }

    /// The text of this value, as its display form shows it.
    pub fn as_str(&self) -> (s: &'static str)
        ensures
            s@ == self.label(),
    {
        match self {
            IpType::V4 => "v4",
            IpType::V6 => "v6",
            IpType::Unknown => "unknown",
        }
    }

    /// The display form of this value as an owned string.
    pub fn to_string(&self) -> (s: String)
        ensures
            s@ == self.label(),
    {
        owned(self.as_str())
    }

    /// The value named by `s` after Unicode lower-case mapping, if any.
    pub open spec fn parsed(s: Seq<char>) -> Option<IpType> {
        let k = spec_to_lowercase(s);
        if k == "v4"@ {
            Some(IpType::V4)
        } else if k == "ipv4"@ {
            Some(IpType::V4)
        } else if k == "v6"@ {
            Some(IpType::V6)
        } else if k == "ipv6"@ {
            Some(IpType::V6)
        } else {
            None
        }
    }

    /// Parse a value as its `FromStr` implementation does; the error names the input.
    pub fn parse(s: &str) -> (r: Result<IpType, String>)
        ensures
            r matches Ok(v) ==> Self::parsed(s@) == Some(v),
            r matches Err(msg) ==> Self::parsed(s@) is None && msg@ == "Unknown IP type: "@ + s@,
    {
        let k = to_lowercase(s);
        if str_eq(k.as_str(), "v4") {
            Ok(IpType::V4)
        } else if str_eq(k.as_str(), "ipv4") {
            Ok(IpType::V4)
        } else if str_eq(k.as_str(), "v6") {
            Ok(IpType::V6)
        } else if str_eq(k.as_str(), "ipv6") {
            Ok(IpType::V6)
        } else {
            let mut msg = owned("Unknown IP type: ");
            msg.append(s);
            Err(msg)
        }
    }
}

impl std::str::FromStr for IpType {
    type Err = String;

    fn from_str(s: &str) -> (r: Result<Self, Self::Err>)
        ensures
            r matches Ok(v) ==> Self::parsed(s@) == Some(v),
            r matches Err(msg) ==> Self::parsed(s@) is None && msg@ == "Unknown IP type: "@ + s@,
    {
        IpType::parse(s)
    }
}

impl Protocol {
    /// The text that the API and the tables use for this value.
    pub open spec fn label(self) -> Seq<char> {
        match self {
            Protocol::Tcp => "TCP"@,
            Protocol::Udp => "UDP"@,
            Protocol::Icmp => "ICMP"@,
            Protocol::Gre => "GRE"@,
            Protocol::Esp => "ESP"@,
            Protocol::Ah => "AH"@,
            Protocol::Unknown => "unknown"@,
        }
    }

    /// The text of this value, as its display form shows it.
    pub fn as_str(&self) -> (s: &'static str)
        ensures
            s@ == self.label(),
    {
        match self {
            Protocol::Tcp => "TCP",
            Protocol::Udp => "UDP",
            Protocol::Icmp => "ICMP",
            Protocol::Gre => "GRE",
            Protocol::Esp => "ESP",
            Protocol::Ah => "AH",
            Protocol::Unknown => "unknown",
        }
    }

    /// The display form of this value as an owned string.
    pub fn to_string(&self) -> (s: String)
        ensures
            s@ == self.label(),
    {
        owned(self.as_str())
    }

    /// The value named by `s` after Unicode upper-case mapping, if any.
    pub open spec fn parsed(s: Seq<char>) -> Option<Protocol> {
        let k = spec_to_uppercase(s);
        if k == "TCP"@ {
            Some(Protocol::Tcp)
        } else if k == "UDP"@ {
            Some(Protocol::Udp)
        } else if k == "ICMP"@ {
            Some(Protocol::Icmp)
        } else if k == "GRE"@ {
            Some(Protocol::Gre)
        } else if k == "ESP"@ {
            Some(Protocol::Esp)
        } else if k == "AH"@ {
            Some(Protocol::Ah)
        } else {
            None
        }
    }

    /// Parse a value as its `FromStr` implementation does; the error names the input.
    pub fn parse(s: &str) -> (r: Result<Protocol, String>)
        ensures
            r matches Ok(v) ==> Self::parsed(s@) == Some(v),
            r matches Err(msg) ==> Self::parsed(s@) is None && msg@ == "Unknown protocol: "@ + s@,
    {
        let k = to_uppercase(s);
        if str_eq(k.as_str(), "TCP") {
            Ok(Protocol::Tcp)
        } else if str_eq(k.as_str(), "UDP") {
            Ok(Protocol::Udp)
        } else if str_eq(k.as_str(), "ICMP") {
            Ok(Protocol::Icmp)
        } else if str_eq(k.as_str(), "GRE") {
            Ok(Protocol::Gre)
        } else if str_eq(k.as_str(), "ESP") {
            Ok(Protocol::Esp)
        } else if str_eq(k.as_str(), "AH") {
            Ok(Protocol::Ah)
        } else {
            let mut msg = owned("Unknown protocol: ");
            msg.append(s);
            Err(msg)
        }
    }
}

impl std::str::FromStr for Protocol {
    type Err = String;

    fn from_str(s: &str) -> (r: Result<Self, Self::Err>)
        ensures
            r matches Ok(v) ==> Self::parsed(s@) == Some(v),
            r matches Err(msg) ==> Self::parsed(s@) is None && msg@ == "Unknown protocol: "@ + s@,
    {
        Protocol::parse(s)
    }
}

impl FirewallRule {
    /// `subnet/size` when both are known.
    pub open spec fn cidr_view(self) -> Option<Seq<char>> {
        match (self.subnet, self.subnet_size) {
            (Some(subnet), Some(size)) => Some(cidr_text(subnet@, size as int)),
            _ => None,
        }
    }

    /// Get the CIDR notation for this rule.
    pub fn cidr(&self) -> (r: Option<String>)
        ensures
            r.is_some() == self.cidr_view().is_some(),
            r matches Some(s) ==> Some(s@) == self.cidr_view(),
    {
        match (&self.subnet, self.subnet_size) {
            (Some(subnet), Some(size)) => Some(cidr(subnet.as_str(), size)),
            _ => None,
        }
    }
}

} // verus!
