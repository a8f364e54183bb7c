//! Bare Metal server models

use std::collections::HashMap;
use vstd::prelude::*;
use crate::models::instance::BandwidthData;

verus! {

/// Bare Metal server information
#[derive(Debug, Clone)]
pub struct BareMetal {
    /// A unique ID for the Bare Metal instance
    pub id: String,
    /// The Operating System name
    pub os: Option<String>,
    /// Text description of the instances' RAM
    pub ram: Option<String>,
    /// Text description of the instances' disk configuration
    pub disk: Option<String>,
    /// The main IPv4 address
    pub main_ip: Option<String>,
    /// Number of CPUs
    pub cpu_count: Option<i32>,
    /// The Region id where the instance is located
    pub region: Option<String>,
    /// The default password assigned at deployment
    pub default_password: Option<String>,
    /// The date this instance was created
    pub date_created: Option<String>,
    /// The current status (active, pending, suspended)
    pub status: Option<String>,
    /// The IPv4 netmask in dot-decimal notation
    pub netmask_v4: Option<String>,
    /// The IPv4 gateway address
    pub gateway_v4: Option<String>,
    /// The Bare Metal Plan id
    pub plan: Option<String>,
    /// The user-supplied label for this instance
    pub label: Option<String>,
    /// The Operating System id
    pub os_id: Option<i32>,
    /// The Application id
    pub app_id: Option<i32>,
    /// The Application image_id
    pub image_id: Option<String>,
    /// The Snapshot id
    pub snapshot_id: Option<String>,
    /// The IPv6 network size in bits
    pub v6_network: Option<String>,
    /// The main IPv6 network address
    pub v6_main_ip: Option<String>,
    /// The IPv6 subnet
    pub v6_network_size: Option<i32>,
    /// The MAC address for a Bare Metal server
    pub mac_address: Option<i64>,
    /// Tags to apply to the instance
    pub tags: Vec<String>,
    /// The user scheme (root, limited)
    pub user_scheme: Option<String>,
    /// The internal IP used by this instance, if set
    pub internal_ip: Option<String>,
    /// List of VPC Networks to which the instance is attached
    pub vpcs: Vec<BareMetalVpc>,
}

/// Bare Metal VPC attachment
#[derive(Debug, Clone)]
pub struct BareMetalVpc {
    /// VPC ID
    pub id: String,
    /// MAC address
    pub mac_address: Option<String>,
    /// IP address
    pub ip_address: Option<String>,
}

/// Bare Metal IPv4 information
#[derive(Debug, Clone)]
pub struct BareMetalIpv4 {
    /// The IPv4 address
    pub ip: String,
    /// The IPv4 netmask in dot-decimal notation
    pub netmask: Option<String>,
    /// The gateway IP address
    pub gateway: Option<String>,
    /// The type of IP address (main_ip)
    pub ip_type: Option<String>,
    /// The reverse DNS information for this IP address
    pub reverse: Option<String>,
    /// The MAC address associated with this IP address
    pub mac_address: Option<String>,
}

/// Bare Metal IPv6 information
#[derive(Debug, Clone)]
pub struct BareMetalIpv6 {
    /// A unique ID for the IPv6 address
    pub ip: String,
    /// The IPv6 subnet
    pub network: Option<String>,
    /// The IPv6 network size in bits
    pub network_size: Option<i32>,
    /// The type of IP address (main_ip)
    pub ip_type: Option<String>,
}

/// Available upgrades for Bare Metal
#[derive(Debug, Clone)]
pub struct BareMetalUpgrades {
    /// Available operating systems
    pub os: Vec<BareMetalUpgradeOs>,
    /// Available applications
    pub applications: Vec<BareMetalUpgradeApp>,
}

/// OS upgrade option
#[derive(Debug, Clone)]
pub struct BareMetalUpgradeOs {
    /// OS ID
    pub id: i32,
    /// OS name
    pub name: String,
    /// OS architecture
    pub arch: Option<String>,
    /// OS family
    pub family: Option<String>,
}

/// Application upgrade option
#[derive(Debug, Clone)]
pub struct BareMetalUpgradeApp {
    /// Application ID
    pub id: i32,
    /// Application name
    pub name: String,
    /// Short name
    pub short_name: Option<String>,
    /// Deploy name
    pub deploy_name: Option<String>,
}

/// VNC URL information
#[derive(Debug, Clone)]
pub struct BareMetalVnc {
    /// VNC URL
    pub url: String,
}

/// User data response
#[derive(Debug, Clone)]
pub struct BareMetalUserData {
    /// Base64 encoded user data
    pub data: String,
}

/// Request to create a Bare Metal server
#[derive(Debug, Clone, Default)]
pub struct CreateBareMetalRequest {
    /// Region ID
    pub region: String,
    /// Plan ID
    pub plan: String,
    /// Operating System ID
    pub os_id: Option<i32>,
    /// Snapshot ID to deploy from
    pub snapshot_id: Option<String>,
    /// Application ID
    pub app_id: Option<i32>,
    /// Application image ID
    pub image_id: Option<String>,
    /// SSH key IDs to install
    pub sshkey_id: Option<Vec<String>>,
    /// Startup script ID
    pub script_id: Option<String>,
    /// User-supplied label
    pub label: Option<String>,
    /// Enable IPv6
    pub enable_ipv6: Option<bool>,
    /// VPC ID to attach
    pub attach_vpc: Option<Vec<String>>,
    /// VPC2 ID to attach
    pub attach_vpc2: Option<Vec<String>>,
    /// Tags
    pub tags: Option<Vec<String>>,
    /// User data (cloud-init)
    pub user_data: Option<String>,
    /// Reserved IPv4 address
    pub reserved_ipv4: Option<String>,
    /// Persistent PXE boot
    pub persistent_pxe: Option<bool>,
    /// Activation email (true to send)
    pub activation_email: Option<bool>,
    /// Hostname
    pub hostname: Option<String>,
    /// Mdisk mode
    pub mdisk_mode: Option<String>,
    /// User scheme (root or limited)
    pub user_scheme: Option<String>,
}

/// Request to update a Bare Metal server
#[derive(Debug, Clone, Default)]
pub struct UpdateBareMetalRequest {
    /// User-supplied label
    pub label: Option<String>,
    /// Enable IPv6
    pub enable_ipv6: Option<bool>,
    /// User data
    pub user_data: Option<String>,
    /// Tags
    pub tags: Option<Vec<String>>,
    /// VPCs to attach
    pub attach_vpc: Option<Vec<String>>,
    /// VPCs to detach
    pub detach_vpc: Option<Vec<String>>,
    /// VPC2s to attach
    pub attach_vpc2: Option<Vec<String>>,
    /// VPC2s to detach
    pub detach_vpc2: Option<Vec<String>>,
}

/// Request to reinstall a Bare Metal server
#[derive(Debug, Clone, Default)]
pub struct ReinstallBareMetalRequest {
    /// Hostname
    pub hostname: Option<String>,
}

/// Request to set reverse DNS for IPv4
#[derive(Debug, Clone)]
pub struct SetBareMetalReverseIpv4Request {
    /// IPv4 address
    pub ip: String,
    /// Reverse DNS hostname
    pub reverse: String,
}

/// Request to set default reverse DNS for IPv4
#[derive(Debug, Clone)]
pub struct SetBareMetalDefaultReverseIpv4Request {
    /// IPv4 address
    pub ip: String,
}

/// Request to set reverse DNS for IPv6
#[derive(Debug, Clone)]
pub struct SetBareMetalReverseIpv6Request {
    /// IPv6 address
    pub ip: String,
    /// Reverse DNS hostname
    pub reverse: String,
}

/// Request for bulk operations on Bare Metal servers
#[derive(Debug, Clone)]
pub struct BulkBareMetalRequest {
    /// Bare Metal IDs
    pub baremetal_ids: Vec<String>,
}

/// Request to attach VPC to Bare Metal
#[derive(Debug, Clone)]
pub struct AttachBareMetalVpcRequest {
    /// VPC ID
    pub vpc_id: String,
}

/// Request to detach VPC from Bare Metal
#[derive(Debug, Clone)]
pub struct DetachBareMetalVpcRequest {
    /// VPC ID
    pub vpc_id: String,
}

/// Request to attach VPC2 to Bare Metal
#[derive(Debug, Clone)]
pub struct AttachBareMetalVpc2Request {
    /// VPC2 ID
    pub vpc_id: String,
    /// IP address to assign
    pub ip_address: Option<String>,
}

/// Request to detach VPC2 from Bare Metal
#[derive(Debug, Clone)]
pub struct DetachBareMetalVpc2Request {
    /// VPC2 ID
    pub vpc_id: String,
}

/// Response wrapper for a single Bare Metal server
#[derive(Debug, Clone)]
pub struct BareMetalResponse {
    /// The Bare Metal server
    pub bare_metal: BareMetal,
}

/// Response wrapper for list of Bare Metal servers
#[derive(Debug, Clone)]
pub struct BareMetalsResponse {
    /// List of Bare Metal servers
    pub bare_metals: Vec<BareMetal>,
}

/// Response wrapper for Bare Metal IPv4 addresses
#[derive(Debug, Clone)]
pub struct BareMetalIpv4Response {
    /// List of IPv4 addresses
    pub ipv4s: Vec<BareMetalIpv4>,
}

/// Response wrapper for Bare Metal IPv6 addresses
#[derive(Debug, Clone)]
pub struct BareMetalIpv6Response {
    /// List of IPv6 addresses
    pub ipv6s: Vec<BareMetalIpv6>,
}

/// Response wrapper for Bare Metal upgrades
#[derive(Debug, Clone)]
pub struct BareMetalUpgradesResponse {
    /// Available upgrades
    pub upgrades: BareMetalUpgrades,
}

/// Response wrapper for Bare Metal VNC
#[derive(Debug, Clone)]
pub struct BareMetalVncResponse {
    /// VNC information
    pub vnc: BareMetalVnc,
}

/// Response wrapper for Bare Metal user data
#[derive(Debug, Clone)]
pub struct BareMetalUserDataResponse {
    /// User data
    pub user_data: BareMetalUserData,
}

/// Response wrapper for Bare Metal VPCs
#[derive(Debug, Clone)]
pub struct BareMetalVpcsResponse {
    /// List of VPCs
    pub vpcs: Vec<BareMetalVpc>,
}

/// Bare Metal VPC2 attachment
#[derive(Debug, Clone)]
pub struct BareMetalVpc2 {
    /// VPC2 ID
    pub id: String,
    /// MAC address
    pub mac_address: Option<String>,
    /// IP address
    pub ip_address: Option<String>,
}

/// Response wrapper for Bare Metal VPC2s
#[derive(Debug, Clone)]
pub struct BareMetalVpc2sResponse {
    /// List of VPC2s
    pub vpcs: Vec<BareMetalVpc2>,
}

/// Response wrapper for Bare Metal bandwidth
#[derive(Debug, Clone)]
pub struct BareMetalBandwidthResponse {
    /// Bandwidth data by date
    pub bandwidth: HashMap<String, BandwidthData>,
}

} // verus!
