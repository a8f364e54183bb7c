//! Instance (VM) model types

use std::collections::HashMap;
use vstd::prelude::*;
use crate::text::owned;

verus! {

/// Instance status values
#[derive(Debug, Clone, Copy, PartialEq, Eq, Structural)]
pub enum InstanceStatus {
    Active,
    Pending,
    Suspended,
    Resizing,
    Unknown,
}

/// Instance power status
#[derive(Debug, Clone, Copy, PartialEq, Eq, Structural)]
pub enum PowerStatus {
    Running,
    Stopped,
    Unknown,
}

/// Instance server status
#[derive(Debug, Clone, Copy, PartialEq, Eq, Structural)]
pub enum ServerStatus {
    /// The API reports the status `none`.
    StatusNone,
    Locked,
    Installingbooting,
    /// The API reports the status `ok`.
    StatusOk,
    Unknown,
}

/// IPv6 network information
#[derive(Debug, Clone)]
pub struct Ipv6Network {
    /// IPv6 subnet
    pub network: Option<String>,
    /// Main IPv6 address
    pub main_ip: Option<String>,
    /// Network size in bits
    pub network_size: Option<i32>,
}

/// VPS Instance
#[derive(Debug, Clone)]
pub struct Instance {
    /// Unique instance ID
    pub id: String,
    /// Operating system name
    pub os: Option<String>,
    /// RAM in MB
    pub ram: Option<i32>,
    /// Disk size in GB
    pub disk: Option<i32>,
    /// Main IPv4 address
    pub main_ip: Option<String>,
    /// Number of vCPUs
    pub vcpu_count: Option<i32>,
    /// Region ID
    pub region: Option<String>,
    /// Default password (only available briefly after deployment)
    pub default_password: Option<String>,
    /// Date created
    pub date_created: Option<String>,
    /// Current status
    pub status: Option<InstanceStatus>,
    /// Power status
    pub power_status: Option<PowerStatus>,
    /// Server health status
    pub server_status: Option<ServerStatus>,
    /// Monthly bandwidth quota in GB
    pub allowed_bandwidth: Option<i32>,
    /// IPv4 netmask
    pub netmask_v4: Option<String>,
    /// IPv4 gateway
    pub gateway_v4: Option<String>,
    /// IPv6 networks
    pub v6_networks: Vec<Ipv6Network>,
    /// Hostname
    pub hostname: Option<String>,
    /// User-supplied label
    pub label: Option<String>,
    /// Internal IP (when VPC attached)
    pub internal_ip: Option<String>,
    /// NoVNC console URL
    pub kvm: Option<String>,
    /// OS ID
    pub os_id: Option<i32>,
    /// Application ID
    pub app_id: Option<i32>,
    /// Application image ID
    pub image_id: Option<String>,
    /// Firewall group ID
    pub firewall_group_id: Option<String>,
    /// Enabled features
    pub features: Vec<String>,
    /// Plan ID
    pub plan: Option<String>,
    /// Tags
    pub tags: Vec<String>,
    /// User scheme (root or limited)
    pub user_scheme: Option<String>,
}

/// Request to create a new instance
#[derive(Debug, Clone, Default)]
pub struct CreateInstanceRequest {
    /// Region ID (required)
    pub region: String,
    /// Plan ID (required)
    pub plan: String,
    /// OS ID (one of os_id, iso_id, snapshot_id, or app_id required)
    pub os_id: Option<i32>,
    /// ISO ID
    pub iso_id: Option<String>,
    /// Snapshot ID
    pub snapshot_id: Option<String>,
    /// Application ID
    pub app_id: Option<i32>,
    /// Application image ID
    pub image_id: Option<String>,
    /// Startup script ID
    pub script_id: Option<String>,
    /// Enable IPv6
    pub enable_ipv6: Option<bool>,
    /// Disable public IPv4
    pub disable_public_ipv4: Option<bool>,
    /// VPC IDs to attach
    pub attach_vpc: Option<Vec<String>>,
    /// Instance label
    pub label: Option<String>,
    /// SSH key IDs
    pub sshkey_id: Option<Vec<String>>,
    /// Enable automatic backups
    pub backups: Option<String>,
    /// User data (base64 encoded)
    pub user_data: Option<String>,
    /// Enable DDoS protection
    pub ddos_protection: Option<bool>,
    /// Send activation email
    pub activation_email: Option<bool>,
    /// Hostname
    pub hostname: Option<String>,
    /// Firewall group ID
    pub firewall_group_id: Option<String>,
    /// Reserved IPv4 ID
    pub reserved_ipv4: Option<String>,
    /// Enable VPC
    pub enable_vpc: Option<bool>,
    /// Tags
    pub tags: Option<Vec<String>>,
    /// User scheme (root or limited)
    pub user_scheme: Option<String>,
}

/// Request to update an instance
#[derive(Debug, Clone, Default)]
pub struct UpdateInstanceRequest {
    /// Application ID
    pub app_id: Option<i32>,
    /// Application image ID
    pub image_id: Option<String>,
    /// Enable IPv6
    pub enable_ipv6: Option<bool>,
    /// Instance label
    pub label: Option<String>,
    /// Backups setting
    pub backups: Option<String>,
    /// User data
    pub user_data: Option<String>,
    /// DDoS protection
    pub ddos_protection: Option<bool>,
    /// Firewall group ID
    pub firewall_group_id: Option<String>,
    /// Tags
    pub tags: Option<Vec<String>>,
    /// Plan ID (for resizing)
    pub plan: Option<String>,
    /// OS ID
    pub os_id: Option<i32>,
}

/// Request to reinstall an instance
#[derive(Debug, Clone, Default)]
pub struct ReinstallInstanceRequest {
    /// Hostname
    pub hostname: Option<String>,
}

/// Response wrapper for instance operations
#[derive(Debug, Clone)]
pub struct InstanceResponse {
    pub instance: Instance,
}

/// Response wrapper for instance list
#[derive(Debug, Clone)]
pub struct InstancesResponse {
    pub instances: Vec<Instance>,
}

/// Instance bandwidth data
#[derive(Debug, Clone)]
pub struct BandwidthData {
    /// Incoming bytes
    pub incoming_bytes: Option<i64>,
    /// Outgoing bytes
    pub outgoing_bytes: Option<i64>,
}

/// Instance bandwidth response
#[derive(Debug, Clone)]
pub struct BandwidthResponse {
    pub bandwidth: HashMap<String, BandwidthData>,
}

/// Instance IPv4 information
#[derive(Debug, Clone)]
pub struct Ipv4Info {
    pub ip: String,
    pub netmask: Option<String>,
    pub gateway: Option<String>,
    pub ip_type: Option<String>,
    pub reverse: Option<String>,
}

/// Response for instance IPv4 list
#[derive(Debug, Clone)]
pub struct Ipv4Response {
    pub ipv4s: Vec<Ipv4Info>,
}

} // verus!

verus! {

impl InstanceStatus {
    /// The text that the API and the tables use for this value.
    pub open spec fn label(self) -> Seq<char> {
        match self {
            InstanceStatus::Active => "active"@,
            InstanceStatus::Pending => "pending"@,
            InstanceStatus::Suspended => "suspended"@,
            InstanceStatus::Resizing => "resizing"@,
            InstanceStatus::Unknown => "unknown"@,
        }
    }

    /// The text of this value, as its display form shows it.
    pub fn as_str(&self) -> (s: &'static str)
        ensures
            s@ == self.label(),
    {
        match self {
            InstanceStatus::Active => "active",
            InstanceStatus::Pending => "pending",
            InstanceStatus::Suspended => "suspended",
            InstanceStatus::Resizing => "resizing",
            InstanceStatus::Unknown => "unknown",
        }
    }

    /// The display form of this value as an owned string.
    pub fn to_string(&self) -> (s: String)
        ensures
            s@ == self.label(),
    {
        owned(self.as_str())
    }
}

impl PowerStatus {
    /// The text that the API and the tables use for this value.
    pub open spec fn label(self) -> Seq<char> {
        match self {
            PowerStatus::Running => "running"@,
            PowerStatus::Stopped => "stopped"@,
            PowerStatus::Unknown => "unknown"@,
        }
    }

    /// The text of this value, as its display form shows it.
    pub fn as_str(&self) -> (s: &'static str)
        ensures
            s@ == self.label(),
    {
        match self {
            PowerStatus::Running => "running",
            PowerStatus::Stopped => "stopped",
            PowerStatus::Unknown => "unknown",
        }
    }

    /// The display form of this value as an owned string.
    pub fn to_string(&self) -> (s: String)
        ensures
            s@ == self.label(),
    {
        owned(self.as_str())
    }
}

impl ServerStatus {
    /// The text that the API and the tables use for this value.
    pub open spec fn label(self) -> Seq<char> {
        match self {
            ServerStatus::StatusNone => "none"@,
            ServerStatus::Locked => "locked"@,
            ServerStatus::Installingbooting => "installing/booting"@,
            ServerStatus::StatusOk => "ok"@,
            ServerStatus::Unknown => "unknown"@,
        }
    }

    /// The text of this value, as its display form shows it.
    pub fn as_str(&self) -> (s: &'static str)
        ensures
            s@ == self.label(),
    {
        match self {
            ServerStatus::StatusNone => "none",
            ServerStatus::Locked => "locked",
            ServerStatus::Installingbooting => "installing/booting",
            ServerStatus::StatusOk => "ok",
            ServerStatus::Unknown => "unknown",
        }
    }

    /// The display form of this value as an owned string.
    pub fn to_string(&self) -> (s: String)
        ensures
            s@ == self.label(),
    {
        owned(self.as_str())
    }
}

impl Instance {
    /// The instance is active, running and its server reports `ok`.
    pub open spec fn ready(self) -> bool {
        &&& self.status == Some(InstanceStatus::Active)
        &&& self.power_status == Some(PowerStatus::Running)
        &&& self.server_status == Some(ServerStatus::StatusOk)
    }

    /// Check if the instance is ready (active and running).
    pub fn is_ready(&self) -> (r: bool)
        ensures
            r == self.ready(),
    {
        let active = match self.status {
            Some(InstanceStatus::Active) => true,
            _ => false,
        };
        let running = match self.power_status {
            Some(PowerStatus::Running) => true,
            _ => false,
        };
        let ok = match self.server_status {
            Some(ServerStatus::StatusOk) => true,
            _ => false,
        };
        active && running && ok
    }
}

/// An instance is ready only when all three of its statuses say so: active, running, and a
/// server that reports `ok`; an instance still installing or booting is not ready.
pub proof fn ready_needs_all_three_statuses(i: Instance)
    ensures
        i.ready() ==> i.status == Some(InstanceStatus::Active),
        i.ready() ==> i.power_status == Some(PowerStatus::Running),
        i.ready() ==> i.server_status == Some(ServerStatus::StatusOk),
        i.status == Some(InstanceStatus::Active) && i.power_status == Some(PowerStatus::Running)
            && i.server_status == Some(ServerStatus::StatusOk) ==> i.ready(),
{
}

} // verus!
