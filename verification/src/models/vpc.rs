//! VPC model types

use vstd::prelude::*;
use crate::text::{cidr, cidr_text};
use crate::models::common::Meta;

verus! {

/// VPC (Virtual Private Cloud)
#[derive(Debug, Clone)]
pub struct Vpc {
    /// Unique ID for the VPC
    pub id: String,
    /// Region ID
    pub region: Option<String>,
    /// Date created
    pub date_created: Option<String>,
    /// User-supplied description
    pub description: Option<String>,
    /// IPv4 subnet (e.g., "10.99.0.0")
    pub v4_subnet: Option<String>,
    /// IPv4 subnet mask (CIDR bits)
    pub v4_subnet_mask: Option<i32>,
    /// Internet connectivity
    pub internet: Option<VpcInternet>,
}

/// VPC internet connectivity details
#[derive(Debug, Clone)]
pub struct VpcInternet {
    /// Whether internet connectivity is enabled
    pub connectivity: Option<bool>,
    /// Connectivity types
    pub types: Vec<String>,
}

/// VPC 2.0 (newer VPC version)
#[derive(Debug, Clone)]
pub struct Vpc2 {
    /// Unique ID for the VPC
    pub id: String,
    /// Region ID
    pub region: Option<String>,
    /// Date created
    pub date_created: Option<String>,
    /// User-supplied description
    pub description: Option<String>,
    /// IP block (e.g., "10.99.0.0")
    pub ip_block: Option<String>,
    /// Prefix length (CIDR bits)
    pub prefix_length: Option<i32>,
}

/// VPC attachment IP information
#[derive(Debug, Clone)]
pub struct VpcAttachmentIp {
    /// IPv4 address
    pub v4: Option<String>,
}

/// VPC attachment linked subscription
#[derive(Debug, Clone)]
pub struct VpcAttachmentLinkedSubscription {
    /// Subscription ID
    pub id: Option<String>,
    /// Subscription type
    pub subscription_type: Option<String>,
}

/// VPC attachment information
#[derive(Debug, Clone)]
pub struct VpcAttachment {
    /// Attachment ID
    pub id: Option<String>,
    /// Attachment type (vps/baremetal)
    pub attachment_type: Option<String>,
    /// MAC address
    pub mac_address: Option<String>,
    /// Date added
    pub date_added: Option<String>,
    /// Attachment IP
    pub ip: Option<VpcAttachmentIp>,
    /// Linked subscription
    pub linked_subscription: Option<VpcAttachmentLinkedSubscription>,
}

/// Response wrapper for VPC attachments
#[derive(Debug, Clone)]
pub struct VpcAttachmentsResponse {
    pub attachments: Vec<VpcAttachment>,
    pub meta: Option<Meta>,
}

/// Node attached to a VPC 2.0
#[derive(Debug, Clone)]
pub struct Vpc2Node {
    /// Node ID (instance ID)
    pub id: Option<String>,
    /// IP address in the VPC
    pub ip_address: Option<String>,
    /// MAC address
    pub mac_address: Option<i32>,
    /// Description/label
    pub description: Option<String>,
    /// Node type
    pub node_type: Option<String>,
}

/// Request to create a VPC
#[derive(Debug, Clone)]
pub struct CreateVpcRequest {
    /// Region ID
    pub region: String,
    /// Description
    pub description: Option<String>,
    /// IPv4 subnet (required if v4_subnet_mask is specified)
    pub v4_subnet: Option<String>,
    /// IPv4 subnet mask (required if v4_subnet is specified)
    pub v4_subnet_mask: Option<i32>,
}

/// Request to create a VPC 2.0
#[derive(Debug, Clone)]
pub struct CreateVpc2Request {
    /// Region ID
    pub region: String,
    /// Description
    pub description: Option<String>,
    /// IP type (currently only "v4")
    pub ip_type: Option<String>,
    /// IP block (required if prefix_length is specified)
    pub ip_block: Option<String>,
    /// Prefix length (required if ip_block is specified)
    pub prefix_length: Option<i32>,
}

/// Request to update a VPC
#[derive(Debug, Clone, Default)]
pub struct UpdateVpcRequest {
    /// New description
    pub description: Option<String>,
}

/// Request to attach nodes to VPC 2.0
#[derive(Debug, Clone)]
pub struct AttachVpc2NodesRequest {
    /// List of nodes to attach
    pub nodes: Vec<Vpc2NodeAttachment>,
}

/// Node attachment for VPC 2.0
#[derive(Debug, Clone)]
pub struct Vpc2NodeAttachment {
    /// Instance ID
    pub id: String,
    /// IP address to assign (optional)
    pub ip_address: Option<String>,
}

/// Request to detach nodes from VPC 2.0
#[derive(Debug, Clone)]
pub struct DetachVpc2NodesRequest {
    /// List of instance IDs to detach
    pub nodes: Vec<String>,
}

/// Response wrapper for VPC operations
#[derive(Debug, Clone)]
pub struct VpcResponse {
    pub vpc: Vpc,
}

/// Response wrapper for VPC list
#[derive(Debug, Clone)]
pub struct VpcsResponse {
    pub vpcs: Vec<Vpc>,
}

/// Response wrapper for VPC 2.0 operations
#[derive(Debug, Clone)]
pub struct Vpc2Response {
    pub vpc: Vpc2,
}

/// Response wrapper for VPC 2.0 list
#[derive(Debug, Clone)]
pub struct Vpcs2Response {
    pub vpcs: Vec<Vpc2>,
}

/// Response wrapper for VPC 2.0 nodes
#[derive(Debug, Clone)]
pub struct Vpc2NodesResponse {
    pub nodes: Vec<Vpc2Node>,
}

} // verus!

verus! {


impl Vpc {
    /// `v4_subnet/v4_subnet_mask` when both are known.
    pub open spec fn cidr_view(self) -> Option<Seq<char>> {
        match (self.v4_subnet, self.v4_subnet_mask) {
            (Some(block), Some(bits)) => Some(cidr_text(block@, bits as int)),
            _ => None,
        }
    }

    /// Get the CIDR notation for this VPC.
    pub fn cidr(&self) -> (r: Option<String>)
        ensures
            r.is_some() == self.cidr_view().is_some(),
            r matches Some(s) ==> Some(s@) == self.cidr_view(),
    {
        match (&self.v4_subnet, self.v4_subnet_mask) {
            (Some(block), Some(bits)) => Some(cidr(block.as_str(), bits)),
            _ => None,
        }
    }
}

impl Vpc2 {
    /// `ip_block/prefix_length` when both are known.
    pub open spec fn cidr_view(self) -> Option<Seq<char>> {
        match (self.ip_block, self.prefix_length) {
            (Some(block), Some(bits)) => Some(cidr_text(block@, bits as int)),
            _ => None,
        }
    }

    /// Get the CIDR notation for this VPC.
    pub fn cidr(&self) -> (r: Option<String>)
        ensures
            r.is_some() == self.cidr_view().is_some(),
            r matches Some(s) ==> Some(s@) == self.cidr_view(),
    {
        match (&self.ip_block, self.prefix_length) {
            (Some(block), Some(bits)) => Some(cidr(block.as_str(), bits)),
            _ => None,
        }
    }
}

} // verus!
