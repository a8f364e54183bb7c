//! Kubernetes (VKE) model types

use std::collections::HashMap;
use vstd::prelude::*;

verus! {

/// Kubernetes cluster (VKE)
#[derive(Debug, Clone)]
pub struct KubernetesCluster {
    /// Unique identifier for the cluster
    pub id: String,
    /// The Firewall Group ID linked to this cluster
    pub firewall_group_id: Option<String>,
    /// Label for the cluster
    pub label: Option<String>,
    /// Date of creation
    pub date_created: Option<String>,
    /// IP range for pods
    pub cluster_subnet: Option<String>,
    /// IP range for services
    pub service_subnet: Option<String>,
    /// IP for the control plane
    pub ip: Option<String>,
    /// Domain for the control plane
    pub endpoint: Option<String>,
    /// Kubernetes version
    pub version: Option<String>,
    /// Region ID
    pub region: Option<String>,
    /// Cluster status
    pub status: Option<String>,
    /// Whether HA control planes are enabled
    pub ha_controlplanes: bool,
    /// OIDC configuration
    pub oidc: Option<OidcConfig>,
    /// Node pools in the cluster
    pub node_pools: Vec<NodePool>,
    /// Attached VPCs
    pub vpcs: Vec<AttachedVpc>,
}

/// OIDC configuration for Kubernetes cluster
#[derive(Debug, Clone)]
pub struct OidcConfig {
    /// OIDC provider URL
    pub issuer_url: Option<String>,
    /// Client ID for the OIDC application
    pub client_id: Option<String>,
    /// Claim for username
    pub username_claim: Option<String>,
    /// Claim for groups
    pub groups_claim: Option<String>,
}

/// VPC attached to a cluster
#[derive(Debug, Clone)]
pub struct AttachedVpc {
    /// VPC ID
    pub id: Option<String>,
    /// VPC version (1 or 2)
    pub version: Option<i32>,
    /// Subnet
    pub subnet: Option<String>,
}

/// Node pool in a Kubernetes cluster
#[derive(Debug, Clone)]
pub struct NodePool {
    /// Node pool ID
    pub id: String,
    /// Date of creation
    pub date_created: Option<String>,
    /// Date of last update
    pub date_updated: Option<String>,
    /// Label for the node pool
    pub label: Option<String>,
    /// Tag for the node pool
    pub tag: Option<String>,
    /// Plan ID for the nodes
    pub plan: Option<String>,
    /// Status of the node pool
    pub status: Option<String>,
    /// Number of nodes
    pub node_quantity: Option<i32>,
    /// Minimum nodes (for auto-scaler)
    pub min_nodes: Option<i32>,
    /// Maximum nodes (for auto-scaler)
    pub max_nodes: Option<i32>,
    /// Whether auto-scaler is enabled
    pub auto_scaler: bool,
    /// Labels for nodes
    pub labels: Option<HashMap<String, String>>,
    /// Taints for nodes
    pub taints: Vec<NodePoolTaint>,
    /// Nodes in the pool
    pub nodes: Vec<KubeNode>,
    /// User data (base64 encoded)
    pub user_data: Option<String>,
}

/// Taint for a node pool
#[derive(Debug, Clone)]
pub struct NodePoolTaint {
    /// Taint key
    pub key: Option<String>,
    /// Taint value
    pub value: Option<String>,
    /// Taint effect (NoSchedule, PreferNoSchedule, NoExecute)
    pub effect: Option<String>,
}

/// Node in a Kubernetes cluster
#[derive(Debug, Clone)]
pub struct KubeNode {
    /// Node ID
    pub id: String,
    /// Node label
    pub label: Option<String>,
    /// Date of creation
    pub date_created: Option<String>,
    /// Node status
    pub status: Option<String>,
}

/// Label for a node pool
#[derive(Debug, Clone)]
pub struct NodePoolLabel {
    /// Label ID
    pub id: Option<String>,
    /// Label key
    pub key: Option<String>,
    /// Label value
    pub value: Option<String>,
}

/// Response wrapper for list of clusters
#[derive(Debug, Clone)]
pub struct ClustersResponse {
    pub vke_clusters: Vec<KubernetesCluster>,
}

/// Response wrapper for single cluster
#[derive(Debug, Clone)]
pub struct ClusterResponse {
    pub vke_cluster: KubernetesCluster,
}

/// Response wrapper for node pool
#[derive(Debug, Clone)]
pub struct NodePoolResponse {
    pub node_pool: NodePool,
}

/// Response wrapper for list of node pools
#[derive(Debug, Clone)]
pub struct NodePoolsResponse {
    pub node_pools: Vec<NodePool>,
}

/// Response wrapper for nodes
#[derive(Debug, Clone)]
pub struct NodesResponse {
    pub nodes: Vec<KubeNode>,
}

/// Response wrapper for single node
#[derive(Debug, Clone)]
pub struct NodeResponse {
    pub node: KubeNode,
}

/// Response for kubeconfig
#[derive(Debug, Clone)]
pub struct KubeconfigResponse {
    /// Base64-encoded kubeconfig
    pub kube_config: String,
}

/// Response for available Kubernetes versions
#[derive(Debug, Clone)]
pub struct VersionsResponse {
    pub versions: Vec<String>,
}

/// Response for available upgrades
#[derive(Debug, Clone)]
pub struct KubernetesUpgradesResponse {
    pub available_upgrades: Vec<String>,
}

/// Resources deployed by a cluster
#[derive(Debug, Clone)]
pub struct ClusterResources {
    pub resources: ClusterResourcesInner,
}

/// Inner resources structure
#[derive(Debug, Clone)]
pub struct ClusterResourcesInner {
    pub block_storage: Vec<ClusterResource>,
    pub load_balancer: Vec<ClusterResource>,
}

/// A resource deployed by the cluster
#[derive(Debug, Clone)]
pub struct ClusterResource {
    pub id: Option<String>,
    pub label: Option<String>,
    pub date_created: Option<String>,
    pub status: Option<String>,
}

/// Response for node pool labels
#[derive(Debug, Clone)]
pub struct NodePoolLabelsResponse {
    pub labels: Vec<NodePoolLabel>,
}

/// Response for node pool taints
#[derive(Debug, Clone)]
pub struct NodePoolTaintsResponse {
    pub taints: Vec<NodePoolTaint>,
}

/// Request to create a Kubernetes cluster
#[derive(Debug, Clone, Default)]
pub struct CreateClusterRequest {
    /// Region ID (required)
    pub region: String,
    /// Kubernetes version (required)
    pub version: String,
    /// Cluster label
    pub label: Option<String>,
    /// Whether to enable HA control planes
    pub ha_controlplanes: Option<bool>,
    /// Whether to enable the managed firewall
    pub enable_firewall: Option<bool>,
    /// OIDC configuration
    pub oidc: Option<CreateOidcRequest>,
    /// Initial node pools
    pub node_pools: Option<Vec<CreateNodePoolRequest>>,
}

/// OIDC configuration for cluster creation
#[derive(Debug, Clone)]
pub struct CreateOidcRequest {
    /// OIDC provider URL (required)
    pub issuer_url: String,
    /// Client ID (required)
    pub client_id: String,
    /// Username claim
    pub username_claim: Option<String>,
    /// Groups claim
    pub groups_claim: Option<String>,
}

/// Request to create a node pool
#[derive(Debug, Clone)]
pub struct CreateNodePoolRequest {
    /// Number of nodes (required)
    pub node_quantity: i32,
    /// Label for the node pool (required)
    pub label: String,
    /// Plan ID (required)
    pub plan: String,
    /// Tag for nodes
    pub tag: Option<String>,
    /// Enable auto-scaler
    pub auto_scaler: Option<bool>,
    /// Minimum nodes for auto-scaler
    pub min_nodes: Option<i32>,
    /// Maximum nodes for auto-scaler
    pub max_nodes: Option<i32>,
    /// Labels to apply to nodes
    pub labels: Option<HashMap<String, String>>,
    /// Taints to apply to nodes
    pub taints: Option<Vec<NodePoolTaintRequest>>,
    /// User data (base64 encoded)
    pub user_data: Option<String>,
}

/// Taint request for node pool
#[derive(Debug, Clone)]
pub struct NodePoolTaintRequest {
    /// Taint key
    pub key: String,
    /// Taint value
    pub value: String,
    /// Taint effect
    pub effect: String,
}

/// Request to update a Kubernetes cluster
#[derive(Debug, Clone, Default)]
pub struct UpdateClusterRequest {
    /// New label
    pub label: Option<String>,
}

/// Request to update a node pool
#[derive(Debug, Clone, Default)]
pub struct UpdateNodePoolRequest {
    /// New node count
    pub node_quantity: Option<i32>,
    /// New tag
    pub tag: Option<String>,
    /// Enable/disable auto-scaler
    pub auto_scaler: Option<bool>,
    /// New minimum nodes
    pub min_nodes: Option<i32>,
    /// New maximum nodes
    pub max_nodes: Option<i32>,
    /// Labels to apply
    pub labels: Option<HashMap<String, String>>,
    /// Taints to apply
    pub taints: Option<Vec<NodePoolTaintRequest>>,
}

/// Request to upgrade a cluster
#[derive(Debug, Clone)]
pub struct UpgradeClusterRequest {
    /// Target version
    pub upgrade_version: String,
}

/// Request to create a node pool label
#[derive(Debug, Clone)]
pub struct CreateNodePoolLabelRequest {
    /// Label key
    pub key: String,
    /// Label value
    pub value: String,
}

} // verus!
