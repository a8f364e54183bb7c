//! Data models of the Vultr API.

pub mod account;
pub mod bare_metal;
pub mod block_storage;
pub mod cdn;
pub mod common;
pub mod dns;
pub mod firewall;
pub mod instance;
pub mod kubernetes;
pub mod registry;
pub mod snapshot;
pub mod ssh_key;
pub mod startup_script;
pub mod user;
pub mod vpc;

pub use account::BgpInfo;
pub use account::BgpPrefix;
pub use account::BgpResponse;
pub use bare_metal::BareMetal;
pub use registry::CreateRetentionRuleRequest;
pub use registry::CreateRetentionRepositorySelector;
pub use registry::CreateRetentionScopeSelectors;
pub use registry::CreateRetentionTagSelector;
pub use bare_metal::BareMetalVpc;
pub use bare_metal::BareMetalIpv4;
pub use bare_metal::BareMetalIpv6;
pub use bare_metal::BareMetalUpgrades;
pub use bare_metal::BareMetalUpgradeOs;
pub use bare_metal::BareMetalUpgradeApp;
pub use bare_metal::BareMetalVnc;
pub use bare_metal::BareMetalUserData;
pub use bare_metal::CreateBareMetalRequest;
pub use bare_metal::UpdateBareMetalRequest;
pub use bare_metal::ReinstallBareMetalRequest;
pub use bare_metal::SetBareMetalReverseIpv4Request;
pub use bare_metal::SetBareMetalDefaultReverseIpv4Request;
pub use bare_metal::SetBareMetalReverseIpv6Request;
pub use bare_metal::BulkBareMetalRequest;
pub use bare_metal::AttachBareMetalVpcRequest;
pub use bare_metal::DetachBareMetalVpcRequest;
pub use bare_metal::AttachBareMetalVpc2Request;
pub use bare_metal::DetachBareMetalVpc2Request;
pub use bare_metal::BareMetalResponse;
pub use bare_metal::BareMetalsResponse;
pub use bare_metal::BareMetalIpv4Response;
pub use bare_metal::BareMetalIpv6Response;
pub use bare_metal::BareMetalUpgradesResponse;
pub use bare_metal::BareMetalVncResponse;
pub use bare_metal::BareMetalUserDataResponse;
pub use bare_metal::BareMetalVpcsResponse;
pub use bare_metal::BareMetalVpc2;
pub use bare_metal::BareMetalVpc2sResponse;
pub use bare_metal::BareMetalBandwidthResponse;
pub use block_storage::BlockStorageStatus;
pub use block_storage::BlockType;
pub use block_storage::BlockStorage;
pub use block_storage::CreateBlockStorageRequest;
pub use block_storage::UpdateBlockStorageRequest;
pub use block_storage::AttachBlockStorageRequest;
pub use block_storage::DetachBlockStorageRequest;
pub use block_storage::BlockStorageResponse;
pub use block_storage::BlockStoragesResponse;
pub use cdn::CdnZoneStatus;
pub use cdn::OriginScheme;
pub use cdn::CdnPullZone;
pub use cdn::CdnPushZone;
pub use cdn::CdnPushZoneFile;
pub use cdn::CdnPushZoneFileMeta;
pub use cdn::CdnUploadEndpointInputs;
pub use cdn::CdnUploadEndpoint;
pub use cdn::CreatePullZoneRequest;
pub use cdn::UpdatePullZoneRequest;
pub use cdn::CreatePushZoneRequest;
pub use cdn::UpdatePushZoneRequest;
pub use cdn::CreateFileEndpointRequest;
pub use cdn::PullZoneResponse;
pub use cdn::PullZonesResponse;
pub use cdn::PushZoneResponse;
pub use cdn::PushZonesResponse;
pub use cdn::PushZoneFileResponse;
pub use cdn::PushZoneFilesResponse;
pub use cdn::UploadEndpointResponse;
pub use common::Meta;
pub use common::PaginationLinks;
pub use common::ListResponse;
pub use common::Region;
pub use common::Os;
pub use common::RegionsResponse;
pub use common::OsResponse;
pub use dns::DnsDomain;
pub use dns::DnsSoa;
pub use dns::DnsRecord;
pub use dns::DnsSec;
pub use dns::CreateDomainRequest;
pub use dns::UpdateDomainRequest;
pub use dns::CreateRecordRequest;
pub use dns::UpdateRecordRequest;
pub use dns::UpdateSoaRequest;
pub use dns::DomainResponse;
pub use dns::RecordResponse;
pub use dns::SoaResponse;
pub use dns::DomainsResponseWithMeta;
pub use dns::RecordsResponseWithMeta;
pub use firewall::IpType;
pub use firewall::Protocol;
pub use firewall::FirewallGroup;
pub use firewall::FirewallRule;
pub use firewall::CreateFirewallGroupRequest;
pub use firewall::UpdateFirewallGroupRequest;
pub use firewall::CreateFirewallRuleRequest;
pub use firewall::FirewallGroupResponse;
pub use firewall::FirewallGroupsResponse;
pub use firewall::FirewallRuleResponse;
pub use firewall::FirewallRulesResponse;
pub use instance::InstanceStatus;
pub use instance::PowerStatus;
pub use instance::ServerStatus;
pub use instance::Ipv6Network;
pub use instance::Instance;
pub use instance::CreateInstanceRequest;
pub use instance::UpdateInstanceRequest;
pub use instance::ReinstallInstanceRequest;
pub use instance::InstanceResponse;
pub use instance::InstancesResponse;
pub use instance::BandwidthData;
pub use instance::BandwidthResponse;
pub use instance::Ipv4Info;
pub use instance::Ipv4Response;
pub use kubernetes::KubernetesCluster;
pub use kubernetes::OidcConfig;
pub use kubernetes::AttachedVpc;
pub use kubernetes::NodePool;
pub use kubernetes::NodePoolTaint;
pub use kubernetes::KubeNode;
pub use kubernetes::NodePoolLabel;
pub use kubernetes::ClustersResponse;
pub use kubernetes::ClusterResponse;
pub use kubernetes::NodePoolResponse;
pub use kubernetes::NodePoolsResponse;
pub use kubernetes::NodesResponse;
pub use kubernetes::NodeResponse;
pub use kubernetes::KubeconfigResponse;
pub use kubernetes::VersionsResponse;
pub use kubernetes::KubernetesUpgradesResponse;
pub use kubernetes::ClusterResources;
pub use kubernetes::ClusterResourcesInner;
pub use kubernetes::ClusterResource;
pub use kubernetes::NodePoolLabelsResponse;
pub use kubernetes::NodePoolTaintsResponse;
pub use kubernetes::CreateClusterRequest;
pub use kubernetes::CreateOidcRequest;
pub use kubernetes::CreateNodePoolRequest;
pub use kubernetes::NodePoolTaintRequest;
pub use kubernetes::UpdateClusterRequest;
pub use kubernetes::UpdateNodePoolRequest;
pub use kubernetes::UpgradeClusterRequest;
pub use kubernetes::CreateNodePoolLabelRequest;
pub use snapshot::SnapshotStatus;
pub use snapshot::Snapshot;
pub use snapshot::CreateSnapshotRequest;
pub use snapshot::CreateSnapshotFromUrlRequest;
pub use snapshot::UpdateSnapshotRequest;
pub use snapshot::SnapshotResponse;
pub use snapshot::SnapshotsResponse;
pub use ssh_key::SshKey;
pub use ssh_key::CreateSshKeyRequest;
pub use ssh_key::UpdateSshKeyRequest;
pub use ssh_key::SshKeyResponse;
pub use ssh_key::SshKeysResponse;
pub use startup_script::ScriptType;
pub use startup_script::StartupScript;
pub use startup_script::CreateStartupScriptRequest;
pub use startup_script::UpdateStartupScriptRequest;
pub use startup_script::StartupScriptResponse;
pub use startup_script::StartupScriptsResponse;
pub use user::User;
pub use user::UserResponse;
pub use user::UsersResponse;
pub use user::CreateUserRequest;
pub use user::UpdateUserRequest;
pub use user::ApiKey;
pub use user::ApiKeyResponse;
pub use user::ApiKeysResponse;
pub use user::CreateApiKeyRequest;
pub use user::IpWhitelistEntry;
pub use user::IpWhitelistEntryResponse;
pub use user::IpWhitelistResponse;
pub use user::AddIpWhitelistRequest;
pub use user::DeleteIpWhitelistRequest;
pub use vpc::Vpc;
pub use vpc::VpcInternet;
pub use vpc::Vpc2;
pub use vpc::VpcAttachmentIp;
pub use vpc::VpcAttachmentLinkedSubscription;
pub use vpc::VpcAttachment;
pub use vpc::VpcAttachmentsResponse;
pub use vpc::Vpc2Node;
pub use vpc::CreateVpcRequest;
pub use vpc::CreateVpc2Request;
pub use vpc::UpdateVpcRequest;
pub use vpc::AttachVpc2NodesRequest;
pub use vpc::Vpc2NodeAttachment;
pub use vpc::DetachVpc2NodesRequest;
pub use vpc::VpcResponse;
pub use vpc::VpcsResponse;
pub use vpc::Vpc2Response;
pub use vpc::Vpcs2Response;
pub use vpc::Vpc2NodesResponse;
