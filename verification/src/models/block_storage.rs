//! Block Storage model types

use vstd::prelude::*;
use crate::codec::{spec_to_lowercase, to_lowercase};
use crate::text::{owned, str_eq};

verus! {

/// Block storage status
#[derive(Debug, Clone, Copy, PartialEq, Eq, Structural)]
pub enum BlockStorageStatus {
    Active,
    Pending,
    Unknown,
}

/// Block storage type
#[derive(Debug, Clone, Copy, PartialEq, Eq, Structural)]
pub enum BlockType {
    HighPerf,
    StorageOpt,
    Unknown,
}

/// Block Storage
#[derive(Debug, Clone)]
pub struct BlockStorage {
    /// Unique ID for the block storage
    pub id: String,
    /// Monthly cost in USD
    pub cost: Option<i32>,
    /// Current status
    pub status: Option<BlockStorageStatus>,
    /// Size in GB
    pub size_gb: Option<i32>,
    /// Region ID
    pub region: Option<String>,
    /// ID of the attached instance (if any)
    pub attached_to_instance: Option<String>,
    /// Date created
    pub date_created: Option<String>,
    /// User-supplied label
    pub label: Option<String>,
    /// Mount ID (for /dev/disk/by-id)
    pub mount_id: Option<String>,
    /// Block type
    pub block_type: Option<String>,
}

/// Request to create block storage
#[derive(Debug, Clone)]
pub struct CreateBlockStorageRequest {
    /// Region ID
    pub region: String,
    /// Size in GB (10-40000 depending on type)
    pub size_gb: i32,
    /// Optional label
    pub label: Option<String>,
    /// Block type (high_perf or storage_opt)
    pub block_type: Option<String>,
}

/// Request to update block storage
#[derive(Debug, Clone, Default)]
pub struct UpdateBlockStorageRequest {
    /// New label
    pub label: Option<String>,
    /// New size in GB (can only increase)
    pub size_gb: Option<i32>,
}

/// Request to attach block storage
#[derive(Debug, Clone)]
pub struct AttachBlockStorageRequest {
    /// Instance ID to attach to
    pub instance_id: String,
    /// Whether to live attach (without reboot)
    pub live: Option<bool>,
}

/// Request to detach block storage
#[derive(Debug, Clone, Default)]
pub struct DetachBlockStorageRequest {
    /// Whether to live detach (without reboot)
    pub live: Option<bool>,
}

/// Response wrapper for block storage operations
#[derive(Debug, Clone)]
pub struct BlockStorageResponse {
    pub block: BlockStorage,
}

/// Response wrapper for block storage list
#[derive(Debug, Clone)]
pub struct BlockStoragesResponse {
    pub blocks: Vec<BlockStorage>,
}

} // verus!

verus! {

impl BlockStorageStatus {
    /// The text that the API and the tables use for this value.
    pub open spec fn label(self) -> Seq<char> {
        match self {
            BlockStorageStatus::Active => "active"@,
            BlockStorageStatus::Pending => "pending"@,
            BlockStorageStatus::Unknown => "unknown"@,
        }
    }

    /// The text of this value, as its display form shows it.
    pub fn as_str(&self) -> (s: &'static str)
        ensures
            s@ == self.label(),
    {
        match self {
            BlockStorageStatus::Active => "active",
            BlockStorageStatus::Pending => "pending",
            BlockStorageStatus::Unknown => "unknown",
        }
    }

    /// The display form of this value as an owned string.
    pub fn to_string(&self) -> (s: String)
        ensures
            s@ == self.label(),
    {
        owned(self.as_str())
    }
}

impl BlockType {
    /// The text that the API and the tables use for this value.
    pub open spec fn label(self) -> Seq<char> {
        match self {
            BlockType::HighPerf => "high_perf"@,
            BlockType::StorageOpt => "storage_opt"@,
            BlockType::Unknown => "unknown"@,
        }
    }

    /// The text of this value, as its display form shows it.
    pub fn as_str(&self) -> (s: &'static str)
        ensures
            s@ == self.label(),
    {
        match self {
            BlockType::HighPerf => "high_perf",
            BlockType::StorageOpt => "storage_opt",
            BlockType::Unknown => "unknown",
        }
    }

    /// The display form of this value as an owned string.
    pub fn to_string(&self) -> (s: String)
        ensures
            s@ == self.label(),
    {
        owned(self.as_str())
    }

    /// The value named by `s` after Unicode lower-case mapping, if any.
    pub open spec fn parsed(s: Seq<char>) -> Option<BlockType> {
        let k = spec_to_lowercase(s);
        if k == "high_perf"@ {
            Some(BlockType::HighPerf)
        } else if k == "highperf"@ {
            Some(BlockType::HighPerf)
        } else if k == "storage_opt"@ {
            Some(BlockType::StorageOpt)
        } else if k == "storageopt"@ {
            Some(BlockType::StorageOpt)
        } else {
            None
        }
    }

    /// Parse a value as its `FromStr` implementation does; the error names the input.
    pub fn parse(s: &str) -> (r: Result<BlockType, String>)
        ensures
            r matches Ok(v) ==> Self::parsed(s@) == Some(v),
            r matches Err(msg) ==> Self::parsed(s@) is None && msg@ == "Unknown block type: "@ + s@,
    {
        let k = to_lowercase(s);
        if str_eq(k.as_str(), "high_perf") {
            Ok(BlockType::HighPerf)
        } else if str_eq(k.as_str(), "highperf") {
            Ok(BlockType::HighPerf)
        } else if str_eq(k.as_str(), "storage_opt") {
            Ok(BlockType::StorageOpt)
        } else if str_eq(k.as_str(), "storageopt") {
            Ok(BlockType::StorageOpt)
        } else {
            let mut msg = owned("Unknown block type: ");
            msg.append(s);
            Err(msg)
        }
    }
}

impl std::str::FromStr for BlockType {
    type Err = String;

    fn from_str(s: &str) -> (r: Result<Self, Self::Err>)
        ensures
            r matches Ok(v) ==> Self::parsed(s@) == Some(v),
            r matches Err(msg) ==> Self::parsed(s@) is None && msg@ == "Unknown block type: "@ + s@,
    {
        BlockType::parse(s)
    }
}

impl BlockStorage {
    /// The volume names an instance it is attached to, and that name is not empty.
    pub open spec fn attached(self) -> bool {
        self.attached_to_instance matches Some(id) && id@.len() > 0
    }

    /// Check if the block storage is attached to an instance.
    pub fn is_attached(&self) -> (r: bool)
        ensures
            r == self.attached(),
    {
        match &self.attached_to_instance {
            Some(id) => !id.as_str().is_empty(),
            None => false,
        }
    }
}

/// A volume counts as attached exactly when it names a non-empty instance id.
pub proof fn attached_means_a_named_instance(b: BlockStorage)
    ensures
        b.attached() <==> (b.attached_to_instance matches Some(id) && id@.len() > 0),
        b.attached_to_instance is None ==> !b.attached(),
{
}

} // verus!
