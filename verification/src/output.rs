//! Table rows: the text shown for each resource in a table.

use crate::models::block_storage::BlockStorage;
use crate::models::common::{Os, Region};
use crate::models::firewall::{FirewallGroup, FirewallRule};
use crate::models::instance::Instance;
use crate::models::snapshot::{size_text, Snapshot};
use crate::models::ssh_key::SshKey;
use crate::models::startup_script::StartupScript;
use crate::models::vpc::Vpc;
use crate::text::{i64_to_decimal, int_decimal, join, join_seq, owned, views};
use vstd::prelude::*;

verus! {

/// The text of an optional string, empty when absent.
pub open spec fn text_or_empty(o: Option<String>) -> Seq<char> {
    match o {
        Some(s) => s@,
        None => Seq::empty(),
    }
}

/// The decimal text of an optional number, empty when absent.
pub open spec fn number_or_empty(o: Option<i32>) -> Seq<char> {
    match o {
        Some(n) => int_decimal(n as int),
        None => Seq::empty(),
    }
}

fn string_or_empty(o: &Option<String>) -> (r: String)
    ensures
        r@ == text_or_empty(*o),
{
    match o {
        Some(s) => s.clone(),
        None => String::new(),
    }
}

fn number_or_empty_string(o: Option<i32>) -> (r: String)
    ensures
        r@ == number_or_empty(o),
{
    match o {
        Some(n) => i64_to_decimal(n as i64),
        None => String::new(),
    }
}

/// Wrapper for displaying instances in a table.
pub struct InstanceRow {
    pub id: String,
    pub label: String,
    pub region: String,
    pub plan: String,
    pub main_ip: String,
    pub status: String,
    pub power: String,
}

impl InstanceRow {
    /// The row shown for an instance.
    pub fn from(i: &Instance) -> (r: Self)
        ensures
            r.id@ == i.id@,
            r.label@ == text_or_empty(i.label),
            r.region@ == text_or_empty(i.region),
            r.plan@ == text_or_empty(i.plan),
            r.main_ip@ == text_or_empty(i.main_ip),
            r.status@ == match i.status {
                Some(s) => s.label(),
                None => Seq::empty(),
            },
            r.power@ == match i.power_status {
                Some(p) => p.label(),
                None => Seq::empty(),
            },
    {
        InstanceRow {
            id: i.id.clone(),
            label: string_or_empty(&i.label),
            region: string_or_empty(&i.region),
            plan: string_or_empty(&i.plan),
            main_ip: string_or_empty(&i.main_ip),
            status: match i.status {
                Some(s) => s.to_string(),
                None => String::new(),
            },
            power: match i.power_status {
                Some(p) => p.to_string(),
                None => String::new(),
            },
        }
    }
}

/// Wrapper for displaying SSH keys in a table.
pub struct SshKeyRow {
    pub id: String,
    pub name: String,
    pub date_created: String,
}

impl SshKeyRow {
    /// The row shown for an SSH key.
    pub fn from(k: &SshKey) -> (r: Self)
        ensures
            r.id@ == k.id@,
            r.name@ == text_or_empty(k.name),
            r.date_created@ == text_or_empty(k.date_created),
    {
        SshKeyRow {
            id: k.id.clone(),
            name: string_or_empty(&k.name),
            date_created: string_or_empty(&k.date_created),
        }
    }
}

/// Wrapper for displaying startup scripts in a table.
pub struct StartupScriptRow {
    pub id: String,
    pub name: String,
    pub script_type: String,
    pub date_modified: String,
}

impl StartupScriptRow {
    /// The row shown for a startup script.
    pub fn from(s: &StartupScript) -> (r: Self)
        ensures
            r.id@ == s.id@,
            r.name@ == text_or_empty(s.name),
            r.script_type@ == match s.script_type {
                Some(t) => t.label(),
                None => Seq::empty(),
            },
            r.date_modified@ == text_or_empty(s.date_modified),
    {
        StartupScriptRow {
            id: s.id.clone(),
            name: string_or_empty(&s.name),
            script_type: match s.script_type {
                Some(t) => t.to_string(),
                None => String::new(),
            },
            date_modified: string_or_empty(&s.date_modified),
        }
    }
}

/// Wrapper for displaying snapshots in a table.
pub struct SnapshotRow {
    pub id: String,
    pub description: String,
    pub size: String,
    pub status: String,
    pub date_created: String,
}

impl SnapshotRow {
    /// The row shown for a snapshot.
    pub fn from(s: &Snapshot) -> (r: Self)
        ensures
            r.id@ == s.id@,
            r.description@ == text_or_empty(s.description),
            r.size@ == size_text(s.size),
            r.status@ == match s.status {
                Some(st) => st.label(),
                None => Seq::empty(),
            },
            r.date_created@ == text_or_empty(s.date_created),
    {
        SnapshotRow {
            id: s.id.clone(),
            description: string_or_empty(&s.description),
            size: s.size_human(),
            status: match s.status {
                Some(st) => st.to_string(),
                None => String::new(),
            },
            date_created: string_or_empty(&s.date_created),
        }
    }
}

/// Wrapper for displaying block storage in a table.
pub struct BlockStorageRow {
    pub id: String,
    pub label: String,
    pub size_gb: String,
    pub region: String,
    pub status: String,
    pub attached_to: String,
}

impl BlockStorageRow {
    /// The row shown for a block storage volume; `-` when it is not attached.
    pub fn from(b: &BlockStorage) -> (r: Self)
        ensures
            r.id@ == b.id@,
            r.label@ == text_or_empty(b.label),
            r.size_gb@ == number_or_empty(b.size_gb),
            r.region@ == text_or_empty(b.region),
            r.status@ == match b.status {
                Some(st) => st.label(),
                None => Seq::empty(),
            },
            r.attached_to@ == match b.attached_to_instance {
                Some(a) => a@,
                None => "-"@,
            },
    {
        BlockStorageRow {
            id: b.id.clone(),
            label: string_or_empty(&b.label),
            size_gb: number_or_empty_string(b.size_gb),
            region: string_or_empty(&b.region),
            status: match b.status {
                Some(st) => st.to_string(),
                None => String::new(),
            },
            attached_to: match &b.attached_to_instance {
                Some(a) => a.clone(),
                None => owned("-"),
            },
        }
    }
}

/// Wrapper for displaying firewall groups in a table.
pub struct FirewallGroupRow {
    pub id: String,
    pub description: String,
    pub rule_count: String,
    pub instance_count: String,
    pub date_modified: String,
}

impl FirewallGroupRow {
    /// The row shown for a firewall group.
    pub fn from(g: &FirewallGroup) -> (r: Self)
        ensures
            r.id@ == g.id@,
            r.description@ == text_or_empty(g.description),
            r.rule_count@ == number_or_empty(g.rule_count),
            r.instance_count@ == number_or_empty(g.instance_count),
            r.date_modified@ == text_or_empty(g.date_modified),
    {
        FirewallGroupRow {
            id: g.id.clone(),
            description: string_or_empty(&g.description),
            rule_count: number_or_empty_string(g.rule_count),
            instance_count: number_or_empty_string(g.instance_count),
            date_modified: string_or_empty(&g.date_modified),
        }
    }
}

/// Wrapper for displaying firewall rules in a table.
pub struct FirewallRuleRow {
    pub id: String,
    pub protocol: String,
    pub port: String,
    pub source: String,
    pub notes: String,
}

/// The source shown for a rule: its non-empty source, else its CIDR, else `-`.
pub open spec fn rule_source(r: FirewallRule) -> Seq<char> {
    match r.source {
        Some(s) if s@.len() > 0 => s@,
        _ => match r.cidr_view() {
            Some(c) => c,
            None => "-"@,
        },
    }
}

impl FirewallRuleRow {
    /// The row shown for a firewall rule.
    pub fn from(r: &FirewallRule) -> (row: Self)
        ensures
            row.id@ == int_decimal(r.id as int),
            row.protocol@ == match r.protocol {
                Some(p) => p.label(),
                None => Seq::empty(),
            },
            row.port@ == match r.port {
                Some(p) => p@,
                None => "-"@,
            },
            row.source@ == rule_source(*r),
            row.notes@ == text_or_empty(r.notes),
    {
        let non_empty_source = match &r.source {
            Some(s) => !s.as_str().is_empty(),
            None => false,
        };
        let source = if non_empty_source {
            match &r.source {
                Some(s) => s.clone(),
                None => owned("-"),
            }
        } else {
            match r.cidr() {
                Some(c) => c,
                None => owned("-"),
            }
        };
        FirewallRuleRow {
            id: i64_to_decimal(r.id as i64),
            protocol: match r.protocol {
                Some(p) => p.to_string(),
                None => String::new(),
            },
            port: match &r.port {
                Some(p) => p.clone(),
                None => owned("-"),
            },
            source,
            notes: string_or_empty(&r.notes),
        }
    }
}

/// Wrapper for displaying VPCs in a table.
pub struct VpcRow {
    pub id: String,
    pub description: String,
    pub region: String,
    pub subnet: String,
    pub date_created: String,
}

impl VpcRow {
    /// The row shown for a VPC.
    pub fn from(v: &Vpc) -> (r: Self)
        ensures
            r.id@ == v.id@,
            r.description@ == text_or_empty(v.description),
            r.region@ == text_or_empty(v.region),
            r.subnet@ == match v.cidr_view() {
                Some(c) => c,
                None => Seq::empty(),
            },
            r.date_created@ == text_or_empty(v.date_created),
    {
        VpcRow {
            id: v.id.clone(),
            description: string_or_empty(&v.description),
            region: string_or_empty(&v.region),
            subnet: match v.cidr() {
                Some(c) => c,
                None => String::new(),
            },
            date_created: string_or_empty(&v.date_created),
        }
    }
}

/// Wrapper for displaying regions in a table.
pub struct RegionRow {
    pub id: String,
    pub city: String,
    pub country: String,
    pub features: String,
}

impl RegionRow {
    /// The row shown for a region; its features are joined with `, `.
    pub fn from(r: &Region) -> (row: Self)
        ensures
            row.id@ == r.id@,
            row.city@ == text_or_empty(r.city),
            row.country@ == text_or_empty(r.country),
            row.features@ == join_seq(views(r.options@), ", "@),
    {
        RegionRow {
            id: r.id.clone(),
            city: string_or_empty(&r.city),
            country: string_or_empty(&r.country),
            features: join(&r.options, ", "),
        }
    }
}

/// Wrapper for displaying operating systems in a table.
pub struct OsRow {
    pub id: String,
    pub name: String,
    pub arch: String,
    pub family: String,
}

impl OsRow {
    /// The row shown for an operating system.
    pub fn from(o: &Os) -> (r: Self)
        ensures
            r.id@ == int_decimal(o.id as int),
            r.name@ == text_or_empty(o.name),
            r.arch@ == text_or_empty(o.arch),
            r.family@ == text_or_empty(o.family),
    {
        OsRow {
            id: i64_to_decimal(o.id as i64),
            name: string_or_empty(&o.name),
            arch: string_or_empty(&o.arch),
            family: string_or_empty(&o.family),
        }
    }
}

} // verus!
