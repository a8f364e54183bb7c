use vultr_cli::models::block_storage::{BlockStorage, BlockStorageStatus};
use vultr_cli::models::common::{Os, Region};
use vultr_cli::models::firewall::{FirewallGroup, FirewallRule, Protocol};
use vultr_cli::models::instance::{Instance, InstanceStatus, PowerStatus};
use vultr_cli::models::snapshot::{Snapshot, SnapshotStatus};
use vultr_cli::models::ssh_key::SshKey;
use vultr_cli::models::startup_script::{ScriptType, StartupScript};
use vultr_cli::models::vpc::Vpc;
use vultr_cli::output::{
    BlockStorageRow, FirewallGroupRow, FirewallRuleRow, InstanceRow, OsRow, RegionRow, SnapshotRow,
    SshKeyRow, StartupScriptRow, VpcRow,
};

#[test]
fn test_instance_row_from_instance() {
    let instance = Instance {
        id: "inst-123".to_string(),
        label: Some("web-server".to_string()),
        region: Some("ewr".to_string()),
        plan: Some("vc2-1c-1gb".to_string()),
        main_ip: Some("192.168.1.1".to_string()),
        status: Some(InstanceStatus::Active),
        power_status: Some(PowerStatus::Running),
        os: None,
        ram: None,
        disk: None,
        vcpu_count: None,
        default_password: None,
        date_created: None,
        allowed_bandwidth: None,
        netmask_v4: None,
        gateway_v4: None,
        v6_networks: vec![],
        hostname: None,
        internal_ip: None,
        kvm: None,
        os_id: None,
        app_id: None,
        image_id: None,
        firewall_group_id: None,
        features: vec![],
        tags: vec![],
        user_scheme: None,
        server_status: None,
    };
    let row = InstanceRow::from(&instance);
    assert_eq!(row.id, "inst-123");
    assert_eq!(row.label, "web-server");
    assert_eq!(row.region, "ewr");
}

#[test]
fn test_instance_row_from_instance_defaults() {
    let instance = Instance {
        id: "inst-456".to_string(),
        label: None,
        region: None,
        plan: None,
        main_ip: None,
        status: None,
        power_status: None,
        os: None,
        ram: None,
        disk: None,
        vcpu_count: None,
        default_password: None,
        date_created: None,
        allowed_bandwidth: None,
        netmask_v4: None,
        gateway_v4: None,
        v6_networks: vec![],
        hostname: None,
        internal_ip: None,
        kvm: None,
        os_id: None,
        app_id: None,
        image_id: None,
        firewall_group_id: None,
        features: vec![],
        tags: vec![],
        user_scheme: None,
        server_status: None,
    };
    let row = InstanceRow::from(&instance);
    assert_eq!(row.id, "inst-456");
    assert_eq!(row.label, "");
    assert_eq!(row.status, "");
}

#[test]
fn test_ssh_key_row_from() {
    let key = SshKey {
        id: "key-123".to_string(),
        name: Some("My Key".to_string()),
        date_created: Some("2024-01-01".to_string()),
        ssh_key: None,
    };
    let row = SshKeyRow::from(&key);
    assert_eq!(row.id, "key-123");
    assert_eq!(row.name, "My Key");
    assert_eq!(row.date_created, "2024-01-01");
}

#[test]
fn test_snapshot_row_from() {
    let snapshot = Snapshot {
        id: "snap-123".to_string(),
        description: Some("Daily backup".to_string()),
        size: Some(1073741824),
        status: Some(SnapshotStatus::Complete),
        date_created: Some("2024-01-01".to_string()),
        os_id: None,
        app_id: None,
    };
    let row = SnapshotRow::from(&snapshot);
    assert_eq!(row.id, "snap-123");
    assert_eq!(row.description, "Daily backup");
    assert_eq!(row.status, "complete");
}

#[test]
fn test_block_storage_row_from() {
    let block = BlockStorage {
        id: "block-123".to_string(),
        label: Some("Data Volume".to_string()),
        size_gb: Some(100),
        region: Some("ewr".to_string()),
        status: Some(BlockStorageStatus::Active),
        attached_to_instance: Some("inst-456".to_string()),
        cost: None,
        date_created: None,
        mount_id: None,
        block_type: None,
    };
    let row = BlockStorageRow::from(&block);
    assert_eq!(row.id, "block-123");
    assert_eq!(row.label, "Data Volume");
    assert_eq!(row.size_gb, "100");
    assert_eq!(row.attached_to, "inst-456");
}

#[test]
fn test_block_storage_row_not_attached() {
    let block = BlockStorage {
        id: "block-789".to_string(),
        label: None,
        size_gb: None,
        region: None,
        status: None,
        attached_to_instance: None,
        cost: None,
        date_created: None,
        mount_id: None,
        block_type: None,
    };
    let row = BlockStorageRow::from(&block);
    assert_eq!(row.attached_to, "-");
}

#[test]
fn test_firewall_group_row_from() {
    let group = FirewallGroup {
        id: "fw-123".to_string(),
        description: Some("Web Servers".to_string()),
        rule_count: Some(5),
        instance_count: Some(3),
        date_created: None,
        date_modified: Some("2024-01-01".to_string()),
        max_rule_count: None,
    };
    let row = FirewallGroupRow::from(&group);
    assert_eq!(row.id, "fw-123");
    assert_eq!(row.description, "Web Servers");
    assert_eq!(row.rule_count, "5");
}

#[test]
fn test_firewall_rule_row_from() {
    let rule = FirewallRule {
        id: 1,
        ip_type: None,
        action: None,
        protocol: Some(Protocol::Tcp),
        port: Some("443".to_string()),
        subnet: Some("0.0.0.0".to_string()),
        subnet_size: Some(0),
        source: None,
        notes: Some("HTTPS".to_string()),
    };
    let row = FirewallRuleRow::from(&rule);
    assert_eq!(row.id, "1");
    assert_eq!(row.protocol, "TCP");
    assert_eq!(row.port, "443");
    assert_eq!(row.notes, "HTTPS");
}

#[test]
fn test_firewall_rule_row_with_source() {
    let rule = FirewallRule {
        id: 2,
        ip_type: None,
        action: None,
        protocol: Some(Protocol::Tcp),
        port: None,
        subnet: None,
        subnet_size: None,
        source: Some("cloudflare".to_string()),
        notes: None,
    };
    let row = FirewallRuleRow::from(&rule);
    assert_eq!(row.source, "cloudflare");
}

#[test]
fn test_vpc_row_from() {
    let vpc = Vpc {
        id: "vpc-123".to_string(),
        description: Some("Production".to_string()),
        region: Some("ewr".to_string()),
        v4_subnet: Some("10.0.0.0".to_string()),
        v4_subnet_mask: Some(16),
        date_created: Some("2024-01-01".to_string()),
        internet: None,
    };
    let row = VpcRow::from(&vpc);
    assert_eq!(row.id, "vpc-123");
    assert_eq!(row.description, "Production");
    assert_eq!(row.subnet, "10.0.0.0/16");
}

#[test]
fn test_region_row_from() {
    let region = Region {
        id: "ewr".to_string(),
        city: Some("Newark".to_string()),
        country: Some("US".to_string()),
        continent: Some("North America".to_string()),
        options: vec!["ddos_protection".to_string(), "block_storage".to_string()],
    };
    let row = RegionRow::from(&region);
    assert_eq!(row.id, "ewr");
    assert_eq!(row.city, "Newark");
    assert!(row.features.contains("ddos_protection"));
}

#[test]
fn test_os_row_from() {
    let os = Os {
        id: 215,
        name: Some("Ubuntu 22.04 LTS".to_string()),
        arch: Some("x64".to_string()),
        family: Some("ubuntu".to_string()),
    };
    let row = OsRow::from(&os);
    assert_eq!(row.id, "215");
    assert_eq!(row.name, "Ubuntu 22.04 LTS");
    assert_eq!(row.arch, "x64");
}

#[test]
fn test_startup_script_row_from() {
    let script = StartupScript {
        id: "script-123".to_string(),
        name: Some("Setup".to_string()),
        script_type: Some(ScriptType::Boot),
        script: None,
        date_created: None,
        date_modified: Some("2024-01-01".to_string()),
    };
    let row = StartupScriptRow::from(&script);
    assert_eq!(row.id, "script-123");
    assert_eq!(row.name, "Setup");
    assert_eq!(row.script_type, "boot");
}

#[test]
fn snapshot_row_shows_size_in_gigabytes() {
    let snapshot = Snapshot {
        id: "snap-1".to_string(),
        description: None,
        size: Some(1073741824),
        status: None,
        date_created: None,
        os_id: None,
        app_id: None,
    };
    let row = SnapshotRow::from(&snapshot);
    assert_eq!(row.size, "1.00 GB");
    assert_eq!(row.status, "");
}

#[test]
fn firewall_rule_row_falls_back_to_cidr_then_dash() {
    let mut rule = FirewallRule {
        id: -7,
        ip_type: None,
        action: None,
        protocol: None,
        port: None,
        subnet: Some("10.0.0.0".to_string()),
        subnet_size: Some(8),
        source: Some(String::new()),
        notes: None,
    };
    let row = FirewallRuleRow::from(&rule);
    assert_eq!(row.id, "-7");
    assert_eq!(row.source, "10.0.0.0/8");
    assert_eq!(row.port, "-");
    assert_eq!(row.protocol, "");
    rule.subnet = None;
    let row = FirewallRuleRow::from(&rule);
    assert_eq!(row.source, "-");
}

#[test]
fn region_row_joins_features() {
    let region = Region {
        id: "lax".to_string(),
        city: None,
        country: None,
        continent: None,
        options: vec!["a".to_string(), "b".to_string(), "c".to_string()],
    };
    let row = RegionRow::from(&region);
    assert_eq!(row.features, "a, b, c");
    assert_eq!(row.city, "");
}

#[test]
fn os_row_renders_negative_id() {
    let os = Os { id: -2147483648, name: None, arch: None, family: None };
    assert_eq!(OsRow::from(&os).id, "-2147483648");
}
