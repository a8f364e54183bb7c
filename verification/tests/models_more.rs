use vultr_cli::models::registry::retention_rule_request;
use vultr_cli::models::block_storage::{BlockStorage, BlockType};
use vultr_cli::models::firewall::{FirewallRule, IpType, Protocol};
use vultr_cli::models::snapshot::Snapshot;
use vultr_cli::models::startup_script::{
    CreateStartupScriptRequest, ScriptType, StartupScript, UpdateStartupScriptRequest,
};

fn sized(size: Option<i64>) -> Snapshot {
    Snapshot { id: "s".to_string(), date_created: None, description: None, size, status: None, os_id: None, app_id: None }
}

#[test]
fn size_human_matches_float_formatting() {
    let cases: [i64; 14] = [
        0, -5, 1023, 1024, 1536, 1048575, 1048576, 5_000_000, 1073741824, 3 * 1073741824 + 134217728,
        1073741824 * 3 + 1073741824 / 8, 9_007_199_254_740_993, i64::MAX, 123_456_789_012,
    ];
    for b in cases {
        let expected = if b >= 1_073_741_824 {
            format!("{:.2} GB", b as f64 / 1_073_741_824.0)
        } else if b >= 1_048_576 {
            format!("{:.2} MB", b as f64 / 1_048_576.0)
        } else if b >= 1024 {
            format!("{:.2} KB", b as f64 / 1024.0)
        } else {
            format!("{} bytes", b)
        };
        assert_eq!(sized(Some(b)).size_human(), expected, "bytes {}", b);
    }
    assert_eq!(sized(None).size_human(), "Unknown");
    assert_eq!(sized(Some(1073741824)).size_human(), "1.00 GB");
    assert_eq!(sized(Some(1536)).size_human(), "1.50 KB");
}

#[test]
fn parse_enums_like_from_str() {
    assert!(matches!(IpType::parse("IPv4"), Ok(IpType::V4)));
    assert!(matches!(IpType::parse("v6"), Ok(IpType::V6)));
    assert_eq!(IpType::parse("v5").unwrap_err(), "Unknown IP type: v5");
    assert!(matches!(Protocol::parse("tcp"), Ok(Protocol::Tcp)));
    assert!(matches!(Protocol::parse("Ah"), Ok(Protocol::Ah)));
    assert_eq!(Protocol::parse("sctp").unwrap_err(), "Unknown protocol: sctp");
    assert!(matches!(BlockType::parse("HighPerf"), Ok(BlockType::HighPerf)));
    assert!(matches!(BlockType::parse("storage_opt"), Ok(BlockType::StorageOpt)));
    assert_eq!(BlockType::parse("ssd").unwrap_err(), "Unknown block type: ssd");
    assert!(matches!(ScriptType::parse("PXE"), Ok(ScriptType::Pxe)));
    assert_eq!(ScriptType::parse("x").unwrap_err(), "Unknown script type: x");
    assert!(matches!("udp".parse::<Protocol>(), Ok(Protocol::Udp)));
    assert!(matches!(ScriptType::default(), ScriptType::Boot));
    assert_eq!(Protocol::Icmp.as_str(), "ICMP");
    assert_eq!(BlockType::HighPerf.to_string(), "high_perf");
}

#[test]
fn startup_script_round_trip() {
    let req = CreateStartupScriptRequest::new("setup".to_string(), "#!/bin/sh\necho héllo\n", Some(ScriptType::Boot));
    assert_eq!(req.name, "setup");
    assert_eq!(req.script_type.as_deref(), Some("boot"));
    assert_eq!(req.script, "IyEvYmluL3NoCmVjaG8gaMOpbGxvCg==");
    let script = StartupScript {
        id: "1".to_string(),
        date_created: None,
        date_modified: None,
        name: None,
        script: Some(req.script.clone()),
        script_type: None,
    };
    assert_eq!(script.decode_script().as_deref(), Some("#!/bin/sh\necho héllo\n"));
    let bad = StartupScript { script: Some("***".to_string()), ..script.clone() };
    assert!(bad.decode_script().is_none());
    let not_utf8 = StartupScript { script: Some("/w==".to_string()), ..script.clone() };
    assert!(not_utf8.decode_script().is_none());
    let none = StartupScript { script: None, ..script };
    assert!(none.decode_script().is_none());
    let update = UpdateStartupScriptRequest::default().with_raw_script("hi");
    assert_eq!(update.script.as_deref(), Some("aGk="));
    assert!(update.name.is_none());
}

#[test]
fn cidr_and_attachment() {
    let rule = FirewallRule {
        id: 1,
        ip_type: Some(IpType::V6),
        action: None,
        protocol: None,
        port: None,
        subnet: Some("::".to_string()),
        subnet_size: Some(0),
        source: None,
        notes: None,
    };
    assert_eq!(rule.cidr().as_deref(), Some("::/0"));
    let mut block = BlockStorage {
        id: "b".to_string(),
        cost: None,
        status: None,
        size_gb: None,
        region: None,
        attached_to_instance: Some(String::new()),
        date_created: None,
        label: None,
        mount_id: None,
        block_type: None,
    };
    assert!(!block.is_attached());
    block.attached_to_instance = Some("i-1".to_string());
    assert!(block.is_attached());
    block.attached_to_instance = None;
    assert!(!block.is_attached());
}

#[test]
fn retention_rule_requests_follow_the_template() {
    let r = retention_rule_request("nDaysSinceLastPush".to_string(), "v*".to_string(), Some("app/**".to_string()), Some(7));
    assert_eq!(r.action.as_deref(), Some("retain"));
    assert_eq!(r.params, Some(vec![("nDays".to_string(), 7)]));
    let repo = &r.scope_selectors.as_ref().unwrap().repository.as_ref().unwrap()[0];
    assert_eq!((repo.decoration.as_str(), repo.kind.as_str(), repo.pattern.as_str()), ("repoMatches", "doublestar", "app/**"));
    let tag = &r.tag_selectors.as_ref().unwrap()[0];
    assert_eq!((tag.decoration.as_str(), tag.kind.as_str(), tag.pattern.as_str()), ("matches", "doublestar", "v*"));
    let r = retention_rule_request("latestPushedK".to_string(), "*".to_string(), None, Some(3));
    assert_eq!(r.params, Some(vec![("latestPushedK".to_string(), 3)]));
    assert!(r.scope_selectors.is_none());
    let r = retention_rule_request("always".to_string(), "*".to_string(), None, None);
    assert!(r.params.is_none());
}
