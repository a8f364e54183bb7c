use vultr_cli::models::cdn::{CdnPullZone, CdnPushZone, CdnZoneStatus, OriginScheme};

#[test]
fn test_cdn_zone_status_display() {
    assert_eq!(CdnZoneStatus::Active.to_string(), "active");
    assert_eq!(CdnZoneStatus::Pending.to_string(), "pending");
    assert_eq!(CdnZoneStatus::Unknown.to_string(), "unknown");
}

#[test]
fn test_origin_scheme_display() {
    assert_eq!(OriginScheme::Http.to_string(), "http");
    assert_eq!(OriginScheme::Https.to_string(), "https");
    assert_eq!(OriginScheme::Unknown.to_string(), "unknown");
}

#[test]
fn test_pull_zone_is_active() {
    let zone = CdnPullZone {
        id: "zone-123".to_string(),
        status: Some(CdnZoneStatus::Active),
        date_created: None,
        label: None,
        origin_scheme: None,
        origin_domain: None,
        cdn_url: None,
        vanity_domain: None,
        cache_size: None,
        requests: None,
        in_bytes: None,
        out_bytes: None,
        packets_per_sec: None,
        last_purge: None,
        cors: None,
        gzip: None,
        block_ai: None,
        block_bad_bots: None,
        regions: vec![],
    };
    assert!(zone.is_active());
}

#[test]
fn test_pull_zone_is_not_active() {
    let zone = CdnPullZone {
        id: "zone-123".to_string(),
        status: Some(CdnZoneStatus::Pending),
        date_created: None,
        label: None,
        origin_scheme: None,
        origin_domain: None,
        cdn_url: None,
        vanity_domain: None,
        cache_size: None,
        requests: None,
        in_bytes: None,
        out_bytes: None,
        packets_per_sec: None,
        last_purge: None,
        cors: None,
        gzip: None,
        block_ai: None,
        block_bad_bots: None,
        regions: vec![],
    };
    assert!(!zone.is_active());
}

#[test]
fn test_push_zone_is_active() {
    let zone = CdnPushZone {
        id: "zone-456".to_string(),
        status: Some(CdnZoneStatus::Active),
        date_created: None,
        label: None,
        cdn_url: None,
        vanity_domain: None,
        cache_size: None,
        requests: None,
        in_bytes: None,
        out_bytes: None,
        packets_per_sec: None,
        cors: None,
        gzip: None,
        block_ai: None,
        block_bad_bots: None,
        regions: vec![],
    };
    assert!(zone.is_active());
}
