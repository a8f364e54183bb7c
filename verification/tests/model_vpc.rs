use vultr_cli::models::vpc::{UpdateVpcRequest, Vpc, Vpc2};

#[test]
fn test_vpc_cidr() {
    let vpc = Vpc {
        id: "vpc-123".to_string(),
        region: Some("ewr".to_string()),
        date_created: None,
        description: Some("Test VPC".to_string()),
        v4_subnet: Some("10.0.0.0".to_string()),
        v4_subnet_mask: Some(16),
        internet: None,
    };
    assert_eq!(vpc.cidr().unwrap(), "10.0.0.0/16");
}

#[test]
fn test_vpc_cidr_none() {
    let vpc = Vpc {
        id: "vpc-123".to_string(),
        region: None,
        date_created: None,
        description: None,
        v4_subnet: None,
        v4_subnet_mask: None,
        internet: None,
    };
    assert!(vpc.cidr().is_none());
}

#[test]
fn test_vpc_cidr_partial() {
    let vpc = Vpc {
        id: "vpc-123".to_string(),
        region: None,
        date_created: None,
        description: None,
        v4_subnet: Some("10.0.0.0".to_string()),
        v4_subnet_mask: None,
        internet: None,
    };
    assert!(vpc.cidr().is_none());
}

#[test]
fn test_vpc2_cidr() {
    let vpc2 = Vpc2 {
        id: "vpc2-123".to_string(),
        region: Some("lax".to_string()),
        date_created: None,
        description: Some("Test VPC 2.0".to_string()),
        ip_block: Some("172.16.0.0".to_string()),
        prefix_length: Some(24),
    };
    assert_eq!(vpc2.cidr().unwrap(), "172.16.0.0/24");
}

#[test]
fn test_vpc2_cidr_none() {
    let vpc2 = Vpc2 {
        id: "vpc2-123".to_string(),
        region: None,
        date_created: None,
        description: None,
        ip_block: None,
        prefix_length: None,
    };
    assert!(vpc2.cidr().is_none());
}

#[test]
fn test_update_vpc_request_default() {
    let req = UpdateVpcRequest::default();
    assert!(req.description.is_none());
}
