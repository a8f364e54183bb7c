use vultr_cli::models::instance::{
    CreateInstanceRequest, Instance, InstanceStatus, PowerStatus, ServerStatus,
};

#[test]
fn test_instance_status_display() {
    assert_eq!(InstanceStatus::Active.to_string(), "active");
    assert_eq!(InstanceStatus::Pending.to_string(), "pending");
    assert_eq!(InstanceStatus::Suspended.to_string(), "suspended");
    assert_eq!(InstanceStatus::Resizing.to_string(), "resizing");
    assert_eq!(InstanceStatus::Unknown.to_string(), "unknown");
}

#[test]
fn test_power_status_display() {
    assert_eq!(PowerStatus::Running.to_string(), "running");
    assert_eq!(PowerStatus::Stopped.to_string(), "stopped");
    assert_eq!(PowerStatus::Unknown.to_string(), "unknown");
}

#[test]
fn test_server_status_display() {
    assert_eq!(ServerStatus::StatusNone.to_string(), "none");
    assert_eq!(ServerStatus::Locked.to_string(), "locked");
    assert_eq!(
        ServerStatus::Installingbooting.to_string(),
        "installing/booting"
    );
    assert_eq!(ServerStatus::StatusOk.to_string(), "ok");
    assert_eq!(ServerStatus::Unknown.to_string(), "unknown");
}

#[test]
fn test_instance_is_ready_true() {
    let instance = Instance {
        id: "test-123".to_string(),
        status: Some(InstanceStatus::Active),
        power_status: Some(PowerStatus::Running),
        server_status: Some(ServerStatus::StatusOk),
        os: None,
        ram: None,
        disk: None,
        main_ip: None,
        vcpu_count: None,
        region: None,
        default_password: None,
        date_created: None,
        allowed_bandwidth: None,
        netmask_v4: None,
        gateway_v4: None,
        v6_networks: vec![],
        hostname: None,
        label: None,
        internal_ip: None,
        kvm: None,
        os_id: None,
        app_id: None,
        image_id: None,
        firewall_group_id: None,
        features: vec![],
        plan: None,
        tags: vec![],
        user_scheme: None,
    };
    assert!(instance.is_ready());
}

#[test]
fn test_instance_is_ready_false_pending() {
    let instance = Instance {
        id: "test-123".to_string(),
        status: Some(InstanceStatus::Pending),
        power_status: Some(PowerStatus::Running),
        server_status: Some(ServerStatus::StatusOk),
        os: None,
        ram: None,
        disk: None,
        main_ip: None,
        vcpu_count: None,
        region: None,
        default_password: None,
        date_created: None,
        allowed_bandwidth: None,
        netmask_v4: None,
        gateway_v4: None,
        v6_networks: vec![],
        hostname: None,
        label: None,
        internal_ip: None,
        kvm: None,
        os_id: None,
        app_id: None,
        image_id: None,
        firewall_group_id: None,
        features: vec![],
        plan: None,
        tags: vec![],
        user_scheme: None,
    };
    assert!(!instance.is_ready());
}

#[test]
fn test_instance_is_ready_false_stopped() {
    let instance = Instance {
        id: "test-123".to_string(),
        status: Some(InstanceStatus::Active),
        power_status: Some(PowerStatus::Stopped),
        server_status: Some(ServerStatus::StatusOk),
        os: None,
        ram: None,
        disk: None,
        main_ip: None,
        vcpu_count: None,
        region: None,
        default_password: None,
        date_created: None,
        allowed_bandwidth: None,
        netmask_v4: None,
        gateway_v4: None,
        v6_networks: vec![],
        hostname: None,
        label: None,
        internal_ip: None,
        kvm: None,
        os_id: None,
        app_id: None,
        image_id: None,
        firewall_group_id: None,
        features: vec![],
        plan: None,
        tags: vec![],
        user_scheme: None,
    };
    assert!(!instance.is_ready());
}

#[test]
fn test_create_instance_request_default() {
    let req = CreateInstanceRequest::default();
    assert!(req.region.is_empty());
    assert!(req.plan.is_empty());
    assert!(req.os_id.is_none());
}
