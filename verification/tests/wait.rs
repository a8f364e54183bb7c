use vultr_cli::api::wait::{WaitOptions, DEFAULT_POLL_INTERVAL, DEFAULT_TIMEOUT};

#[test]
fn test_wait_options_default() {
    let opts = WaitOptions::default();
    assert_eq!(opts.timeout, DEFAULT_TIMEOUT);
    assert_eq!(opts.poll_interval, DEFAULT_POLL_INTERVAL);
    assert!(opts.show_progress);
}

#[test]
fn test_wait_options_custom() {
    let opts = WaitOptions {
        timeout: 300,
        poll_interval: 10,
        show_progress: false,
    };
    assert_eq!(opts.timeout, 300);
    assert_eq!(opts.poll_interval, 10);
    assert!(!opts.show_progress);
}

#[test]
fn test_default_timeout_value() {
    assert_eq!(DEFAULT_TIMEOUT, 600);
}

#[test]
fn test_default_poll_interval_value() {
    assert_eq!(DEFAULT_POLL_INTERVAL, 5);
}

#[test]
fn test_wait_options_clone() {
    let opts = WaitOptions {
        timeout: 120,
        poll_interval: 3,
        show_progress: true,
    };
    let cloned = opts.clone();
    assert_eq!(cloned.timeout, 120);
    assert_eq!(cloned.poll_interval, 3);
}

#[test]
fn test_wait_options_debug() {
    let opts = WaitOptions::default();
    let debug_str = format!("{:?}", opts);
    assert!(debug_str.contains("timeout"));
    assert!(debug_str.contains("poll_interval"));
}

use vultr_cli::api::wait::{
    verify_deleted, verify_snapshot_deleted, wait_for_block_storage_active, wait_for_instance_ready,
    wait_for_instance_stopped, wait_for_snapshot_complete, WaitStep,
};
use vultr_cli::error::VultrError;
use vultr_cli::models::block_storage::{BlockStorage, BlockStorageStatus};
use vultr_cli::models::instance::{Instance, InstanceStatus, PowerStatus, ServerStatus};
use vultr_cli::models::snapshot::{Snapshot, SnapshotStatus};

fn instance(status: InstanceStatus, power: PowerStatus, server: ServerStatus) -> Instance {
    Instance {
        id: "i-1".to_string(),
        os: None,
        ram: None,
        disk: None,
        main_ip: None,
        vcpu_count: None,
        region: None,
        default_password: None,
        date_created: None,
        status: Some(status),
        power_status: Some(power),
        server_status: Some(server),
        allowed_bandwidth: None,
        netmask_v4: None,
        gateway_v4: None,
        v6_networks: vec![],
        hostname: None,
        label: None,
        internal_ip: None,
        kvm: None,
        os_id: None,
        app_id: None,
        image_id: None,
        firewall_group_id: None,
        features: vec![],
        plan: None,
        tags: vec![],
        user_scheme: None,
    }
}

fn snapshot(status: SnapshotStatus) -> Snapshot {
    Snapshot {
        id: "s-1".to_string(),
        date_created: None,
        description: None,
        size: None,
        status: Some(status),
        os_id: None,
        app_id: None,
    }
}

fn opts() -> WaitOptions {
    WaitOptions { timeout: 60, poll_interval: 1, show_progress: false }
}

#[test]
fn ready_instance_finishes_even_after_timeout() {
    let i = instance(InstanceStatus::Active, PowerStatus::Running, ServerStatus::StatusOk);
    match wait_for_instance_ready(Ok(i), 1000, &opts()) {
        WaitStep::Finished(Ok(got)) => assert_eq!(got.id, "i-1"),
        other => panic!("unexpected {:?}", other),
    }
}

#[test]
fn pending_instance_polls_until_timeout() {
    let i = instance(InstanceStatus::Pending, PowerStatus::Running, ServerStatus::StatusOk);
    assert!(matches!(wait_for_instance_ready(Ok(i.clone()), 60, &opts()), WaitStep::PollAgain));
    assert!(matches!(
        wait_for_instance_ready(Ok(i), 61, &opts()),
        WaitStep::Finished(Err(VultrError::Timeout { seconds: 60 }))
    ));
    assert!(matches!(
        wait_for_instance_ready(Err(VultrError::RateLimited), 0, &opts()),
        WaitStep::Finished(Err(VultrError::RateLimited))
    ));
}

#[test]
fn stopped_instance_wait() {
    let running = instance(InstanceStatus::Active, PowerStatus::Running, ServerStatus::StatusOk);
    let stopped = instance(InstanceStatus::Active, PowerStatus::Stopped, ServerStatus::StatusOk);
    assert!(matches!(wait_for_instance_stopped(Ok(running), 5, &opts()), WaitStep::PollAgain));
    assert!(matches!(wait_for_instance_stopped(Ok(stopped), 5, &opts()), WaitStep::Finished(Ok(_))));
}

#[test]
fn snapshot_wait_reports_deleted_snapshot() {
    assert!(matches!(
        wait_for_snapshot_complete(Ok(snapshot(SnapshotStatus::Complete)), "s-1", 0, &opts()),
        WaitStep::Finished(Ok(_))
    ));
    match wait_for_snapshot_complete(Ok(snapshot(SnapshotStatus::Deleted)), "s-1", 0, &opts()) {
        WaitStep::Finished(Err(VultrError::NotFound { resource_type, id })) => {
            assert_eq!(resource_type, "snapshot");
            assert_eq!(id, "s-1");
        }
        other => panic!("unexpected {:?}", other),
    }
    assert!(matches!(
        wait_for_snapshot_complete(Ok(snapshot(SnapshotStatus::Pending)), "s-1", 0, &opts()),
        WaitStep::PollAgain
    ));
}

#[test]
fn block_storage_wait() {
    let block = BlockStorage {
        id: "b-1".to_string(),
        cost: None,
        status: Some(BlockStorageStatus::Pending),
        size_gb: None,
        region: None,
        attached_to_instance: None,
        date_created: None,
        label: None,
        mount_id: None,
        block_type: None,
    };
    assert!(matches!(wait_for_block_storage_active(Ok(block.clone()), 0, &opts()), WaitStep::PollAgain));
    let mut active = block;
    active.status = Some(BlockStorageStatus::Active);
    assert!(matches!(wait_for_block_storage_active(Ok(active), 0, &opts()), WaitStep::Finished(Ok(_))));
}

#[test]
fn deletion_checks() {
    assert!(matches!(verify_deleted(Ok(()), 10, &opts()), WaitStep::PollAgain));
    assert!(matches!(
        verify_deleted(Ok(()), 61, &opts()),
        WaitStep::Finished(Err(VultrError::Timeout { seconds: 60 }))
    ));
    let gone = VultrError::ApiError { status: 404, message: "x".to_string() };
    assert!(matches!(verify_deleted(Err(gone), 61, &opts()), WaitStep::Finished(Ok(()))));
    let missing = VultrError::NotFound { resource_type: "t".to_string(), id: "i".to_string() };
    assert!(matches!(verify_deleted(Err(missing), 0, &opts()), WaitStep::Finished(Ok(()))));
    let other = VultrError::ApiError { status: 500, message: "x".to_string() };
    assert!(matches!(
        verify_deleted(Err(other), 0, &opts()),
        WaitStep::Finished(Err(VultrError::ApiError { status: 500, .. }))
    ));
    assert!(matches!(
        verify_snapshot_deleted(Ok(snapshot(SnapshotStatus::Deleted)), 0, &opts()),
        WaitStep::Finished(Ok(()))
    ));
    assert!(matches!(
        verify_snapshot_deleted(Ok(snapshot(SnapshotStatus::Complete)), 0, &opts()),
        WaitStep::PollAgain
    ));
}
