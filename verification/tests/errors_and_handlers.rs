use vultr_cli::error::VultrError;
use vultr_cli::handlers::{after_delete, collect_page, encode_user_data, filter_os, location_matches, region_filter, DeletionStep};
use vultr_cli::models::common::{Meta, Os, PaginationLinks};

#[test]
fn exit_codes_follow_the_readme_table() {
    assert_eq!(VultrError::AuthenticationRequired.exit_code(), 2);
    assert_eq!(VultrError::InvalidApiKey.exit_code(), 2);
    assert_eq!(VultrError::not_found("instance", "x").exit_code(), 3);
    assert_eq!(VultrError::RateLimited.exit_code(), 4);
    assert_eq!(VultrError::Timeout { seconds: 5 }.exit_code(), 5);
    assert_eq!(VultrError::Cancelled.exit_code(), 6);
    assert_eq!(VultrError::InvalidInput("x".to_string()).exit_code(), 7);
    assert_eq!(VultrError::api_error(503, "x").exit_code(), 10);
    assert_eq!(VultrError::api_error(404, "x").exit_code(), 11);
    assert_eq!(VultrError::api_error(302, "x").exit_code(), 1);
    assert_eq!(VultrError::NetworkError("x".to_string()).exit_code(), 1);
    assert_eq!(VultrError::ConfigError("x".to_string()).exit_code(), 1);
}

#[test]
fn api_error_and_not_found_hold_their_parts() {
    match VultrError::api_error(418, "teapot") {
        VultrError::ApiError { status, message } => {
            assert_eq!(status, 418);
            assert_eq!(message, "teapot");
        }
        other => panic!("unexpected {:?}", other),
    }
    match VultrError::not_found("snapshot", "s-9") {
        VultrError::NotFound { resource_type, id } => {
            assert_eq!(resource_type, "snapshot");
            assert_eq!(id, "s-9");
        }
        other => panic!("unexpected {:?}", other),
    }
}

fn os(id: i32, name: &str, arch: &str, family: Option<&str>) -> Os {
    Os { id, name: Some(name.to_string()), arch: Some(arch.to_string()), family: family.map(|f| f.to_string()) }
}

#[test]
fn os_filters() {
    let list = vec![
        os(1, "Ubuntu 22.04 LTS x64", "x64", Some("ubuntu")),
        os(2, "Debian 12 x64", "x64", Some("debian")),
        os(3, "Ubuntu 20.04 ARM", "arm64", Some("Ubuntu")),
        os(4, "Custom", "x64", None),
    ];
    let ids = |v: Vec<Os>| v.into_iter().map(|o| o.id).collect::<Vec<_>>();
    assert_eq!(ids(filter_os(list.clone(), None, None, None, None)), vec![1, 2, 3, 4]);
    assert_eq!(ids(filter_os(list.clone(), Some(2), None, None, None)), vec![2]);
    assert_eq!(ids(filter_os(list.clone(), None, Some("  UBUNTU "), None, None)), vec![1, 3]);
    assert_eq!(ids(filter_os(list.clone(), None, Some("ubuntu"), Some("x64"), None)), vec![1]);
    assert_eq!(ids(filter_os(list.clone(), None, None, None, Some("22.04"))), vec![1]);
    assert_eq!(ids(filter_os(list.clone(), None, None, None, Some("x64"))), vec![1, 2]);
    assert_eq!(ids(filter_os(list.clone(), None, Some("   "), None, None)), vec![1, 2, 3, 4]);
    assert_eq!(ids(filter_os(list, None, Some(""), Some("ARM64"), None)), vec![3]);
}

#[test]
fn plan_region_filter() {
    assert_eq!(region_filter(Some("  ewr ")), Some("ewr"));
    assert_eq!(region_filter(Some(" \t")), None);
    assert_eq!(region_filter(None), None);
    let locations = vec!["EWR".to_string(), "lax".to_string()];
    assert!(location_matches(&locations, "ewr"));
    assert!(location_matches(&locations, "LAX"));
    assert!(!location_matches(&locations, "ams"));
}

#[test]
fn pages_are_collected_in_order() {
    let mut all: Vec<i32> = vec![];
    let meta = Meta { total: None, links: Some(PaginationLinks { next: Some("c1".to_string()), prev: None }) };
    assert_eq!(collect_page(&mut all, vec![1, 2], meta), Some("c1".to_string()));
    assert_eq!(collect_page(&mut all, vec![3], Meta::default()), None);
    assert_eq!(all, vec![1, 2, 3]);
}

#[test]
fn deletion_is_checked_only_when_waiting() {
    assert!(matches!(after_delete(Ok(()), true), DeletionStep::Verify));
    assert!(matches!(after_delete(Ok(()), false), DeletionStep::Finish(Ok(()))));
    assert!(matches!(after_delete(Err(VultrError::Cancelled), true), DeletionStep::Finish(Err(VultrError::Cancelled))));
}

use vultr_cli::handlers::{effective_profile, file_reference};

#[test]
fn error_messages() {
    assert_eq!(VultrError::api_error(500, "boom").to_string(), "API error: 500 - boom");
    assert_eq!(VultrError::not_found("snapshot", "s-1").to_string(), "Resource not found: snapshot with id 's-1'");
    assert_eq!(VultrError::Timeout { seconds: 600 }.to_string(), "Operation timed out after 600 seconds");
    assert_eq!(VultrError::RateLimited.to_string(), "Rate limit exceeded. Please wait and try again.");
    assert_eq!(VultrError::InvalidInput("bad".to_string()).to_string(), "Invalid input: bad");
}

#[test]
fn profiles_and_file_references() {
    assert_eq!(effective_profile("default", "prod"), "prod");
    assert_eq!(effective_profile("default", "default"), "default");
    assert_eq!(effective_profile("staging", "prod"), "staging");
    assert_eq!(file_reference("@~/.ssh/id.pub"), Some("~/.ssh/id.pub"));
    assert_eq!(file_reference("ssh-rsa AAAA"), None);
    assert_eq!(file_reference("@"), Some(""));
}

#[test]
fn user_data_is_sent_in_standard_base64() {
    assert_eq!(encode_user_data(b"#!/bin/bash\necho hi\n"), "IyEvYmluL2Jhc2gKZWNobyBoaQo=");
    assert_eq!(encode_user_data(b""), "");
    assert_eq!(encode_user_data(&[0xfb, 0xff]), "+/8=");
}

/// Runs a deletion as the command handlers do: the delete request, then the deletion check
/// when the next step asks for it. Returns the result and whether the check ran.
fn run_deletion(deleted: Result<(), VultrError>, wait: bool) -> (Result<(), VultrError>, bool) {
    match after_delete(deleted, wait) {
        DeletionStep::Finish(r) => (r, false),
        DeletionStep::Verify => {
            let options = vultr_cli::api::wait::WaitOptions::default();
            let probe = Err(VultrError::not_found("bare metal server", "bm-123"));
            match vultr_cli::api::wait::verify_deleted(probe, 0, &options) {
                vultr_cli::api::wait::WaitStep::Finished(r) => (r, true),
                vultr_cli::api::wait::WaitStep::PollAgain => (Ok(()), true),
            }
        }
    }
}

#[test]
fn test_delete_bare_metal_wait_calls_wait_fn() {
    let (result, wait_called) = run_deletion(Ok(()), true);
    assert!(result.is_ok());
    assert!(wait_called);
}

#[test]
fn test_delete_bare_metal_no_wait_skips_wait_fn() {
    let (result, wait_called) = run_deletion(Ok(()), false);
    assert!(result.is_ok());
    assert!(!wait_called);
}

#[test]
fn an_empty_next_link_ends_paging() {
    let meta = |next: Option<&str>| Meta {
        total: None,
        links: Some(PaginationLinks { next: next.map(|s| s.to_string()), prev: Some(String::new()) }),
    };
    // Pages as the API serves them: the cursor of each page leads to the next one, and the
    // last page carries an empty `next`.
    let pages = vec![(None, vec![1, 2], meta(Some("p2"))), (Some("p2"), vec![3], meta(Some("p3"))), (Some("p3"), vec![4, 5], meta(Some("")))];
    let mut all: Vec<i32> = vec![];
    let mut cursor: Option<String> = None;
    let mut calls = 0;
    loop {
        let (expected_cursor, items, m) = pages[calls].clone();
        assert_eq!(cursor.as_deref(), expected_cursor);
        calls += 1;
        cursor = collect_page(&mut all, items, m);
        if cursor.is_none() {
            break;
        }
    }
    assert_eq!(calls, 3);
    assert_eq!(all, vec![1, 2, 3, 4, 5]);
}
