use vultr_cli::models::common::{Meta, PaginationLinks};
use vultr_cli::models::dns::UpdateDomainRequest;

#[test]
fn test_meta_default() {
    let meta = Meta::default();
    assert!(meta.total.is_none());
    assert!(meta.links.is_none());
}

#[test]
fn test_pagination_links_default() {
    let links = PaginationLinks::default();
    assert!(links.next.is_none());
    assert!(links.prev.is_none());
}


#[test]
fn test_update_domain_request_default() {
    let req = UpdateDomainRequest::default();
    assert!(req.dns_sec.is_none());
}
