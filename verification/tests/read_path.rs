use skystore::api::endpoint_url;
use skystore::api::is_success_status;
use skystore::errors::DirectoryError;
use skystore::errors::ReadError;
use skystore::models::LocateObjectResponse;
use skystore::read_path::finish_read;
use skystore::read_path::parse_version_id;
use skystore::read_path::pull_through_read;
use skystore::read_path::read_metrics;
use skystore::read_path::route_read;
use skystore::read_path::store_get_request;
use skystore::read_path::LogicalObjectRef;
use skystore::read_path::ReadRoute;
use skystore::splitter::copy_bytes;
use skystore::splitter::split_buffer;

fn locator(tag: &str) -> LocateObjectResponse {
    LocateObjectResponse::new(
        1,
        tag.to_string(),
        "aws".to_string(),
        "phys-bucket".to_string(),
        "region".to_string(),
        "phys-key".to_string(),
    )
}

#[test]
fn route_missing_object_is_not_found() {
    let r = route_read(None, true, &"aws:us-east-1".to_string());
    assert!(matches!(r, ReadRoute::NotFound));
    let r = route_read(None, false, &"aws:us-east-1".to_string());
    assert!(matches!(r, ReadRoute::NotFound));
}

#[test]
fn route_local_copy_is_direct_whatever_the_flag() {
    for pull in [false, true] {
        let r = route_read(Some(locator("east")), pull, &"east".to_string());
        match r {
            ReadRoute::Direct { locator } => assert_eq!(locator.tag, "east"),
            _ => panic!("expected a straight-through read"),
        }
    }
}

#[test]
fn route_remote_copy_without_pull_is_direct() {
    let r = route_read(Some(locator("west")), false, &"east".to_string());
    assert!(matches!(r, ReadRoute::Direct { .. }));
}

#[test]
fn route_remote_copy_with_pull_is_pull_through() {
    let r = route_read(Some(locator("west")), true, &"east".to_string());
    match r {
        ReadRoute::PullThrough { locator } => assert_eq!(locator.tag, "west"),
        _ => panic!("expected a pull-through read"),
    }
}

#[test]
fn store_get_request_addresses_the_physical_copy() {
    let mut l = locator("west");
    l.version_id = Some("pv-1".to_string());
    let r = store_get_request(&l);
    assert_eq!(r.tag, "west");
    assert_eq!(r.bucket, "phys-bucket");
    assert_eq!(r.key, "phys-key");
    assert_eq!(r.version_id.as_deref(), Some("pv-1"));
}

#[test]
fn finish_read_keeps_body_and_rewrites_version() {
    let r = finish_read(vec![1, 2, 3], Some(42));
    assert_eq!(r.body, vec![1, 2, 3]);
    assert_eq!(r.content_length, 3);
    assert_eq!(r.version_id, Some(42));
}

#[test]
fn pull_through_read_returns_body_and_one_job() {
    let logical = LogicalObjectRef {
        bucket: "b".to_string(),
        key: "k".to_string(),
        version: Some(5),
    };
    let body = vec![10u8, 20, 30, 40];
    let (resp, job) = pull_through_read(body.clone(), logical, &"east".to_string());
    assert_eq!(resp.body, body);
    assert_eq!(resp.content_length, 4);
    assert_eq!(resp.version_id, Some(5));
    assert_eq!(job.body, body);
    assert_eq!(job.logical.bucket, "b");
    assert_eq!(job.logical.key, "k");
    assert_eq!(job.logical.version, Some(5));
    assert_eq!(job.local_tag, "east");
}

#[test]
fn split_buffer_hands_out_independent_copies() {
    let data = vec![1u8, 2, 3];
    let copies = split_buffer(data.clone(), 3);
    assert_eq!(copies.len(), 3);
    for c in &copies {
        assert_eq!(c, &data);
    }
}

#[test]
fn split_buffer_of_empty_body() {
    let copies = split_buffer(Vec::new(), 2);
    assert_eq!(copies.len(), 2);
    assert!(copies[0].is_empty());
    assert!(copies[1].is_empty());
}

#[test]
fn split_buffer_zero_consumers() {
    let copies = split_buffer(vec![9u8], 0);
    assert!(copies.is_empty());
}

#[test]
fn copy_bytes_copies_exactly() {
    let src = vec![0u8, 255, 7];
    assert_eq!(copy_bytes(&src), src);
}

#[test]
fn parse_version_id_accepts_decimal() {
    assert_eq!(parse_version_id(b"0"), Some(0));
    assert_eq!(parse_version_id(b"123"), Some(123));
    assert_eq!(parse_version_id(b"007"), Some(7));
    assert_eq!(parse_version_id(b"2147483647"), Some(i32::MAX));
}

#[test]
fn parse_version_id_rejects_junk() {
    assert_eq!(parse_version_id(b""), None);
    assert_eq!(parse_version_id(b"12a"), None);
    assert_eq!(parse_version_id(b"-1"), None);
    assert_eq!(parse_version_id(b" 1"), None);
    assert_eq!(parse_version_id(b"2147483648"), None);
    assert_eq!(parse_version_id(b"99999999999999999999"), None);
}

#[test]
fn read_metrics_records_a_get() {
    let m = read_metrics("0.001,0.002".to_string(), "k".to_string(), 17);
    assert_eq!(m.latency, "0.001,0.002");
    assert_eq!(m.key, "k");
    assert_eq!(m.size, 17);
    assert_eq!(m.op, "GET");
}

#[test]
fn not_found_maps_to_no_such_key() {
    assert_eq!(ReadError::NotFound.code(), "NoSuchKey");
}

#[test]
fn directory_errors_map_to_backend_classes() {
    assert!(matches!(
        ReadError::from_directory(DirectoryError::Unavailable),
        ReadError::DirectoryUnavailable
    ));
    assert!(matches!(
        ReadError::from_directory(DirectoryError::Protocol),
        ReadError::DirectoryProtocol
    ));
    assert!(matches!(
        ReadError::from_directory(DirectoryError::Rejected),
        ReadError::DirectoryProtocol
    ));
}

#[test]
fn endpoint_url_joins_base_and_operation() {
    assert_eq!(
        endpoint_url("http://directory:3000", "/locate_object"),
        "http://directory:3000/locate_object"
    );
    assert_eq!(endpoint_url("", "/healthz"), "/healthz");
}

#[test]
fn success_status_excludes_client_and_server_errors() {
    assert!(is_success_status(200));
    assert!(is_success_status(204));
    assert!(is_success_status(399));
    assert!(!is_success_status(400));
    assert!(!is_success_status(404));
    assert!(!is_success_status(422));
    assert!(!is_success_status(500));
    assert!(!is_success_status(599));
    assert!(is_success_status(600));
}
