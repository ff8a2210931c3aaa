use skystore::models::ContinueUploadPhysicalPart;
use skystore::models::CreateBucketResponse;
use skystore::models::DeleteBucketResponse;
use skystore::models::DeleteObjectResponse;
use skystore::models::ListPartsRequest;
use skystore::models::LocateBucketResponse;
use skystore::models::LocateObjectResponse;
use skystore::models::MultipartResponse;
use skystore::models::ObjectStatus;
use skystore::models::PhysicalLocation;
use skystore::models::Status;

#[test]
fn continue_upload_physical_part_new_keeps_fields() {
    let p = ContinueUploadPhysicalPart::new(3, "etag-3".to_string());
    assert_eq!(p.part_number, 3);
    assert_eq!(p.etag, "etag-3");
}

#[test]
fn create_bucket_response_new_keeps_locators() {
    let l = LocateBucketResponse {
        id: 1,
        tag: "aws:us-east-1".to_string(),
        cloud: "aws".to_string(),
        bucket: "b".to_string(),
        region: "us-east-1".to_string(),
    };
    let r = CreateBucketResponse::new(vec![l]);
    assert_eq!(r.locators.len(), 1);
    assert_eq!(r.locators[0].id, 1);
    assert_eq!(r.locators[0].tag, "aws:us-east-1");
}

#[test]
fn delete_bucket_response_new_keeps_locators() {
    let r = DeleteBucketResponse::new(vec![]);
    assert_eq!(r.locators.len(), 0);
}

#[test]
fn delete_object_response_new_keeps_locators() {
    let l = LocateObjectResponse::new(
        9,
        "gcp:us-west1".to_string(),
        "gcp".to_string(),
        "bucket".to_string(),
        "us-west1".to_string(),
        "key".to_string(),
    );
    let r = DeleteObjectResponse::new(vec![l]);
    assert_eq!(r.locators.len(), 1);
    assert_eq!(r.locators[0].id, 9);
}

#[test]
fn list_parts_request_new_leaves_part_number_empty() {
    let r = ListPartsRequest::new("b".to_string(), "k".to_string(), "up-1".to_string());
    assert_eq!(r.bucket, "b");
    assert_eq!(r.key, "k");
    assert_eq!(r.upload_id, "up-1");
    assert!(r.part_number.is_none());
}

#[test]
fn locate_object_response_new_leaves_metadata_empty() {
    let r = LocateObjectResponse::new(
        7,
        "azure:westus2".to_string(),
        "azure".to_string(),
        "phys-bucket".to_string(),
        "westus2".to_string(),
        "phys-key".to_string(),
    );
    assert_eq!(r.id, 7);
    assert_eq!(r.tag, "azure:westus2");
    assert_eq!(r.cloud, "azure");
    assert_eq!(r.bucket, "phys-bucket");
    assert_eq!(r.region, "westus2");
    assert_eq!(r.key, "phys-key");
    assert!(r.size.is_none());
    assert!(r.last_modified.is_none());
    assert!(r.etag.is_none());
    assert!(r.version_id.is_none());
}

#[test]
fn locate_object_response_clone_is_deep() {
    let mut r = LocateObjectResponse::new(
        7,
        "t".to_string(),
        "c".to_string(),
        "b".to_string(),
        "r".to_string(),
        "k".to_string(),
    );
    r.size = Some(12);
    r.etag = Some("e".to_string());
    let c = r.clone();
    assert_eq!(c.id, 7);
    assert_eq!(c.size, Some(12));
    assert_eq!(c.etag.as_deref(), Some("e"));
    assert_eq!(c.key, "k");
}

#[test]
fn multipart_response_new_keeps_fields() {
    let r = MultipartResponse::new("b".to_string(), "k".to_string(), "u".to_string());
    assert_eq!(r.bucket, "b");
    assert_eq!(r.key, "k");
    assert_eq!(r.upload_id, "u");
}

#[test]
fn object_status_new_keeps_status() {
    let r = ObjectStatus::new(Status::Pending);
    assert!(matches!(r.status, Status::Pending));
    let r = ObjectStatus::new(Status::Ready);
    assert!(matches!(r.status, Status::Ready));
}

#[test]
fn physical_location_new_leaves_flags_empty() {
    let r = PhysicalLocation::new(
        "aws:us-east-1".to_string(),
        "aws".to_string(),
        "us-east-1".to_string(),
        "backing".to_string(),
    );
    assert_eq!(r.name, "aws:us-east-1");
    assert_eq!(r.cloud, "aws");
    assert_eq!(r.region, "us-east-1");
    assert_eq!(r.bucket, "backing");
    assert!(r.prefix.is_none());
    assert!(r.is_primary.is_none());
    assert!(r.need_warmup.is_none());
}
