//! Wire models of the directory service.
//!
//! These are the request and response records exchanged with the directory
//! over its RPC interface.  `LocateObjectResponse` doubles as the physical
//! locator: the record that points at one concrete copy of an object in one
//! cloud region and, once that copy is committed, carries its provider-reported
//! integrity metadata.

use vstd::prelude::*;

verus! {

/// One entry of a multipart upload: the part number and the etag the physical
/// store reported for it.
#[derive(Debug)]
pub struct ContinueUploadPhysicalPart {
    pub part_number: i32,
    pub etag: String,
}

impl ContinueUploadPhysicalPart {
    pub fn new(part_number: i32, etag: String) -> (r: ContinueUploadPhysicalPart)
        ensures
            r.part_number == part_number,
            r.etag == etag,
    {
        ContinueUploadPhysicalPart { part_number, etag }
    }
}

/// A physical bucket locator: where one copy of a logical bucket lives.
#[derive(Debug)]
pub struct LocateBucketResponse {
    pub id: i32,
    pub tag: String,
    pub cloud: String,
    pub bucket: String,
    pub region: String,
}

/// Reply to a bucket-creation reservation: the physical buckets reserved.
#[derive(Debug)]
pub struct CreateBucketResponse {
    pub locators: Vec<LocateBucketResponse>,
}

impl CreateBucketResponse {
    pub fn new(locators: Vec<LocateBucketResponse>) -> (r: CreateBucketResponse)
        ensures
            r.locators == locators,
    {
        CreateBucketResponse { locators }
    }
}

/// Reply to a bucket-deletion request: the physical buckets to remove.
#[derive(Debug)]
pub struct DeleteBucketResponse {
    pub locators: Vec<LocateBucketResponse>,
}

impl DeleteBucketResponse {
    pub fn new(locators: Vec<LocateBucketResponse>) -> (r: DeleteBucketResponse)
        ensures
            r.locators == locators,
    {
        DeleteBucketResponse { locators }
    }
}

/// Reply to an object-deletion request: the physical copies to remove.
#[derive(Debug)]
pub struct DeleteObjectResponse {
    pub locators: Vec<LocateObjectResponse>,
}

impl DeleteObjectResponse {
    pub fn new(locators: Vec<LocateObjectResponse>) -> (r: DeleteObjectResponse)
        ensures
            r.locators == locators,
    {
        DeleteObjectResponse { locators }
    }
}

/// Request to list the parts of one multipart upload.
#[derive(Debug)]
pub struct ListPartsRequest {
    pub bucket: String,
    pub key: String,
    pub upload_id: String,
    pub part_number: Option<i32>,
}

impl ListPartsRequest {
    pub fn new(bucket: String, key: String, upload_id: String) -> (r: ListPartsRequest)
        ensures
            r.bucket == bucket,
            r.key == key,
            r.upload_id == upload_id,
            r.part_number is None,
    {
        ListPartsRequest { bucket, key, upload_id, part_number: None }
    }
}

/// A physical object locator: exactly where one copy of an object lives.
///
/// `id` is the directory's primary key for this copy and the handle used to
/// commit it.  `tag` names the region/provider holding the copy.  Once the
/// copy is committed, `size`, `last_modified` and `etag` carry the metadata
/// the physical store reported, and `version_id` the store's own version of
/// the copy.
#[derive(Debug)]
pub struct LocateObjectResponse {
    pub id: i32,
    pub tag: String,
    pub cloud: String,
    pub bucket: String,
    pub region: String,
    pub key: String,
    pub size: Option<u64>,
    pub last_modified: Option<String>,
    pub etag: Option<String>,
    pub version_id: Option<String>,
}

impl LocateObjectResponse {
    pub fn new(
        id: i32,
        tag: String,
        cloud: String,
        bucket: String,
        region: String,
        key: String,
    ) -> (r: LocateObjectResponse)
        ensures
            r.id == id,
            r.tag == tag,
            r.cloud == cloud,
            r.bucket == bucket,
            r.region == region,
            r.key == key,
            r.size is None,
            r.last_modified is None,
            r.etag is None,
            r.version_id is None,
    {
        LocateObjectResponse {
            id,
            tag,
            cloud,
            bucket,
            region,
            key,
            size: None,
            last_modified: None,
            etag: None,
            version_id: None,
        }
    }
}

impl Clone for LocateObjectResponse {
    fn clone(&self) -> (r: Self)
        ensures
            r == *self,
    {
        LocateObjectResponse {
            id: self.id,
            tag: self.tag.clone(),
            cloud: self.cloud.clone(),
            bucket: self.bucket.clone(),
            region: self.region.clone(),
            key: self.key.clone(),
            size: clone_opt_u64(&self.size),
            last_modified: clone_opt_string(&self.last_modified),
            etag: clone_opt_string(&self.etag),
            version_id: clone_opt_string(&self.version_id),
        }
    }
}

/// One multipart upload in progress, as the directory lists it.
#[derive(Debug)]
pub struct MultipartResponse {
    pub bucket: String,
    pub key: String,
    pub upload_id: String,
}

impl MultipartResponse {
    pub fn new(bucket: String, key: String, upload_id: String) -> (r: MultipartResponse)
        ensures
            r.bucket == bucket,
            r.key == key,
            r.upload_id == upload_id,
    {
        MultipartResponse { bucket, key, upload_id }
    }
}

/// Lifecycle state of a physical copy: reserved but not yet written, or
/// written, verified and committed.
#[derive(Clone, Copy, Debug, PartialEq, Eq, Structural)]
pub enum Status {
    Pending,
    Ready,
}

/// The directory's answer to an object existence check.
#[derive(Debug)]
pub struct ObjectStatus {
    pub status: Status,
}

impl ObjectStatus {
    pub fn new(status: Status) -> (r: ObjectStatus)
        ensures
            r.status == status,
    {
        ObjectStatus { status }
    }
}

/// One physical location the directory may place copies in: a named
/// region/provider with its backing bucket.
#[derive(Debug)]
pub struct PhysicalLocation {
    pub name: String,
    pub cloud: String,
    pub region: String,
    pub bucket: String,
    pub prefix: Option<String>,
    pub is_primary: Option<bool>,
    pub need_warmup: Option<bool>,
}

impl PhysicalLocation {
    pub fn new(name: String, cloud: String, region: String, bucket: String) -> (r:
        PhysicalLocation)
        ensures
            r.name == name,
            r.cloud == cloud,
            r.region == region,
            r.bucket == bucket,
            r.prefix is None,
            r.is_primary is None,
            r.need_warmup is None,
    {
        PhysicalLocation {
            name,
            cloud,
            region,
            bucket,
            prefix: None,
            is_primary: None,
            need_warmup: None,
        }
    }
}

impl Clone for PhysicalLocation {
    fn clone(&self) -> (r: Self)
        ensures
            r == *self,
    {
        PhysicalLocation {
            name: self.name.clone(),
            cloud: self.cloud.clone(),
            region: self.region.clone(),
            bucket: self.bucket.clone(),
            prefix: clone_opt_string(&self.prefix),
            is_primary: clone_opt_bool(&self.is_primary),
            need_warmup: clone_opt_bool(&self.need_warmup),
        }
    }
}

/// Reservation request: the reserve phase of the two-phase upload protocol,
/// keyed by the logical (bucket, key, version) identity of the object.
#[derive(Debug)]
pub struct StartUploadRequest {
    pub bucket: String,
    pub key: String,
    pub client_from_region: String,
    pub version_id: Option<i32>,
    pub is_multipart: bool,
    pub copy_src_bucket: Option<String>,
    pub copy_src_key: Option<String>,
}

/// Reservation reply: one pending locator per physical target.
#[derive(Debug)]
pub struct StartUploadResponse {
    pub locators: Vec<LocateObjectResponse>,
}

/// Commit request: the verified metadata of one written physical copy,
/// transitioning its locator from pending to ready.
#[derive(Debug)]
pub struct PatchUploadIsCompleted {
    pub id: i32,
    pub size: u64,
    pub etag: String,
    pub last_modified: String,
    pub version_id: Option<String>,
}

pub(crate) fn clone_opt_string(o: &Option<String>) -> (r: Option<String>)
    ensures
        r == *o,
{
    match o {
        None => None,
        Some(s) => Some(s.clone()),
    }
}

pub(crate) fn clone_opt_u64(o: &Option<u64>) -> (r: Option<u64>)
    ensures
        r == *o,
{
    match o {
        None => None,
        Some(n) => Some(*n),
    }
}

pub(crate) fn clone_opt_bool(o: &Option<bool>) -> (r: Option<bool>)
    ensures
        r == *o,
{
    match o {
        None => None,
        Some(b) => Some(*b),
    }
}

} // verus!
