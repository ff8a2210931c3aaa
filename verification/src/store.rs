//! A verified in-memory model of one physical object store.
//!
//! Real stores are per-cloud adapters behind a uniform get/put/head
//! capability; the core depends only on that shape.  This model implements
//! the capability over an in-memory object list with provider-reported
//! metadata, so the read path and the replication protocol can run
//! end-to-end against it, and the head-after-write round trip can be stated
//! exactly.  Every call is logged, so a driver can observe exactly which
//! physical-store calls the read path issued and in which order.

use vstd::prelude::*;

use crate::errors::ReadError;
use crate::splitter::copy_bytes;

verus! {

/// One object at rest in the store, with the metadata the store reports for
/// it.
#[derive(Debug)]
pub struct StoredObject {
    pub bucket: String,
    pub key: String,
    pub body: Vec<u8>,
    pub etag: String,
    pub last_modified: String,
    pub version_id: Option<String>,
}

/// One store call, as recorded in the call log.
#[derive(Clone, Copy, Debug, PartialEq, Eq, Structural)]
pub enum StoreOp {
    Get,
    Put,
    Head,
}

/// What a write reports back: the new copy's etag and, on versioned
/// backends, its physical version.
#[derive(Debug)]
pub struct StorePutOutput {
    pub etag: String,
    pub version_id: Option<String>,
}

/// What a head reports: the copy's size, etag, last-modified time and
/// physical version.
#[derive(Debug)]
pub struct StoreObjectMeta {
    pub size: u64,
    pub etag: String,
    pub last_modified: String,
    pub version_id: Option<String>,
}

/// The store model: its region tag, its objects (newest last), a logical
/// clock stamping provider-reported metadata, and the call log.
#[derive(Debug)]
pub struct MemoryStore {
    pub tag: String,
    pub objects: Vec<StoredObject>,
    pub stamp: u64,
    pub log: Vec<StoreOp>,
}

/// The character view of an optional string.
pub open spec fn opt_str_view(o: Option<String>) -> Option<Seq<char>> {
    match o {
        None => None,
        Some(s) => Some(s@),
    }
}

/// Whether a stored object answers a request: bucket and key must match; a
/// request without a version takes whatever version is current, one with a
/// version takes exactly that physical version.
pub open spec fn object_matches(
    o: StoredObject,
    bucket: Seq<char>,
    key: Seq<char>,
    version: Option<Seq<char>>,
) -> bool {
    o.bucket@ == bucket && o.key@ == key && (version is None || opt_str_view(o.version_id)
        == version)
}

/// The index of the newest object answering a request, if any.
pub open spec fn find_object(
    objects: Seq<StoredObject>,
    bucket: Seq<char>,
    key: Seq<char>,
    version: Option<Seq<char>>,
) -> Option<int>
    decreases objects.len(),
{
    if objects.len() == 0 {
        None
    } else if object_matches(objects.last(), bucket, key, version) {
        Some(objects.len() - 1)
    } else {
        find_object(objects.drop_last(), bucket, key, version)
    }
}

fn object_matches_exec(o: &StoredObject, bucket: &String, key: &String, version: &Option<
    String,
>) -> (r: bool)
    ensures
        r == object_matches(*o, bucket@, key@, opt_str_view(*version)),
{
    o.bucket == *bucket && o.key == *key && (match version {
        None => true,
        Some(v) => match &o.version_id {
            None => false,
            Some(ov) => *ov == *v,
        },
    })
}

impl MemoryStore {
    /// An empty store serving the region named by `tag`.
    pub fn new(tag: String) -> (s: MemoryStore)
        ensures
            s.tag == tag,
            s.objects@.len() == 0,
            s.log@.len() == 0,
    {
        MemoryStore { tag, objects: Vec::new(), stamp: 0, log: Vec::new() }
    }

    /// Read an object's body.  The call is logged; nothing else changes.
    /// Fails exactly when no stored object answers the request.
    pub fn get(&mut self, bucket: &String, key: &String, version_id: &Option<String>) -> (r:
        Result<Vec<u8>, ReadError>)
        ensures
            final(self).tag@ == old(self).tag@,
            final(self).objects@ == old(self).objects@,
            final(self).stamp == old(self).stamp,
            final(self).log@ == old(self).log@.push(StoreOp::Get),
            match find_object(old(self).objects@, bucket@, key@, opt_str_view(*version_id)) {
                None => r == Err::<Vec<u8>, ReadError>(ReadError::PhysicalStore),
                Some(i) => r matches Ok(body) && body@ == old(self).objects@[i].body@,
            },
    {
        self.log.push(StoreOp::Get);
        proof {
            assert(self.objects@.take(self.objects@.len() as int) =~= self.objects@);
        }
        let mut i: usize = self.objects.len();
        while i > 0
            invariant
                i <= self.objects@.len(),
                self.tag@ == old(self).tag@,
                self.objects@ == old(self).objects@,
                self.stamp == old(self).stamp,
                self.log@ == old(self).log@.push(StoreOp::Get),
                find_object(self.objects@, bucket@, key@, opt_str_view(*version_id))
                    == find_object(
                    self.objects@.take(i as int),
                    bucket@,
                    key@,
                    opt_str_view(*version_id),
                ),
            decreases i,
        {
            proof {
                assert(self.objects@.take(i as int).last() == self.objects@[i - 1]);
                assert(self.objects@.take(i as int).drop_last() =~= self.objects@.take(i - 1));
            }
            let idx = i - 1;
            if object_matches_exec(&self.objects[idx], bucket, key, version_id) {
                let body = copy_bytes(&self.objects[idx].body);
                return Ok(body);
            }
            i = idx;
        }
        proof {
            assert(self.objects@.take(0) =~= Seq::<StoredObject>::empty());
        }
        Err(ReadError::PhysicalStore)
    }

    /// Report an object's metadata without its body.  The call is logged;
    /// nothing else changes.  Fails exactly when no stored object answers
    /// the request.
    pub fn head(&mut self, bucket: &String, key: &String, version_id: &Option<String>) -> (r:
        Result<StoreObjectMeta, ReadError>)
        ensures
            final(self).tag@ == old(self).tag@,
            final(self).objects@ == old(self).objects@,
            final(self).stamp == old(self).stamp,
            final(self).log@ == old(self).log@.push(StoreOp::Head),
            match find_object(old(self).objects@, bucket@, key@, opt_str_view(*version_id)) {
                None => r == Err::<StoreObjectMeta, ReadError>(ReadError::PhysicalStore),
                Some(i) => r matches Ok(m) && ({
                    let o = old(self).objects@[i];
                    &&& m.size == o.body@.len()
                    &&& m.etag == o.etag
                    &&& m.last_modified == o.last_modified
                    &&& m.version_id == o.version_id
                }),
            },
    {
        self.log.push(StoreOp::Head);
        proof {
            assert(self.objects@.take(self.objects@.len() as int) =~= self.objects@);
        }
        let mut i: usize = self.objects.len();
        while i > 0
            invariant
                i <= self.objects@.len(),
                self.tag@ == old(self).tag@,
                self.objects@ == old(self).objects@,
                self.stamp == old(self).stamp,
                self.log@ == old(self).log@.push(StoreOp::Head),
                find_object(self.objects@, bucket@, key@, opt_str_view(*version_id))
                    == find_object(
                    self.objects@.take(i as int),
                    bucket@,
                    key@,
                    opt_str_view(*version_id),
                ),
            decreases i,
        {
            proof {
                assert(self.objects@.take(i as int).last() == self.objects@[i - 1]);
                assert(self.objects@.take(i as int).drop_last() =~= self.objects@.take(i - 1));
            }
            let idx = i - 1;
            if object_matches_exec(&self.objects[idx], bucket, key, version_id) {
                let o = &self.objects[idx];
                let meta = StoreObjectMeta {
                    size: o.body.len() as u64,
                    etag: o.etag.clone(),
                    last_modified: o.last_modified.clone(),
                    version_id: crate::models::clone_opt_string(&o.version_id),
                };
                return Ok(meta);
            }
            i = idx;
        }
        proof {
            assert(self.objects@.take(0) =~= Seq::<StoredObject>::empty());
        }
        Err(ReadError::PhysicalStore)
    }

    /// Write an object.  The new copy becomes the current one for its bucket
    /// and key; the store stamps it with provider-reported metadata and
    /// reports the etag back, as real backends do.  The call is logged.
    pub fn put(&mut self, bucket: &String, key: &String, body: Vec<u8>) -> (r: StorePutOutput)
        ensures
            final(self).tag@ == old(self).tag@,
            final(self).log@ == old(self).log@.push(StoreOp::Put),
            final(self).objects@.len() == old(self).objects@.len() + 1,
            forall|i: int|
                0 <= i < old(self).objects@.len() ==> final(self).objects@[i] == old(
                    self,
                ).objects@[i],
            ({
                let o = final(self).objects@.last();
                &&& o.bucket@ == bucket@
                &&& o.key@ == key@
                &&& o.body@ == body@
                &&& o.version_id is None
                &&& r.etag == o.etag
                &&& r.version_id == o.version_id
            }),
    {
        self.log.push(StoreOp::Put);
        let etag = self.stamp.to_string();
        let last_modified = self.stamp.to_string();
        self.stamp = if self.stamp < u64::MAX {
            self.stamp + 1
        } else {
            self.stamp
        };
        let obj = StoredObject {
            bucket: bucket.clone(),
            key: key.clone(),
            body,
            etag: etag.clone(),
            last_modified,
            version_id: None,
        };
        self.objects.push(obj);
        StorePutOutput { etag, version_id: None }
    }
}

} // verus!
