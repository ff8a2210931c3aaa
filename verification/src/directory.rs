//! A verified in-memory model of the directory service.
//!
//! The real directory is an outside collaborator reached over RPC; the core
//! relies on exactly three of its promises: a resolve is side-effect-free
//! and definitive, a reservation is accepted at most once per logical
//! identity, and a commit turns one pending locator ready exactly once,
//! recording the verified metadata.  This model states those promises as
//! contracts and proves an implementation of them, so the protocol logic can
//! be exercised end-to-end against it and the promises themselves can be
//! stated as lemmas.  It also records every reservation and commit call it
//! receives, so a driver can observe exactly which calls the read path
//! issued.

use vstd::prelude::*;

use crate::errors::DirectoryError;
use crate::models::clone_opt_string;
use crate::models::LocateObjectResponse;
use crate::models::ObjectStatus;
use crate::models::PatchUploadIsCompleted;
use crate::models::PhysicalLocation;
use crate::models::StartUploadRequest;
use crate::models::StartUploadResponse;
use crate::models::Status;
use vstd::pervasive::VecAdditionalExecFns;

verus! {

/// One directory record: a physical locator bound to the logical identity it
/// is a copy of, in pending or ready state.
#[derive(Debug)]
pub struct DirEntry {
    pub bucket: String,
    pub key: String,
    pub version: Option<i32>,
    pub locator: LocateObjectResponse,
    pub status: Status,
}

/// One recorded reservation call: the logical identity asked for and whether
/// the directory accepted it.
#[derive(Debug)]
pub struct UploadCallRecord {
    pub bucket: String,
    pub key: String,
    pub version: Option<i32>,
    pub accepted: bool,
}

/// The directory model: its records, the physical locations it places new
/// copies in, a fresh-id counter, and a log of every reservation and commit
/// call received.
#[derive(Debug)]
pub struct DirectoryService {
    pub upload_targets: Vec<PhysicalLocation>,
    pub entries: Vec<DirEntry>,
    pub next_id: i32,
    pub upload_log: Vec<UploadCallRecord>,
    pub complete_calls: Vec<i32>,
}

/// Whether an entry is a copy of the given logical identity.  Version
/// selection is exact: `None` addresses only the unversioned current copy,
/// never falls back to some other version.
pub open spec fn entry_matches(
    e: DirEntry,
    bucket: Seq<char>,
    key: Seq<char>,
    version: Option<i32>,
) -> bool {
    e.bucket@ == bucket && e.key@ == key && e.version == version
}

/// Whether a record — pending or ready — exists for the logical identity
/// with its copy placed in the given region.
pub open spec fn has_copy_in_region(
    entries: Seq<DirEntry>,
    bucket: Seq<char>,
    key: Seq<char>,
    version: Option<i32>,
    region: Seq<char>,
) -> bool {
    exists|i: int|
        0 <= i < entries.len() && entry_matches(#[trigger] entries[i], bucket, key, version)
            && entries[i].locator.tag@ == region
}

/// Whether a tag names one of the directory's placement targets.
pub open spec fn tag_among_targets(targets: Seq<PhysicalLocation>, tag: Seq<char>) -> bool {
    exists|t: int| 0 <= t < targets.len() && #[trigger] targets[t].name@ == tag
}

/// Whether an entry blocks a reservation for the logical identity asked
/// from `region`: it is a copy of that identity — pending or ready — held
/// either in the requesting region itself or at one of the placement
/// targets a reservation would reserve.  A committed copy in some other,
/// non-target region does not block: it is exactly what a pull-through
/// read exists to replicate from.
pub open spec fn entry_blocks_upload(
    e: DirEntry,
    bucket: Seq<char>,
    key: Seq<char>,
    version: Option<i32>,
    region: Seq<char>,
    targets: Seq<PhysicalLocation>,
) -> bool {
    entry_matches(e, bucket, key, version) && (e.locator.tag@ == region || tag_among_targets(
        targets,
        e.locator.tag@,
    ))
}

/// The directory accepts a reservation exactly when no existing record
/// blocks it: this is the single deduplication point for concurrent
/// pull-through reads, and the mechanism behind at-most-one-write per
/// logical identity and target.
pub open spec fn accepts_upload(
    d: DirectoryService,
    bucket: Seq<char>,
    key: Seq<char>,
    version: Option<i32>,
    region: Seq<char>,
) -> bool {
    !exists|i: int|
        0 <= i < d.entries@.len() && entry_blocks_upload(
            #[trigger] d.entries@[i],
            bucket,
            key,
            version,
            region,
            d.upload_targets@,
        )
}

/// The first ready copy of the logical identity, if any.  Pending copies are
/// not readable and are never resolved.
pub open spec fn find_ready(
    entries: Seq<DirEntry>,
    bucket: Seq<char>,
    key: Seq<char>,
    version: Option<i32>,
) -> Option<LocateObjectResponse>
    decreases entries.len(),
{
    if entries.len() == 0 {
        None
    } else if entry_matches(entries[0], bucket, key, version) && entries[0].status is Ready {
        Some(entries[0].locator)
    } else {
        find_ready(entries.drop_first(), bucket, key, version)
    }
}

/// The lifecycle state of the first record for the logical identity, if
/// any: what an existence check reports.
pub open spec fn find_status(
    entries: Seq<DirEntry>,
    bucket: Seq<char>,
    key: Seq<char>,
    version: Option<i32>,
) -> Option<Status>
    decreases entries.len(),
{
    if entries.len() == 0 {
        None
    } else if entry_matches(entries[0], bucket, key, version) {
        Some(entries[0].status)
    } else {
        find_status(entries.drop_first(), bucket, key, version)
    }
}

/// The index of the first pending entry whose locator has the given id, if
/// any.
pub open spec fn find_pending(entries: Seq<DirEntry>, id: i32) -> Option<int>
    decreases entries.len(),
{
    if entries.len() == 0 {
        None
    } else if entries[0].locator.id == id && entries[0].status is Pending {
        Some(0int)
    } else {
        match find_pending(entries.drop_first(), id) {
            None => None,
            Some(j) => Some(j + 1),
        }
    }
}

/// Well-formedness: the fresh-id counter is non-negative, locator ids are
/// unique, and every issued id lies below the counter.
pub open spec fn dir_wf(d: DirectoryService) -> bool {
    &&& 0 <= d.next_id
    &&& forall|i: int|
        0 <= i < d.entries@.len() ==> #[trigger] d.entries@[i].locator.id < d.next_id
    &&& forall|i: int, j: int|
        #![trigger d.entries@[i], d.entries@[j]]
        0 <= i < j < d.entries@.len() ==> d.entries@[i].locator.id != d.entries@[j].locator.id
}

fn opt_i32_eq(a: Option<i32>, b: Option<i32>) -> (r: bool)
    ensures
        r == (a == b),
{
    match (a, b) {
        (None, None) => true,
        (Some(x), Some(y)) => x == y,
        _ => false,
    }
}

fn entry_matches_exec(e: &DirEntry, bucket: &String, key: &String, version: Option<i32>) -> (r:
    bool)
    ensures
        r == entry_matches(*e, bucket@, key@, version),
{
    e.bucket == *bucket && e.key == *key && opt_i32_eq(e.version, version)
}

fn tag_among_targets_exec(targets: &Vec<PhysicalLocation>, tag: &String) -> (r: bool)
    ensures
        r == tag_among_targets(targets@, tag@),
{
    let mut i: usize = 0;
    while i < targets.len()
        invariant
            i <= targets@.len(),
            forall|j: int| 0 <= j < i ==> #[trigger] targets@[j].name@ != tag@,
        decreases targets@.len() - i,
    {
        if targets[i].name == *tag {
            assert(targets@[i as int].name@ == tag@);
            return true;
        }
        i = i + 1;
    }
    false
}

fn blocking_entry_exists(
    entries: &Vec<DirEntry>,
    bucket: &String,
    key: &String,
    version: Option<i32>,
    region: &String,
    targets: &Vec<PhysicalLocation>,
) -> (r: bool)
    ensures
        r == exists|i: int|
            0 <= i < entries@.len() && entry_blocks_upload(
                #[trigger] entries@[i],
                bucket@,
                key@,
                version,
                region@,
                targets@,
            ),
{
    let mut i: usize = 0;
    while i < entries.len()
        invariant
            i <= entries@.len(),
            forall|j: int|
                0 <= j < i ==> !entry_blocks_upload(
                    #[trigger] entries@[j],
                    bucket@,
                    key@,
                    version,
                    region@,
                    targets@,
                ),
        decreases entries@.len() - i,
    {
        let e = &entries[i];
        if entry_matches_exec(e, bucket, key, version) && (e.locator.tag == *region
            || tag_among_targets_exec(targets, &e.locator.tag)) {
            assert(entry_blocks_upload(
                entries@[i as int],
                bucket@,
                key@,
                version,
                region@,
                targets@,
            ));
            return true;
        }
        i = i + 1;
    }
    false
}

impl DirectoryService {
    /// A fresh directory that will place new copies in the given physical
    /// locations, one reserved locator per location.
    pub fn new(upload_targets: Vec<PhysicalLocation>) -> (d: DirectoryService)
        ensures
            d.upload_targets == upload_targets,
            d.entries@.len() == 0,
            d.upload_log@.len() == 0,
            d.complete_calls@.len() == 0,
            d.next_id == 1,
            dir_wf(d),
    {
        DirectoryService {
            upload_targets,
            entries: Vec::new(),
            next_id: 1,
            upload_log: Vec::new(),
            complete_calls: Vec::new(),
        }
    }

    /// Register one already committed copy, as a write path would have left
    /// it: a ready record under a fresh id.  The given locator's own id is
    /// replaced by the issued one.
    pub fn seed_ready(
        &mut self,
        bucket: String,
        key: String,
        version: Option<i32>,
        locator: LocateObjectResponse,
    )
        requires
            dir_wf(*old(self)),
            old(self).next_id < i32::MAX,
        ensures
            dir_wf(*final(self)),
            final(self).upload_targets@ == old(self).upload_targets@,
            final(self).upload_log@ == old(self).upload_log@,
            final(self).complete_calls@ == old(self).complete_calls@,
            final(self).next_id == old(self).next_id + 1,
            final(self).entries@.len() == old(self).entries@.len() + 1,
            forall|i: int|
                0 <= i < old(self).entries@.len() ==> final(self).entries@[i] == old(self).entries@[i],
            ({
                let e = final(self).entries@.last();
                &&& e.bucket == bucket
                &&& e.key == key
                &&& e.version == version
                &&& e.status is Ready
                &&& e.locator == (LocateObjectResponse { id: old(self).next_id, ..locator })
            }),
    {
        let id = self.next_id;
        let entry = DirEntry {
            bucket,
            key,
            version,
            locator: LocateObjectResponse { id, ..locator },
            status: Status::Ready,
        };
        self.entries.push(entry);
        self.next_id = id + 1;
    }

    /// Resolve a logical reference to its ready physical copy, or to `None`
    /// if the directory holds none: definitive absence, not a fault.  A
    /// resolve mutates nothing.
    pub fn locate_object(&self, bucket: &String, key: &String, version: Option<i32>) -> (r: Option<
        LocateObjectResponse,
    >)
        ensures
            r == find_ready(self.entries@, bucket@, key@, version),
    {
        proof {
            assert(self.entries@.skip(0) =~= self.entries@);
        }
        let mut i: usize = 0;
        while i < self.entries.len()
            invariant
                i <= self.entries@.len(),
                find_ready(self.entries@, bucket@, key@, version) == find_ready(
                    self.entries@.skip(i as int),
                    bucket@,
                    key@,
                    version,
                ),
            decreases self.entries@.len() - i,
        {
            proof {
                assert(self.entries@.skip(i as int)[0] == self.entries@[i as int]);
                assert(self.entries@.skip(i as int).drop_first() =~= self.entries@.skip(i + 1));
            }
            let e = &self.entries[i];
            if entry_matches_exec(e, bucket, key, version) && e.status == Status::Ready {
                return Some(e.locator.clone());
            }
            i = i + 1;
        }
        proof {
            assert(self.entries@.skip(i as int) =~= Seq::<DirEntry>::empty());
        }
        None
    }

    /// Existence check: the lifecycle state of the object's first record,
    /// pending or ready, or `None` when the directory holds no record at
    /// all.  Like a resolve, it mutates nothing.
    pub fn head_object(&self, bucket: &String, key: &String, version: Option<i32>) -> (r: Option<
        ObjectStatus,
    >)
        ensures
            match find_status(self.entries@, bucket@, key@, version) {
                None => r is None,
                Some(s) => r matches Some(os) && os.status == s,
            },
    {
        proof {
            assert(self.entries@.skip(0) =~= self.entries@);
        }
        let mut i: usize = 0;
        while i < self.entries.len()
            invariant
                i <= self.entries@.len(),
                find_status(self.entries@, bucket@, key@, version) == find_status(
                    self.entries@.skip(i as int),
                    bucket@,
                    key@,
                    version,
                ),
            decreases self.entries@.len() - i,
        {
            proof {
                assert(self.entries@.skip(i as int)[0] == self.entries@[i as int]);
                assert(self.entries@.skip(i as int).drop_first() =~= self.entries@.skip(i + 1));
            }
            let e = &self.entries[i];
            if entry_matches_exec(e, bucket, key, version) {
                return Some(ObjectStatus::new(e.status));
            }
            i = i + 1;
        }
        proof {
            assert(self.entries@.skip(i as int) =~= Seq::<DirEntry>::empty());
        }
        None
    }

    /// The reserve phase of the two-phase upload protocol.
    ///
    /// The call is recorded.  If a record for the logical identity already
    /// exists in the requesting region or at any placement target — pending
    /// or ready — the reservation is rejected and nothing changes:
    /// concurrent readers racing on the same object race harmlessly,
    /// because at most one of them ever observes an accepted reservation.
    /// Otherwise one pending locator per upload target is created
    /// atomically, under fresh ids, and returned; from then on every
    /// further reservation for this identity, from any region, is refused.
    pub fn start_upload(&mut self, req: &StartUploadRequest) -> (r: Result<
        StartUploadResponse,
        DirectoryError,
    >)
        requires
            dir_wf(*old(self)),
            old(self).next_id + old(self).upload_targets@.len() < i32::MAX,
        ensures
            dir_wf(*final(self)),
            final(self).upload_targets@ == old(self).upload_targets@,
            final(self).complete_calls@ == old(self).complete_calls@,
            final(self).upload_log@ == old(self).upload_log@.push(
                UploadCallRecord {
                    bucket: req.bucket,
                    key: req.key,
                    version: req.version_id,
                    accepted: accepts_upload(
                        *old(self),
                        req.bucket@,
                        req.key@,
                        req.version_id,
                        req.client_from_region@,
                    ),
                },
            ),
            r is Ok <==> accepts_upload(
                *old(self),
                req.bucket@,
                req.key@,
                req.version_id,
                req.client_from_region@,
            ),
            r is Err ==> r == Err::<StartUploadResponse, DirectoryError>(DirectoryError::Rejected)
                && final(self).entries@ == old(self).entries@ && final(self).next_id == old(self).next_id,
            r matches Ok(resp) ==> {
                &&& resp.locators@.len() == old(self).upload_targets@.len()
                &&& final(self).entries@.len() == old(self).entries@.len()
                    + resp.locators@.len()
                &&& final(self).next_id == old(self).next_id + resp.locators@.len()
                &&& forall|i: int|
                    0 <= i < old(self).entries@.len() ==> final(self).entries@[i] == old(self).entries@[i]
                &&& forall|i: int|
                    0 <= i < resp.locators@.len() ==> {
                        let l = #[trigger] resp.locators@[i];
                        let e = final(self).entries@[old(self).entries@.len() + i];
                        let t = old(self).upload_targets@[i];
                        &&& e.locator == l
                        &&& e.status is Pending
                        &&& e.bucket@ == req.bucket@
                        &&& e.key@ == req.key@
                        &&& e.version == req.version_id
                        &&& l.id == old(self).next_id + i
                        &&& l.tag@ == t.name@
                        &&& l.cloud@ == t.cloud@
                        &&& l.bucket@ == t.bucket@
                        &&& l.region@ == t.region@
                        &&& l.key@ == req.key@
                        &&& l.size is None
                        &&& l.etag is None
                        &&& l.last_modified is None
                        &&& l.version_id is None
                    }
                &&& old(self).upload_targets@.len() > 0 ==> forall|region: Seq<char>|
                    !accepts_upload(
                        *final(self),
                        req.bucket@,
                        req.key@,
                        req.version_id,
                        region,
                    )
            },
    {
        let accepted = !blocking_entry_exists(
            &self.entries,
            &req.bucket,
            &req.key,
            req.version_id,
            &req.client_from_region,
            &self.upload_targets,
        );
        self.upload_log.push(
            UploadCallRecord {
                bucket: req.bucket.clone(),
                key: req.key.clone(),
                version: req.version_id,
                accepted,
            },
        );
        if !accepted {
            return Err(DirectoryError::Rejected);
        }
        let ghost entries0 = self.entries@;
        let ghost targets0 = self.upload_targets@;
        let ghost id0 = self.next_id;
        let ghost log1 = self.upload_log@;
        let ghost calls0 = self.complete_calls@;
        proof {
            assert(entries0 == old(self).entries@);
            assert(targets0 == old(self).upload_targets@);
            assert(id0 == old(self).next_id);
            assert(calls0 == old(self).complete_calls@);
            assert(log1 == old(self).upload_log@.push(
                UploadCallRecord {
                    bucket: req.bucket,
                    key: req.key,
                    version: req.version_id,
                    accepted: accepts_upload(
                        *old(self),
                        req.bucket@,
                        req.key@,
                        req.version_id,
                        req.client_from_region@,
                    ),
                },
            ));
        }
        let n = self.upload_targets.len();
        let mut locators: Vec<LocateObjectResponse> = Vec::new();
        let mut i: usize = 0;
        while i < n
            invariant
                i <= n,
                n == targets0.len(),
                self.upload_targets@ == targets0,
                self.next_id == id0,
                self.upload_log@ == log1,
                self.complete_calls@ == calls0,
                0 <= id0,
                id0 + n < i32::MAX,
                locators@.len() == i,
                self.entries@.len() == entries0.len() + i,
                forall|j: int| 0 <= j < entries0.len() ==> self.entries@[j] == entries0[j],
                forall|j: int|
                    0 <= j < i ==> {
                        let l = #[trigger] locators@[j];
                        let e = self.entries@[entries0.len() + j];
                        let t = targets0[j];
                        &&& e.locator == l
                        &&& e.status is Pending
                        &&& e.bucket@ == req.bucket@
                        &&& e.key@ == req.key@
                        &&& e.version == req.version_id
                        &&& l.id == id0 + j
                        &&& l.tag@ == t.name@
                        &&& l.cloud@ == t.cloud@
                        &&& l.bucket@ == t.bucket@
                        &&& l.region@ == t.region@
                        &&& l.key@ == req.key@
                        &&& l.size is None
                        &&& l.etag is None
                        &&& l.last_modified is None
                        &&& l.version_id is None
                    },
                forall|j: int|
                    0 <= j < entries0.len() ==> #[trigger] entries0[j].locator.id < id0,
                forall|j: int, k: int|
                    #![trigger entries0[j], entries0[k]]
                    0 <= j < k < entries0.len() ==> entries0[j].locator.id
                        != entries0[k].locator.id,
            decreases n - i,
        {
            let id = self.next_id + (i as i32);
            let locator = LocateObjectResponse {
                id,
                tag: self.upload_targets[i].name.clone(),
                cloud: self.upload_targets[i].cloud.clone(),
                bucket: self.upload_targets[i].bucket.clone(),
                region: self.upload_targets[i].region.clone(),
                key: req.key.clone(),
                size: None,
                last_modified: None,
                etag: None,
                version_id: None,
            };
            let entry = DirEntry {
                bucket: req.bucket.clone(),
                key: req.key.clone(),
                version: req.version_id,
                locator: locator.clone(),
                status: Status::Pending,
            };
            self.entries.push(entry);
            locators.push(locator);
            i = i + 1;
        }
        self.next_id = self.next_id + (n as i32);
        proof {
            if targets0.len() > 0 {
                assert(locators@[0].id == id0);
                assert(entry_matches(
                    self.entries@[entries0.len() as int],
                    req.bucket@,
                    req.key@,
                    req.version_id,
                ));
                assert(self.entries@[entries0.len() as int].locator.tag@ == targets0[0].name@);
                assert(self.upload_targets@[0].name@ == targets0[0].name@);
                assert(tag_among_targets(
                    self.upload_targets@,
                    self.entries@[entries0.len() as int].locator.tag@,
                ));
                assert forall|region: Seq<char>|
                    !accepts_upload(
                        *self,
                        req.bucket@,
                        req.key@,
                        req.version_id,
                        region,
                    ) by {
                    assert(entry_blocks_upload(
                        self.entries@[entries0.len() as int],
                        req.bucket@,
                        req.key@,
                        req.version_id,
                        region,
                        self.upload_targets@,
                    ));
                }
            }
            assert forall|j: int|
                0 <= j < self.entries@.len() implies #[trigger] self.entries@[j].locator.id
                < self.next_id by {
                if entries0.len() <= j {
                    assert(locators@[j - entries0.len()].id == id0 + (j - entries0.len()));
                    assert(self.entries@[j].locator == locators@[j - entries0.len()]);
                } else {
                    assert(self.entries@[j] == entries0[j]);
                    assert(entries0[j].locator.id < id0);
                }
            }
            assert forall|j: int, k: int|
                #![trigger self.entries@[j], self.entries@[k]]
                0 <= j < k < self.entries@.len() implies self.entries@[j].locator.id
                != self.entries@[k].locator.id by {
                if entries0.len() <= j {
                    assert(locators@[j - entries0.len()].id == id0 + (j - entries0.len()));
                    assert(self.entries@[j].locator == locators@[j - entries0.len()]);
                } else {
                    assert(self.entries@[j] == entries0[j]);
                    assert(entries0[j].locator.id < id0);
                }
                if entries0.len() <= k {
                    assert(locators@[k - entries0.len()].id == id0 + (k - entries0.len()));
                    assert(self.entries@[k].locator == locators@[k - entries0.len()]);
                } else {
                    assert(self.entries@[k] == entries0[k]);
                    assert(entries0[k].locator.id < id0);
                }
            }
        }
        Ok(StartUploadResponse { locators })
    }

    /// The commit phase: transition the pending locator with the given id to
    /// ready, recording the verified metadata.  The call is recorded.  If no
    /// pending locator carries the id — it was never reserved, or it is
    /// already ready — the commit is refused and nothing else changes: a
    /// locator transitions pending to ready at most once.
    pub fn complete_upload(&mut self, patch: &PatchUploadIsCompleted) -> (r: Result<
        (),
        DirectoryError,
    >)
        ensures
            final(self).upload_targets@ == old(self).upload_targets@,
            final(self).upload_log@ == old(self).upload_log@,
            final(self).next_id == old(self).next_id,
            final(self).complete_calls@ == old(self).complete_calls@.push(patch.id),
            r is Ok <==> find_pending(old(self).entries@, patch.id) is Some,
            r is Err ==> r == Err::<(), DirectoryError>(DirectoryError::Protocol) && final(self).entries@ == old(self).entries@,
            find_pending(old(self).entries@, patch.id) matches Some(i) ==> {
                let e0 = old(self).entries@[i];
                let e1 = final(self).entries@[i];
                &&& final(self).entries@.len() == old(self).entries@.len()
                &&& forall|j: int|
                    0 <= j < old(self).entries@.len() && j != i ==> final(self).entries@[j]
                        == old(self).entries@[j]
                &&& e1.bucket == e0.bucket
                &&& e1.key == e0.key
                &&& e1.version == e0.version
                &&& e1.status is Ready
                &&& e1.locator.id == e0.locator.id
                &&& e1.locator.tag == e0.locator.tag
                &&& e1.locator.cloud == e0.locator.cloud
                &&& e1.locator.bucket == e0.locator.bucket
                &&& e1.locator.region == e0.locator.region
                &&& e1.locator.key == e0.locator.key
                &&& e1.locator.size == Some(patch.size)
                &&& e1.locator.etag == Some(patch.etag)
                &&& e1.locator.last_modified == Some(patch.last_modified)
                &&& e1.locator.version_id == patch.version_id
            },
            dir_wf(*old(self)) ==> dir_wf(*final(self)),
    {
        self.complete_calls.push(patch.id);
        let ghost entries0 = self.entries@;
        proof {
            assert(entries0 == old(self).entries@);
            assert(entries0.skip(0) =~= entries0);
        }
        let mut i: usize = 0;
        while i < self.entries.len()
            invariant
                i <= self.entries@.len(),
                entries0 == old(self).entries@,
                self.entries@ == entries0,
                self.upload_targets@ == old(self).upload_targets@,
                self.next_id == old(self).next_id,
                self.upload_log@ == old(self).upload_log@,
                self.complete_calls@ == old(self).complete_calls@.push(patch.id),
                find_pending(entries0, patch.id) == match find_pending(
                    entries0.skip(i as int),
                    patch.id,
                ) {
                    None => None::<int>,
                    Some(j) => Some(j + i),
                },
            decreases self.entries@.len() - i,
        {
            proof {
                assert(entries0.skip(i as int)[0] == entries0[i as int]);
                assert(entries0.skip(i as int).drop_first() =~= entries0.skip(i + 1));
            }
            let hit = self.entries[i].locator.id == patch.id && self.entries[i].status
                == Status::Pending;
            if hit {
                proof {
                    assert(find_pending(entries0.skip(i as int), patch.id) == Some(0int));
                    assert(find_pending(entries0, patch.id) == Some(i as int));
                }
                let updated = {
                    let e = &self.entries[i];
                    DirEntry {
                        bucket: e.bucket.clone(),
                        key: e.key.clone(),
                        version: e.version,
                        locator: LocateObjectResponse {
                            id: e.locator.id,
                            tag: e.locator.tag.clone(),
                            cloud: e.locator.cloud.clone(),
                            bucket: e.locator.bucket.clone(),
                            region: e.locator.region.clone(),
                            key: e.locator.key.clone(),
                            size: Some(patch.size),
                            last_modified: Some(patch.last_modified.clone()),
                            etag: Some(patch.etag.clone()),
                            version_id: clone_opt_string(&patch.version_id),
                        },
                        status: Status::Ready,
                    }
                };
                self.entries.set(i, updated);
                proof {
                    if dir_wf(*old(self)) {
                        assert(self.entries@[i as int].locator.id == entries0[i as int].locator.id);
                        assert forall|j: int|
                            0 <= j < self.entries@.len() implies #[trigger] self.entries@[j].locator.id
                            < self.next_id by {
                            assert(old(self).entries@[j].locator.id < old(self).next_id);
                            if j != i as int {
                                assert(self.entries@[j] == entries0[j]);
                            }
                        }
                        assert forall|j: int, k: int|
                            #![trigger self.entries@[j], self.entries@[k]]
                            0 <= j < k < self.entries@.len() implies self.entries@[j].locator.id
                            != self.entries@[k].locator.id by {
                            assert(old(self).entries@[j] == entries0[j]);
                            assert(old(self).entries@[k] == entries0[k]);
                            if j != i as int {
                                assert(self.entries@[j] == entries0[j]);
                            }
                            if k != i as int {
                                assert(self.entries@[k] == entries0[k]);
                            }
                        }
                    }
                }
                return Ok(());
            }
            i = i + 1;
        }
        proof {
            assert(entries0.skip(i as int) =~= Seq::<DirEntry>::empty());
        }
        Err(DirectoryError::Protocol)
    }
}

/// While a region holds a record of a logical identity — pending or ready —
/// the directory accepts no reservation for that identity from that region.
pub proof fn lemma_reservation_excluded_while_present(
    d: DirectoryService,
    bucket: Seq<char>,
    key: Seq<char>,
    version: Option<i32>,
    region: Seq<char>,
)
    requires
        has_copy_in_region(d.entries@, bucket, key, version, region),
    ensures
        !accepts_upload(d, bucket, key, version, region),
{
    let i = choose|i: int|
        0 <= i < d.entries@.len() && entry_matches(#[trigger] d.entries@[i], bucket, key, version)
            && d.entries@[i].locator.tag@ == region;
    assert(entry_blocks_upload(d.entries@[i], bucket, key, version, region, d.upload_targets@));
}

/// At most one reservation per logical identity: once a record of the
/// identity exists at any placement target — which every accepted
/// reservation creates — the directory refuses all further reservations
/// for it, from every region.  Of any number of concurrent pull-through
/// reads of one object, at most one can therefore observe an accepted
/// reservation, and at most one write reaches each target.
pub proof fn lemma_reservation_is_exclusive(
    d: DirectoryService,
    bucket: Seq<char>,
    key: Seq<char>,
    version: Option<i32>,
    i: int,
)
    requires
        0 <= i < d.entries@.len(),
        entry_matches(d.entries@[i], bucket, key, version),
        tag_among_targets(d.upload_targets@, d.entries@[i].locator.tag@),
    ensures
        forall|region: Seq<char>| !accepts_upload(d, bucket, key, version, region),
{
    assert forall|region: Seq<char>| !accepts_upload(d, bucket, key, version, region) by {
        assert(entry_blocks_upload(
            d.entries@[i],
            bucket,
            key,
            version,
            region,
            d.upload_targets@,
        ));
    }
}

/// What a found pending index means, and what its absence means.
pub proof fn lemma_find_pending_characterizes(entries: Seq<DirEntry>, id: i32)
    ensures
        find_pending(entries, id) matches Some(i) ==> 0 <= i < entries.len()
            && entries[i].locator.id == id && entries[i].status is Pending,
        find_pending(entries, id) is None ==> forall|j: int|
            0 <= j < entries.len() ==> !(#[trigger] entries[j].locator.id == id
                && entries[j].status is Pending),
    decreases entries.len(),
{
    if entries.len() > 0 {
        lemma_find_pending_characterizes(entries.drop_first(), id);
        if !(entries[0].locator.id == id && entries[0].status is Pending) {
            assert forall|j: int|
                0 <= j < entries.len() && find_pending(entries, id) is None implies !(
            #[trigger] entries[j].locator.id == id && entries[j].status is Pending) by {
                if j > 0 {
                    assert(entries.drop_first()[j - 1] == entries[j]);
                }
            }
        }
    }
}

/// A locator transitions pending to ready exactly once: while a ready entry
/// carries an id, no pending entry carries it, so a second commit of the
/// same locator finds nothing to commit.
pub proof fn lemma_commit_is_single_shot(d: DirectoryService, i: int, id: i32)
    requires
        dir_wf(d),
        0 <= i < d.entries@.len(),
        d.entries@[i].locator.id == id,
        d.entries@[i].status is Ready,
    ensures
        find_pending(d.entries@, id) is None,
{
    lemma_find_pending_characterizes(d.entries@, id);
    match find_pending(d.entries@, id) {
        None => {},
        Some(j) => {
            assert(d.entries@[j].locator.id == id && d.entries@[j].status is Pending);
            if i < j {
                assert(d.entries@[i].locator.id != d.entries@[j].locator.id);
            } else if j < i {
                assert(d.entries@[j].locator.id != d.entries@[i].locator.id);
            }
            assert(false);
        },
    }
}

} // verus!
