//! The replication orchestrator: reserve, upload, verify, commit.
//!
//! A pull-through read hands one `ReplicationJob` to a background task.  The
//! task first reserves the upload at the directory; the directory accepts
//! at most one reservation per logical identity, so concurrent readers
//! racing on the same object resolve harmlessly: at most one observes an
//! accepted reservation and writes, the others observe rejection and stop.
//! An accepted reservation names one pending locator per physical target;
//! each target is then driven independently through write, head-after-write
//! verification, and commit, so that one faulty target cannot abort its
//! siblings.  A target that fails anywhere is abandoned in pending state — a
//! recognized degraded state reconciled out of band, never retried here.
//!
//! The decision logic is synchronous and verified; the outside calls between
//! the steps (write, head, commit) are performed by the caller, which feeds
//! each call's outcome back in as a [`TargetEvent`].

use vstd::prelude::*;

use crate::errors::DirectoryError;
use crate::errors::ReadError;
use crate::models::clone_opt_string;
use crate::models::LocateObjectResponse;
use crate::models::PatchUploadIsCompleted;
use crate::models::StartUploadRequest;
use crate::models::StartUploadResponse;
use crate::read_path::LogicalObjectRef;
use crate::splitter::copy_bytes;

verus! {

/// Reserve-phase request for one replication run: the logical identity the
/// copy is for, tagged with the region that is pulling it closer.  A
/// pull-through replication is never a multipart upload and copies from no
/// source object.
pub fn start_upload_request(logical: &LogicalObjectRef, local_tag: &String) -> (r:
    StartUploadRequest)
    ensures
        r.bucket == logical.bucket,
        r.key == logical.key,
        r.version_id == logical.version,
        r.client_from_region == *local_tag,
        !r.is_multipart,
        r.copy_src_bucket is None,
        r.copy_src_key is None,
{
    StartUploadRequest {
        bucket: logical.bucket.clone(),
        key: logical.key.clone(),
        client_from_region: local_tag.clone(),
        version_id: logical.version,
        is_multipart: false,
        copy_src_bucket: None,
        copy_src_key: None,
    }
}

/// One replication target's work, owned outright: the pending locator the
/// directory reserved there and a full copy of the body to write.
#[derive(Debug)]
pub struct TargetTask {
    pub locator: LocateObjectResponse,
    pub body: Vec<u8>,
}

/// Fan the reservation's outcome out into independent per-target work.
///
/// A rejected or failed reservation yields no work at all: another
/// reservation for this logical identity already exists, or the directory
/// could not be asked, and nothing may be written.  An accepted reservation
/// yields exactly one task per reserved locator, each with its own copy of
/// the body.
pub fn replication_plan(
    reservation: Result<StartUploadResponse, DirectoryError>,
    body: Vec<u8>,
) -> (tasks: Vec<TargetTask>)
    ensures
        reservation is Err ==> tasks@.len() == 0,
        reservation matches Ok(resp) ==> tasks@.len() == resp.locators@.len() && (forall|i: int|
            0 <= i < tasks@.len() ==> #[trigger] tasks@[i].locator == resp.locators@[i]
                && tasks@[i].body@ == body@),
{
    match reservation {
        Err(_) => Vec::new(),
        Ok(resp) => {
            let mut tasks: Vec<TargetTask> = Vec::new();
            let mut i: usize = 0;
            while i < resp.locators.len()
                invariant
                    i <= resp.locators@.len(),
                    tasks@.len() == i,
                    forall|j: int|
                        0 <= j < i ==> #[trigger] tasks@[j].locator == resp.locators@[j]
                            && tasks@[j].body@ == body@,
                decreases resp.locators@.len() - i,
            {
                let locator = resp.locators[i].clone();
                let task_body = copy_bytes(&body);
                tasks.push(TargetTask { locator, body: task_body });
                i = i + 1;
            }
            tasks
        },
    }
}

/// Where one target stands in the reserve-to-commit protocol.
#[derive(Debug)]
pub enum TargetState {
    /// The locator is reserved (pending); nothing has been written yet.
    Reserved,
    /// The body has been written; the copy's metadata is still unverified.
    Uploaded,
    /// Head-after-write metadata is in hand and the commit has been issued.
    Verified { record: PatchUploadIsCompleted },
    /// The directory has acknowledged the commit: the locator is ready.
    Committed,
    /// This target is abandoned; its locator stays pending at the directory.
    Failed { error: ReadError },
}

/// The outcome of one outside call, fed back into the step function.
#[derive(Debug)]
pub enum TargetEvent {
    /// The write returned; `version_id` is the physical version it reported,
    /// used only to address the head-after-write.  Nothing else the write
    /// reports is trusted: the commit's metadata comes from the head alone.
    PutDone { version_id: Option<String> },
    /// The write failed against the physical store.
    PutFailed,
    /// The head-after-write returned with the store's authoritative
    /// metadata, any part of which some backends leave incomplete.
    HeadDone {
        size: u64,
        etag: Option<String>,
        last_modified: Option<String>,
        version_id: Option<String>,
    },
    /// The head-after-write failed against the physical store.
    HeadFailed,
    /// The directory acknowledged the commit.
    CompleteDone,
    /// The directory refused or could not take the commit.
    CompleteFailed { error: DirectoryError },
}

/// The next outside call to make for one target, if any.
#[derive(Debug)]
pub enum TargetAction {
    /// Write the task's body to the target's own bucket and key.
    Put { tag: String, bucket: String, key: String },
    /// Read the written copy's metadata back, at the physical version the
    /// write reported, rather than trusting the write's own reply.
    Head { tag: String, bucket: String, key: String, version_id: Option<String> },
    /// Commit the verified metadata, turning the locator from pending to
    /// ready.
    Complete { record: PatchUploadIsCompleted },
}

/// Which events can answer which states: a write outcome while reserved, a
/// head outcome while uploaded, a commit outcome while verified.  Committed
/// and failed targets are finished and take no further event.
pub open spec fn event_fits(state: TargetState, event: TargetEvent) -> bool {
    match state {
        TargetState::Reserved => event is PutDone || event is PutFailed,
        TargetState::Uploaded => event is HeadDone || event is HeadFailed,
        TargetState::Verified { .. } => event is CompleteDone || event is CompleteFailed,
        TargetState::Committed => false,
        TargetState::Failed { .. } => false,
    }
}

/// The per-target transition relation, in full.
///
/// A completed write is followed by a head at the physical version the
/// write reported, because some backends report incomplete metadata on
/// write.  A head that reports both an etag and a last-modified time
/// yields the commit record — size, etag, last-modified and physical
/// version all from the head — and the commit is issued; a head missing
/// either is a verification mismatch.  Any outside failure abandons the
/// target with no further action.
pub open spec fn target_step_spec(
    state: TargetState,
    locator: LocateObjectResponse,
    event: TargetEvent,
) -> (TargetState, Option<TargetAction>) {
    match (state, event) {
        (TargetState::Reserved, TargetEvent::PutDone { version_id }) => (
            TargetState::Uploaded,
            Some(
                TargetAction::Head {
                    tag: locator.tag,
                    bucket: locator.bucket,
                    key: locator.key,
                    version_id,
                },
            ),
        ),
        (TargetState::Reserved, TargetEvent::PutFailed) => (
            TargetState::Failed { error: ReadError::PhysicalStore },
            None,
        ),
        (
            TargetState::Uploaded,
            TargetEvent::HeadDone { size, etag, last_modified, version_id },
        ) => match (etag, last_modified) {
            (Some(e), Some(lm)) => {
                let record = PatchUploadIsCompleted {
                    id: locator.id,
                    size,
                    etag: e,
                    last_modified: lm,
                    version_id,
                };
                (TargetState::Verified { record }, Some(TargetAction::Complete { record }))
            },
            _ => (TargetState::Failed { error: ReadError::VerificationMismatch }, None),
        },
        (TargetState::Uploaded, TargetEvent::HeadFailed) => (
            TargetState::Failed { error: ReadError::PhysicalStore },
            None,
        ),
        (TargetState::Verified { .. }, TargetEvent::CompleteDone) => (
            TargetState::Committed,
            None,
        ),
        (TargetState::Verified { .. }, TargetEvent::CompleteFailed { error }) => (
            TargetState::Failed { error: ReadError::from_directory_spec(error) },
            None,
        ),
        _ => (state, None),
    }
}

/// Advance one target by the outcome of its latest outside call.
pub fn target_step(state: TargetState, locator: &LocateObjectResponse, event: TargetEvent) -> (r:
    (TargetState, Option<TargetAction>))
    requires
        event_fits(state, event),
    ensures
        r == target_step_spec(state, *locator, event),
{
    match (state, event) {
        (TargetState::Reserved, TargetEvent::PutDone { version_id }) => (
            TargetState::Uploaded,
            Some(
                TargetAction::Head {
                    tag: locator.tag.clone(),
                    bucket: locator.bucket.clone(),
                    key: locator.key.clone(),
                    version_id,
                },
            ),
        ),
        (TargetState::Reserved, TargetEvent::PutFailed) => (
            TargetState::Failed { error: ReadError::PhysicalStore },
            None,
        ),
        (
            TargetState::Uploaded,
            TargetEvent::HeadDone { size, etag, last_modified, version_id },
        ) => match (etag, last_modified) {
            (Some(e), Some(lm)) => {
                let record = PatchUploadIsCompleted {
                    id: locator.id,
                    size,
                    etag: e,
                    last_modified: lm,
                    version_id,
                };
                let issued = PatchUploadIsCompleted {
                    id: record.id,
                    size: record.size,
                    etag: record.etag.clone(),
                    last_modified: record.last_modified.clone(),
                    version_id: clone_opt_string(&record.version_id),
                };
                (TargetState::Verified { record }, Some(TargetAction::Complete { record: issued }))
            },
            _ => (TargetState::Failed { error: ReadError::VerificationMismatch }, None),
        },
        (TargetState::Uploaded, TargetEvent::HeadFailed) => (
            TargetState::Failed { error: ReadError::PhysicalStore },
            None,
        ),
        (TargetState::Verified { .. }, TargetEvent::CompleteDone) => (
            TargetState::Committed,
            None,
        ),
        (TargetState::Verified { .. }, TargetEvent::CompleteFailed { error }) => (
            TargetState::Failed { error: ReadError::from_directory(error) },
            None,
        ),
        _ => unreached(),
    }
}

/// The first action for a freshly reserved target: write the body to the
/// locator's own bucket and key in its region's store.
pub fn target_put_action(task: &TargetTask) -> (a: TargetAction)
    ensures
        a == (TargetAction::Put {
            tag: task.locator.tag,
            bucket: task.locator.bucket,
            key: task.locator.key,
        }),
{
    TargetAction::Put {
        tag: task.locator.tag.clone(),
        bucket: task.locator.bucket.clone(),
        key: task.locator.key.clone(),
    }
}

/// An outside failure is terminal for its own target and only for it: the
/// step abandons the target, asks for no further call, and involves no other
/// target's state.
pub proof fn lemma_failure_is_isolated(
    state: TargetState,
    locator: LocateObjectResponse,
    event: TargetEvent,
)
    requires
        event_fits(state, event),
        event is PutFailed || event is HeadFailed || event is CompleteFailed,
    ensures
        target_step_spec(state, locator, event).0 is Failed,
        target_step_spec(state, locator, event).1 is None,
{
}

/// The commit record carries exactly the verified metadata: size, etag,
/// last-modified and physical version all from the head-after-write, never
/// from the write's own unverified reply.
pub proof fn lemma_commit_record_matches_head(
    locator: LocateObjectResponse,
    size: u64,
    etag: String,
    last_modified: String,
    version_id: Option<String>,
)
    ensures
        ({
            let step = target_step_spec(
                TargetState::Uploaded,
                locator,
                TargetEvent::HeadDone {
                    size,
                    etag: Some(etag),
                    last_modified: Some(last_modified),
                    version_id,
                },
            );
            &&& step.1 matches Some(TargetAction::Complete { record })
            &&& record.id == locator.id
            &&& record.size == size
            &&& record.etag == etag
            &&& record.last_modified == last_modified
            &&& record.version_id == version_id
        }),
{
}

} // verus!
