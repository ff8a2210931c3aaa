//! The background replication task, run against the in-memory models.
//!
//! In production the orchestrator's outside calls — write, head, commit —
//! are network I/O, so an unverified shell makes them and feeds each outcome
//! into [`crate::replication::target_step`].  Here the same protocol is
//! driven, step by step and with the same step function, against the
//! verified directory and store models.  This pins down the end-to-end
//! behavior of one replication run: what a rejected reservation may touch
//! (nothing), and what a committed target's directory record must carry
//! (exactly the store's head-after-write metadata).

use vstd::prelude::*;

use crate::directory::accepts_upload;
use crate::directory::dir_wf;
use crate::directory::entry_matches;
use crate::directory::find_pending;
use crate::directory::find_ready;
use crate::directory::lemma_reservation_is_exclusive;
use crate::directory::tag_among_targets;
use crate::directory::DirectoryService;
use crate::errors::ReadError;
use crate::read_path::finish_read;
use crate::read_path::pull_through_read;
use crate::read_path::response_wf;
use crate::read_path::route_read;
use crate::read_path::store_get_request;
use crate::read_path::GetObjectResponse;
use crate::read_path::LogicalObjectRef;
use crate::read_path::ReadRoute;
use crate::read_path::ReplicationJob;
use crate::read_path::StoreGetRequest;
use crate::replication::replication_plan;
use crate::replication::start_upload_request;
use crate::replication::target_step;
use crate::replication::TargetAction;
use crate::replication::TargetEvent;
use crate::replication::TargetState;
use crate::replication::TargetTask;
use crate::store::find_object;
use crate::store::object_matches;
use crate::store::opt_str_view;
use crate::store::MemoryStore;
use crate::store::StoreOp;

verus! {

/// Read from whichever of the two stores serves the request's tag.  A tag
/// neither store serves is a missing adapter: a storage-backend failure,
/// not a protocol one.
fn fetch_from(req: &StoreGetRequest, local: &mut MemoryStore, remote: &mut MemoryStore) -> (r:
    Result<Vec<u8>, ReadError>)
    ensures
        final(local).tag@ == old(local).tag@,
        final(remote).tag@ == old(remote).tag@,
        final(local).objects@ == old(local).objects@,
        final(remote).objects@ == old(remote).objects@,
        req.tag@ == old(local).tag@ ==> final(remote).log@ == old(remote).log@ && final(local).log@ == old(local).log@.push(StoreOp::Get) && (match find_object(
            old(local).objects@,
            req.bucket@,
            req.key@,
            opt_str_view(req.version_id),
        ) {
            Some(i) => r matches Ok(b) && b@ == old(local).objects@[i].body@,
            None => r == Err::<Vec<u8>, ReadError>(ReadError::PhysicalStore),
        }),
        req.tag@ != old(local).tag@ && req.tag@ == old(remote).tag@ ==> final(local).log@ == old(local).log@ && final(remote).log@ == old(remote).log@.push(StoreOp::Get) && (match find_object(
            old(remote).objects@,
            req.bucket@,
            req.key@,
            opt_str_view(req.version_id),
        ) {
            Some(i) => r matches Ok(b) && b@ == old(remote).objects@[i].body@,
            None => r == Err::<Vec<u8>, ReadError>(ReadError::PhysicalStore),
        }),
        req.tag@ != old(local).tag@ && req.tag@ != old(remote).tag@ ==> r == Err::<
            Vec<u8>,
            ReadError,
        >(ReadError::PhysicalStore) && final(local).log@ == old(local).log@ && final(remote).log@ == old(remote).log@,
{
    if req.tag == local.tag {
        local.get(&req.bucket, &req.key, &req.version_id)
    } else if req.tag == remote.tag {
        remote.get(&req.bucket, &req.key, &req.version_id)
    } else {
        Err(ReadError::PhysicalStore)
    }
}

/// The read-path handler, run against the models.
///
/// Resolve the logical reference, route it, read the chosen physical copy
/// with the body fully materialized, substitute the logical version into
/// the response, and on the pull-through path hand back the one replication
/// job this read spawns.  The contract pins the testable shape of the path:
/// an unresolved reference returns `NotFound` with both stores untouched;
/// a copy in the local region — or any copy when pull-through is off — is
/// served with no replication job, whatever the flag; a remote copy under
/// pull-through yields exactly one job whose bytes equal the client-visible
/// body, which itself equals the stored source object byte for byte.
pub fn get_object(
    bucket: &String,
    key: &String,
    version: Option<i32>,
    pull_through: bool,
    local_tag: &String,
    dir: &DirectoryService,
    local: &mut MemoryStore,
    remote: &mut MemoryStore,
) -> (r: Result<(GetObjectResponse, Option<ReplicationJob>), ReadError>)
    ensures
        final(local).tag@ == old(local).tag@,
        final(remote).tag@ == old(remote).tag@,
        final(local).objects@ == old(local).objects@,
        final(remote).objects@ == old(remote).objects@,
        find_ready(dir.entries@, bucket@, key@, version) is None ==> r == Err::<
            (GetObjectResponse, Option<ReplicationJob>),
            ReadError,
        >(ReadError::NotFound) && final(local).log@ == old(local).log@ && final(remote).log@
            == old(remote).log@,
        r matches Ok(out) ==> out.0.version_id == version && response_wf(out.0),
        find_ready(dir.entries@, bucket@, key@, version) matches Some(l) ==> ((!pull_through
            || l.tag@ == local_tag@) ==> (r matches Ok(out) ==> out.1 is None)),
        find_ready(dir.entries@, bucket@, key@, version) matches Some(l) ==> ((pull_through
            && l.tag@ != local_tag@) ==> (r matches Ok(out) ==> out.1 matches Some(job)
            && job.body@ == out.0.body@ && job.logical.bucket@ == bucket@ && job.logical.key@
            == key@ && job.logical.version == version && job.local_tag@ == local_tag@)),
        find_ready(dir.entries@, bucket@, key@, version) matches Some(l) ==> {
            &&& (l.tag@ == old(local).tag@ ==> final(local).log@ == old(local).log@.push(
                StoreOp::Get,
            ) && final(remote).log@ == old(remote).log@)
            &&& (l.tag@ != old(local).tag@ && l.tag@ == old(remote).tag@ ==> final(remote).log@
                == old(remote).log@.push(StoreOp::Get) && final(local).log@ == old(local).log@)
            &&& (l.tag@ != old(local).tag@ && l.tag@ != old(remote).tag@ ==> final(local).log@
                == old(local).log@ && final(remote).log@ == old(remote).log@)
        },
        find_ready(dir.entries@, bucket@, key@, version) matches Some(l) ==> {
            let v = opt_str_view(l.version_id);
            &&& (l.tag@ == old(local).tag@ ==> match find_object(
                old(local).objects@,
                l.bucket@,
                l.key@,
                v,
            ) {
                Some(i) => r matches Ok(out) && out.0.body@ == old(local).objects@[i].body@,
                None => r == Err::<(GetObjectResponse, Option<ReplicationJob>), ReadError>(
                    ReadError::PhysicalStore,
                ),
            })
            &&& (l.tag@ != old(local).tag@ && l.tag@ == old(remote).tag@ ==> match find_object(
                old(remote).objects@,
                l.bucket@,
                l.key@,
                v,
            ) {
                Some(i) => r matches Ok(out) && out.0.body@ == old(remote).objects@[i].body@,
                None => r == Err::<(GetObjectResponse, Option<ReplicationJob>), ReadError>(
                    ReadError::PhysicalStore,
                ),
            })
            &&& (l.tag@ != old(local).tag@ && l.tag@ != old(remote).tag@ ==> r == Err::<
                (GetObjectResponse, Option<ReplicationJob>),
                ReadError,
            >(ReadError::PhysicalStore))
        },
{
    let locator = dir.locate_object(bucket, key, version);
    match route_read(locator, pull_through, local_tag) {
        ReadRoute::NotFound => Err(ReadError::NotFound),
        ReadRoute::Direct { locator } => {
            let request = store_get_request(&locator);
            match fetch_from(&request, local, remote) {
                Err(e) => Err(e),
                Ok(body) => Ok((finish_read(body, version), None)),
            }
        },
        ReadRoute::PullThrough { locator } => {
            let request = store_get_request(&locator);
            match fetch_from(&request, local, remote) {
                Err(e) => Err(e),
                Ok(body) => {
                    let logical = LogicalObjectRef {
                        bucket: bucket.clone(),
                        key: key.clone(),
                        version,
                    };
                    let (response, job) = pull_through_read(body, logical, local_tag);
                    Ok((response, Some(job)))
                },
            }
        },
    }
}

/// Drive one reserved target through write, verify and commit against the
/// models.
///
/// The body is written to the target's own bucket and key, its metadata is
/// read back by a head call rather than trusted from the write, and the
/// verified metadata is committed.  The run commits exactly when the
/// directory holds a pending locator under the task's id; then that record
/// turns ready carrying precisely what the head reported: the written copy's
/// size, etag, last-modified time and physical version.  Otherwise the
/// target ends failed and the directory's records are untouched.
pub fn replicate_target(task: TargetTask, dir: &mut DirectoryService, store: &mut MemoryStore) -> (
    outcome: TargetState)
    requires
        dir_wf(*old(dir)),
    ensures
        dir_wf(*final(dir)),
        final(dir).upload_targets@ == old(dir).upload_targets@,
        final(dir).upload_log@ == old(dir).upload_log@,
        final(dir).next_id == old(dir).next_id,
        final(dir).complete_calls@ == old(dir).complete_calls@.push(task.locator.id),
        final(store).tag@ == old(store).tag@,
        final(store).log@ == old(store).log@.push(StoreOp::Put).push(StoreOp::Head),
        final(store).objects@.len() == old(store).objects@.len() + 1,
        forall|i: int|
            0 <= i < old(store).objects@.len() ==> final(store).objects@[i] == old(store).objects@[i],
        final(store).objects@.last().bucket@ == task.locator.bucket@,
        final(store).objects@.last().key@ == task.locator.key@,
        final(store).objects@.last().body@ == task.body@,
        outcome is Committed || outcome is Failed,
        outcome is Committed <==> find_pending(old(dir).entries@, task.locator.id) is Some,
        find_pending(old(dir).entries@, task.locator.id) is None ==> final(dir).entries@ == old(dir).entries@,
        find_pending(old(dir).entries@, task.locator.id) matches Some(i) ==> ({
            let w = final(store).objects@.last();
            let e = final(dir).entries@[i];
            &&& final(dir).entries@.len() == old(dir).entries@.len()
            &&& forall|j: int|
                0 <= j < old(dir).entries@.len() && j != i ==> final(dir).entries@[j] == old(dir).entries@[j]
            &&& e.status is Ready
            &&& e.bucket == old(dir).entries@[i].bucket
            &&& e.key == old(dir).entries@[i].key
            &&& e.version == old(dir).entries@[i].version
            &&& e.locator.tag == old(dir).entries@[i].locator.tag
            &&& e.locator.id == task.locator.id
            &&& e.locator.size matches Some(sz) && sz == task.body@.len()
            &&& e.locator.etag == Some(w.etag)
            &&& e.locator.last_modified == Some(w.last_modified)
            &&& e.locator.version_id == w.version_id
        }),
{
    let TargetTask { locator, body } = task;
    let put_out = store.put(&locator.bucket, &locator.key, body);
    let event = TargetEvent::PutDone { version_id: put_out.version_id };
    let (state, action) = target_step(TargetState::Reserved, &locator, event);
    match action {
        Some(TargetAction::Head { tag: _, bucket, key, version_id }) => {
            proof {
                assert(object_matches(
                    store.objects@.last(),
                    bucket@,
                    key@,
                    opt_str_view(version_id),
                ));
                assert(find_object(store.objects@, bucket@, key@, opt_str_view(version_id))
                    == Some(store.objects@.len() - 1));
            }
            let head_r = store.head(&bucket, &key, &version_id);
            match head_r {
                Ok(meta) => {
                    let event = TargetEvent::HeadDone {
                        size: meta.size,
                        etag: Some(meta.etag),
                        last_modified: Some(meta.last_modified),
                        version_id: meta.version_id,
                    };
                    let (state, action) = target_step(state, &locator, event);
                    match action {
                        Some(TargetAction::Complete { record }) => {
                            proof {
                                crate::directory::lemma_find_pending_characterizes(
                                    dir.entries@,
                                    record.id,
                                );
                            }
                            let commit = dir.complete_upload(&record);
                            let event = match commit {
                                Ok(_) => TargetEvent::CompleteDone,
                                Err(e) => TargetEvent::CompleteFailed { error: e },
                            };
                            let (state, _action) = target_step(state, &locator, event);
                            state
                        },
                        _ => unreached(),
                    }
                },
                Err(_) => unreached(),
            }
        },
        _ => unreached(),
    }
}

/// Run one whole replication job against the models: reserve once, then
/// drive every reserved target independently.
///
/// The reservation is the single deduplication point: when a copy of the
/// job's logical identity already exists in the pulling region or at any
/// placement target, pending or ready, the reservation is rejected and the
/// run ends having touched nothing — no write, no commit, only the
/// recorded reservation attempt.  When it is accepted, every target is
/// driven through write, verify and commit: one object written per target,
/// carrying the job's bytes at the target's own bucket under the logical
/// key, and one new directory record per target, ready, holding exactly
/// the head-verified metadata of that written copy.  Afterwards the
/// directory refuses any further reservation for this identity from every
/// region: of any number of racing replication runs, at most one writes.
pub fn run_replication(job: ReplicationJob, dir: &mut DirectoryService, store: &mut MemoryStore) -> (
    outcomes: Vec<TargetState>)
    requires
        dir_wf(*old(dir)),
        old(dir).next_id + old(dir).upload_targets@.len() < i32::MAX,
    ensures
        dir_wf(*final(dir)),
        final(dir).upload_targets@ == old(dir).upload_targets@,
        final(dir).upload_log@.len() == old(dir).upload_log@.len() + 1,
        final(store).tag@ == old(store).tag@,
        !accepts_upload(
            *old(dir),
            job.logical.bucket@,
            job.logical.key@,
            job.logical.version,
            job.local_tag@,
        ) ==> {
            &&& outcomes@.len() == 0
            &&& final(store).objects@ == old(store).objects@
            &&& final(store).log@ == old(store).log@
            &&& final(dir).entries@ == old(dir).entries@
            &&& final(dir).complete_calls@ == old(dir).complete_calls@
        },
        accepts_upload(
            *old(dir),
            job.logical.bucket@,
            job.logical.key@,
            job.logical.version,
            job.local_tag@,
        ) ==> {
            &&& outcomes@.len() == old(dir).upload_targets@.len()
            &&& final(store).objects@.len() == old(store).objects@.len() + outcomes@.len()
            &&& final(dir).entries@.len() == old(dir).entries@.len() + outcomes@.len()
            &&& final(dir).complete_calls@.len() == old(dir).complete_calls@.len()
                + outcomes@.len()
            &&& (forall|j: int|
                0 <= j < old(dir).entries@.len() ==> final(dir).entries@[j] == old(
                    dir,
                ).entries@[j])
            &&& (forall|j: int|
                0 <= j < old(store).objects@.len() ==> final(store).objects@[j] == old(
                    store,
                ).objects@[j])
            &&& (forall|k: int|
                0 <= k < outcomes@.len() ==> {
                    let w = final(store).objects@[old(store).objects@.len() + k];
                    let e = final(dir).entries@[old(dir).entries@.len() + k];
                    &&& (#[trigger] outcomes@[k]) is Committed
                    &&& w.body@ == job.body@
                    &&& w.bucket@ == old(dir).upload_targets@[k].bucket@
                    &&& w.key@ == job.logical.key@
                    &&& e.bucket@ == job.logical.bucket@
                    &&& e.key@ == job.logical.key@
                    &&& e.version == job.logical.version
                    &&& e.locator.tag@ == old(dir).upload_targets@[k].name@
                    &&& e.status is Ready
                    &&& e.locator.size matches Some(sz) && sz == job.body@.len()
                    &&& e.locator.etag == Some(w.etag)
                    &&& e.locator.last_modified == Some(w.last_modified)
                    &&& e.locator.version_id == w.version_id
                })
            &&& old(dir).upload_targets@.len() > 0 ==> forall|region: Seq<char>|
                !accepts_upload(
                    *final(dir),
                    job.logical.bucket@,
                    job.logical.key@,
                    job.logical.version,
                    region,
                )
        },
{
    let ghost accepts0 = accepts_upload(
        *old(dir),
        job.logical.bucket@,
        job.logical.key@,
        job.logical.version,
        job.local_tag@,
    );
    let req = start_upload_request(&job.logical, &job.local_tag);
    let reservation = dir.start_upload(&req);
    let ghost locs = match reservation {
        Ok(ref resp) => resp.locators@,
        Err(_) => Seq::<crate::models::LocateObjectResponse>::empty(),
    };
    let ghost targets = old(dir).upload_targets@;
    let ghost oldlen = old(dir).entries@.len() as int;
    let ghost storelen0 = old(store).objects@.len() as int;
    proof {
        if accepts0 {
            assert(reservation is Ok);
            assert(locs == reservation->Ok_0.locators@);
            assert forall|k: int|
                0 <= k < locs.len() implies #[trigger] locs[k]
                == reservation->Ok_0.locators@[k] by {}
        }
    }
    let mut tasks = replication_plan(reservation, job.body);
    let mut outcomes: Vec<TargetState> = Vec::new();
    while tasks.len() > 0
        invariant
            dir_wf(*dir),
            dir.upload_targets@ == targets,
            targets == old(dir).upload_targets@,
            dir.upload_log@.len() == old(dir).upload_log@.len() + 1,
            store.tag@ == old(store).tag@,
            oldlen == old(dir).entries@.len(),
            storelen0 == old(store).objects@.len(),
            !accepts0 ==> tasks@.len() == 0 && outcomes@.len() == 0 && dir.entries@ == old(
                dir,
            ).entries@ && dir.complete_calls@ == old(dir).complete_calls@ && store.objects@
                == old(store).objects@ && store.log@ == old(store).log@,
            accepts0 ==> {
                let done = outcomes@.len() as int;
                &&& locs.len() == targets.len()
                &&& done + tasks@.len() == locs.len()
                &&& dir.entries@.len() == oldlen + locs.len()
                &&& dir.complete_calls@.len() == old(dir).complete_calls@.len() + done
                &&& store.objects@.len() == storelen0 + done
                &&& (forall|j: int| 0 <= j < oldlen ==> dir.entries@[j] == old(dir).entries@[j])
                &&& (forall|j: int|
                    0 <= j < storelen0 ==> store.objects@[j] == old(store).objects@[j])
                &&& (forall|j: int|
                    0 <= j < tasks@.len() ==> #[trigger] tasks@[j].locator == locs[done + j]
                        && tasks@[j].body@ == job.body@)
                &&& (forall|k: int|
                    0 <= k < locs.len() ==> {
                        let l = #[trigger] locs[k];
                        let e = dir.entries@[oldlen + k];
                        &&& l.id == old(dir).next_id + k
                        &&& l.tag@ == targets[k].name@
                        &&& l.bucket@ == targets[k].bucket@
                        &&& l.key@ == job.logical.key@
                        &&& e.bucket@ == job.logical.bucket@
                        &&& e.key@ == job.logical.key@
                        &&& e.version == job.logical.version
                        &&& e.locator.id == l.id
                        &&& e.locator.tag@ == l.tag@
                    })
                &&& (forall|k: int|
                    done <= k < locs.len() ==> (#[trigger] locs[k]).id == dir.entries@[oldlen
                        + k].locator.id && dir.entries@[oldlen + k].status is Pending)
                &&& (forall|k: int|
                    0 <= k < done ==> {
                        let w = store.objects@[storelen0 + k];
                        let e = dir.entries@[oldlen + k];
                        &&& (#[trigger] outcomes@[k]) is Committed
                        &&& w.body@ == job.body@
                        &&& w.bucket@ == targets[k].bucket@
                        &&& w.key@ == job.logical.key@
                        &&& e.bucket@ == job.logical.bucket@
                        &&& e.key@ == job.logical.key@
                        &&& e.version == job.logical.version
                        &&& e.locator.tag@ == targets[k].name@
                        &&& e.status is Ready
                        &&& e.locator.size matches Some(sz) && sz == job.body@.len()
                        &&& e.locator.etag == Some(w.etag)
                        &&& e.locator.last_modified == Some(w.last_modified)
                        &&& e.locator.version_id == w.version_id
                    })
            },
        decreases tasks@.len(),
    {
        let ghost done = outcomes@.len() as int;
        let ghost pre = *dir;
        let task = tasks.remove(0);
        proof {
            if accepts0 {
                assert(task.locator == locs[done]);
                assert(pre.entries@[oldlen + done].locator.id == task.locator.id);
                assert(pre.entries@[oldlen + done].status is Pending);
                crate::directory::lemma_find_pending_characterizes(
                    pre.entries@,
                    task.locator.id,
                );
                if find_pending(pre.entries@, task.locator.id) is None {
                    assert(!(pre.entries@[oldlen + done].locator.id == task.locator.id
                        && pre.entries@[oldlen + done].status is Pending));
                    assert(false);
                }
            }
        }
        let outcome = replicate_target(task, dir, store);
        proof {
            if accepts0 {
                let ci = find_pending(pre.entries@, task.locator.id)->Some_0;
                assert(pre.entries@[ci].locator.id == task.locator.id);
                if ci != oldlen + done {
                    assert(pre.entries@[ci].locator.id != pre.entries@[oldlen
                        + done].locator.id);
                    assert(false);
                }
            }
        }
        outcomes.push(outcome);
    }
    proof {
        if accepts0 && targets.len() > 0 {
            let l0 = locs[0];
            assert(l0.tag@ == targets[0].name@);
            assert(entry_matches(
                dir.entries@[oldlen],
                job.logical.bucket@,
                job.logical.key@,
                job.logical.version,
            ));
            assert(dir.entries@[oldlen].locator.tag@ == targets[0].name@);
            assert(tag_among_targets(dir.upload_targets@, dir.entries@[oldlen].locator.tag@))
                by {
                assert(dir.upload_targets@[0].name@ == targets[0].name@);
            }
            lemma_reservation_is_exclusive(
                *dir,
                job.logical.bucket@,
                job.logical.key@,
                job.logical.version,
                oldlen,
            );
        }
    }
    outcomes
}

} // verus!
