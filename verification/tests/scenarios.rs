use skystore::directory::DirectoryService;
use skystore::driver::get_object;
use skystore::driver::replicate_target;
use skystore::driver::run_replication;
use skystore::errors::ReadError;
use skystore::models::LocateObjectResponse;
use skystore::models::PhysicalLocation;
use skystore::models::Status;
use skystore::read_path::LogicalObjectRef;
use skystore::replication::replication_plan;
use skystore::replication::start_upload_request;
use skystore::replication::target_step;
use skystore::replication::TargetEvent;
use skystore::replication::TargetState;
use skystore::store::MemoryStore;
use skystore::store::StoreOp;

const EAST: &str = "aws:us-east-1";
const WEST: &str = "azure:westus2";

fn east_location() -> PhysicalLocation {
    PhysicalLocation::new(
        EAST.to_string(),
        "aws".to_string(),
        "us-east-1".to_string(),
        "east-backing".to_string(),
    )
}

fn west_location() -> PhysicalLocation {
    PhysicalLocation::new(
        WEST.to_string(),
        "azure".to_string(),
        "westus2".to_string(),
        "west-backing".to_string(),
    )
}

fn remote_locator(bucket: &str, key: &str) -> LocateObjectResponse {
    LocateObjectResponse::new(
        0,
        WEST.to_string(),
        "azure".to_string(),
        bucket.to_string(),
        "westus2".to_string(),
        key.to_string(),
    )
}

/// Resolver returns none: the handler reports absence and no downstream
/// call is even attempted.
#[test]
fn scenario_missing_key_is_not_found_with_zero_downstream_calls() {
    let dir = DirectoryService::new(vec![east_location()]);
    let mut east = MemoryStore::new(EAST.to_string());
    let mut west = MemoryStore::new(WEST.to_string());

    let r = get_object(
        &"b".to_string(),
        &"missing".to_string(),
        None,
        true,
        &EAST.to_string(),
        &dir,
        &mut east,
        &mut west,
    );
    assert!(matches!(r, Err(ReadError::NotFound)));

    assert!(east.log.is_empty());
    assert!(west.log.is_empty());
    assert!(dir.upload_log.is_empty());
    assert!(dir.complete_calls.is_empty());
}

/// Locator tag equals the local tag: one get, body unmodified, version
/// rewritten to the logical version, no background task.
#[test]
fn scenario_local_copy_served_straight_through() {
    let mut dir = DirectoryService::new(vec![east_location()]);
    let mut east = MemoryStore::new(EAST.to_string());
    let mut west = MemoryStore::new(WEST.to_string());

    let body = vec![1u8, 2, 3, 4, 5];
    east.put(&"east-backing".to_string(), &"pk".to_string(), body.clone());
    let mut seeded = remote_locator("east-backing", "pk");
    seeded.tag = EAST.to_string();
    dir.seed_ready("b".to_string(), "k".to_string(), Some(7), seeded);
    let log_after_seed = east.log.len();

    let (response, job) = get_object(
        &"b".to_string(),
        &"k".to_string(),
        Some(7),
        true,
        &EAST.to_string(),
        &dir,
        &mut east,
        &mut west,
    )
    .unwrap();

    assert!(job.is_none());
    assert_eq!(response.body, body);
    assert_eq!(response.content_length, body.len() as u64);
    assert_eq!(response.version_id, Some(7));
    // exactly one get was issued, and nothing was reserved or committed
    assert_eq!(east.log.len(), log_after_seed + 1);
    assert_eq!(east.log.last(), Some(&StoreOp::Get));
    assert!(west.log.is_empty());
    assert!(dir.upload_log.is_empty());
    assert!(dir.complete_calls.is_empty());
}

/// Pull-through: one remote get, two independent buffers, the response
/// returns with one of them, the other drives reserve, put, head and commit
/// in that order against the local target.
#[test]
fn scenario_pull_through_replicates_to_local_region() {
    let mut dir = DirectoryService::new(vec![east_location()]);
    let mut east = MemoryStore::new(EAST.to_string());
    let mut west = MemoryStore::new(WEST.to_string());

    let body = vec![9u8, 8, 7, 6];
    west.put(&"west-backing".to_string(), &"k".to_string(), body.clone());
    dir.seed_ready("b".to_string(), "k".to_string(), None, remote_locator("west-backing", "k"));
    let west_log_before = west.log.len();

    let (response, job) = get_object(
        &"b".to_string(),
        &"k".to_string(),
        None,
        true,
        &EAST.to_string(),
        &dir,
        &mut east,
        &mut west,
    )
    .unwrap();
    let job = job.expect("a pull-through read spawns exactly one replication job");

    // one get against the remote region, none against the local one yet
    assert_eq!(west.log.len(), west_log_before + 1);
    assert_eq!(west.log.last(), Some(&StoreOp::Get));
    assert!(east.log.is_empty());

    // the client-visible body equals the remote source body byte for byte
    assert_eq!(response.body, body);
    assert_eq!(job.body, body);

    // the background task: reserve, then per target put, head, commit
    let outcomes = run_replication(job, &mut dir, &mut east);
    assert_eq!(outcomes.len(), 1);
    assert!(matches!(outcomes[0], TargetState::Committed));
    assert_eq!(east.log, vec![StoreOp::Put, StoreOp::Head]);
    assert_eq!(dir.upload_log.len(), 1);
    assert!(dir.upload_log[0].accepted);
    assert_eq!(dir.complete_calls.len(), 1);

    // round trip: the committed metadata equals a fresh head of the copy
    let entry = dir
        .entries
        .iter()
        .find(|e| e.locator.tag == EAST)
        .expect("a local copy was committed");
    assert!(matches!(entry.status, Status::Ready));
    let meta = east
        .head(&"east-backing".to_string(), &"k".to_string(), &None)
        .unwrap();
    assert_eq!(entry.locator.size, Some(meta.size));
    assert_eq!(meta.size, body.len() as u64);
    assert_eq!(entry.locator.etag.as_ref(), Some(&meta.etag));
    assert_eq!(entry.locator.last_modified.as_ref(), Some(&meta.last_modified));
    assert_eq!(entry.locator.version_id, meta.version_id);
}

/// Two concurrent pull-through reads of the same key: start_upload is called
/// twice, only one observes an accepted reservation, and the loser performs
/// no put and no commit.
#[test]
fn scenario_racing_reads_reserve_at_most_once() {
    let mut dir = DirectoryService::new(vec![east_location()]);
    let mut east = MemoryStore::new(EAST.to_string());

    let logical = LogicalObjectRef {
        bucket: "b".to_string(),
        key: "k".to_string(),
        version: None,
    };
    let body = vec![1u8, 2, 3];

    // both requests reserve before either upload finishes
    let req = start_upload_request(&logical, &EAST.to_string());
    let first = dir.start_upload(&req);
    let second = dir.start_upload(&req);
    assert!(first.is_ok());
    assert!(second.is_err());
    // a copy that is mid-upload is not readable: the read path sees absence
    assert!(dir.locate_object(&"b".to_string(), &"k".to_string(), None).is_none());
    assert_eq!(dir.upload_log.len(), 2);
    assert!(dir.upload_log[0].accepted);
    assert!(!dir.upload_log[1].accepted);

    // the loser plans no work at all
    let losing_tasks = replication_plan(second, body.clone());
    assert!(losing_tasks.is_empty());

    // the winner drives its single target to ready
    let mut winning_tasks = replication_plan(first, body.clone());
    assert_eq!(winning_tasks.len(), 1);
    let outcome = replicate_target(winning_tasks.remove(0), &mut dir, &mut east);
    assert!(matches!(outcome, TargetState::Committed));

    // exactly one locator went pending to ready, with one put and one commit
    assert_eq!(east.log, vec![StoreOp::Put, StoreOp::Head]);
    assert_eq!(dir.complete_calls.len(), 1);
    let ready: Vec<_> = dir
        .entries
        .iter()
        .filter(|e| matches!(e.status, Status::Ready))
        .collect();
    assert_eq!(ready.len(), 1);

    // a later read for the same key is refused a reservation as well
    let third = dir.start_upload(&req);
    assert!(third.is_err());

    // so is a reservation from any other region: once a copy exists at a
    // placement target, nobody reserves this identity again
    let logical_elsewhere = LogicalObjectRef {
        bucket: "b".to_string(),
        key: "k".to_string(),
        version: None,
    };
    let req_elsewhere = start_upload_request(&logical_elsewhere, &WEST.to_string());
    assert!(dir.start_upload(&req_elsewhere).is_err());
}

/// A put fails for one of two replication targets: the other target still
/// reaches ready; the failed one stays pending and is not retried.
#[test]
fn scenario_one_failing_target_does_not_abort_the_other() {
    let mut dir = DirectoryService::new(vec![east_location(), west_location()]);
    let mut east = MemoryStore::new(EAST.to_string());

    let logical = LogicalObjectRef {
        bucket: "b".to_string(),
        key: "k".to_string(),
        version: None,
    };
    let body = vec![4u8, 4, 4];

    let req = start_upload_request(&logical, &EAST.to_string());
    let reservation = dir.start_upload(&req);
    let mut tasks = replication_plan(reservation, body.clone());
    assert_eq!(tasks.len(), 2);

    // the west target's write fails; the shell reports it as an event
    let west_task = tasks.pop().unwrap();
    let west_id = west_task.locator.id;
    let (west_state, west_action) =
        target_step(TargetState::Reserved, &west_task.locator, TargetEvent::PutFailed);
    assert!(matches!(west_state, TargetState::Failed { .. }));
    assert!(west_action.is_none());

    // the east target is driven to completion regardless
    let east_task = tasks.pop().unwrap();
    let east_id = east_task.locator.id;
    let outcome = replicate_target(east_task, &mut dir, &mut east);
    assert!(matches!(outcome, TargetState::Committed));

    // east is ready with one commit; west stays pending, uncommitted
    assert_eq!(dir.complete_calls, vec![east_id]);
    let east_entry = dir.entries.iter().find(|e| e.locator.id == east_id).unwrap();
    assert!(matches!(east_entry.status, Status::Ready));
    let west_entry = dir.entries.iter().find(|e| e.locator.id == west_id).unwrap();
    assert!(matches!(west_entry.status, Status::Pending));
}

/// A locator transitions pending to ready exactly once: committing the same
/// locator twice is refused and changes nothing.
#[test]
fn scenario_commit_is_not_repeatable() {
    let mut dir = DirectoryService::new(vec![east_location()]);
    let mut east = MemoryStore::new(EAST.to_string());

    let logical = LogicalObjectRef {
        bucket: "b".to_string(),
        key: "k".to_string(),
        version: None,
    };
    let req = start_upload_request(&logical, &EAST.to_string());
    let reservation = dir.start_upload(&req);
    let mut tasks = replication_plan(reservation, vec![1u8]);
    let task = tasks.remove(0);
    let id = task.locator.id;
    let outcome = replicate_target(task, &mut dir, &mut east);
    assert!(matches!(outcome, TargetState::Committed));

    let etag_before = dir
        .entries
        .iter()
        .find(|e| e.locator.id == id)
        .unwrap()
        .locator
        .etag
        .clone();

    let again = dir.complete_upload(&skystore::models::PatchUploadIsCompleted {
        id,
        size: 999,
        etag: "forged".to_string(),
        last_modified: "later".to_string(),
        version_id: None,
    });
    assert!(again.is_err());
    let etag_after = dir
        .entries
        .iter()
        .find(|e| e.locator.id == id)
        .unwrap()
        .locator
        .etag
        .clone();
    assert_eq!(etag_before, etag_after);
    assert_ne!(etag_after.as_deref(), Some("forged"));
}

/// An existence check reports the record's lifecycle state: pending while
/// mid-upload, ready once committed, absent otherwise.
#[test]
fn scenario_head_object_reports_lifecycle() {
    let mut dir = DirectoryService::new(vec![east_location()]);
    let mut east = MemoryStore::new(EAST.to_string());

    assert!(dir.head_object(&"b".to_string(), &"k".to_string(), None).is_none());

    let logical = LogicalObjectRef {
        bucket: "b".to_string(),
        key: "k".to_string(),
        version: None,
    };
    let req = start_upload_request(&logical, &EAST.to_string());
    let reservation = dir.start_upload(&req);
    let status = dir.head_object(&"b".to_string(), &"k".to_string(), None).unwrap();
    assert!(matches!(status.status, Status::Pending));

    let mut tasks = replication_plan(reservation, vec![1u8, 2]);
    let outcome = replicate_target(tasks.remove(0), &mut dir, &mut east);
    assert!(matches!(outcome, TargetState::Committed));
    let status = dir.head_object(&"b".to_string(), &"k".to_string(), None).unwrap();
    assert!(matches!(status.status, Status::Ready));
}

/// Version selection is exact: a read for a version the directory has no
/// record of is absent, with no fallback to the current version.
#[test]
fn scenario_version_is_exact_match_only() {
    let mut dir = DirectoryService::new(vec![east_location()]);
    let mut seeded = remote_locator("west-backing", "k");
    seeded.tag = EAST.to_string();
    dir.seed_ready("b".to_string(), "k".to_string(), Some(3), seeded);

    assert!(dir.locate_object(&"b".to_string(), &"k".to_string(), Some(3)).is_some());
    assert!(dir.locate_object(&"b".to_string(), &"k".to_string(), Some(4)).is_none());
    assert!(dir.locate_object(&"b".to_string(), &"k".to_string(), None).is_none());
}
