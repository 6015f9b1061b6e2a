use domains::store::{JobStatus, JobStore};
use domains::registry::{job_registry, JobKind};
use domains::worker::{record_outcome, worker_poll, JobOutcome, WorkerAction};

#[test]
fn enqueue_assigns_dense_ids_and_pending_status() {
    let mut store = JobStore::new(3, 60);
    let a = store.enqueue("RefreshDomains".to_string(), String::new(), "cron".to_string(), 100);
    let b = store.enqueue("RefreshDomains".to_string(), String::new(), "cron".to_string(), 101);
    assert_eq!(a, 0);
    assert_eq!(b, 1);
    assert_eq!(store.len(), 2);
    let job = store.job(0);
    assert_eq!(job.id, 0);
    assert_eq!(job.name, "RefreshDomains");
    assert_eq!(job.status, JobStatus::Pending);
    assert_eq!(job.enqueued_at, 100);
    assert_eq!(job.locked_at, None);
    assert_eq!(job.completed_at, None);
    assert_eq!(job.retry_count, 0);
}

#[test]
fn claim_takes_oldest_pending_first() {
    let mut store = JobStore::new(3, 60);
    store.enqueue("A".to_string(), String::new(), "c".to_string(), 200);
    store.enqueue("B".to_string(), String::new(), "c".to_string(), 150);
    let claimed = store.claim_next(300).expect("a job is claimable");
    assert_eq!(claimed.id, 1);
    assert_eq!(claimed.name, "B");
    assert_eq!(claimed.status, JobStatus::Running);
    assert_eq!(claimed.locked_at, Some(300));
}

#[test]
fn claim_ties_break_by_enqueue_order() {
    let mut store = JobStore::new(3, 60);
    store.enqueue("A".to_string(), String::new(), "c".to_string(), 100);
    store.enqueue("B".to_string(), String::new(), "c".to_string(), 100);
    let claimed = store.claim_next(200).expect("a job is claimable");
    assert_eq!(claimed.id, 0);
}

#[test]
fn concurrent_claims_take_distinct_jobs() {
    // Two workers polling the same store: each job is handed to exactly one.
    let mut store = JobStore::new(3, 60);
    store.enqueue("A".to_string(), String::new(), "c".to_string(), 100);
    store.enqueue("B".to_string(), String::new(), "c".to_string(), 100);
    let first = store.claim_next(200).expect("first worker claims");
    let second = store.claim_next(200).expect("second worker claims");
    assert_ne!(first.id, second.id);
    assert!(store.claim_next(200).is_none());
}

#[test]
fn unexpired_claim_is_not_handed_out_again() {
    let mut store = JobStore::new(3, 60);
    store.enqueue("A".to_string(), String::new(), "c".to_string(), 100);
    let first = store.claim_next(100).expect("claimable");
    assert_eq!(first.id, 0);
    assert!(store.claim_next(159).is_none());
}

#[test]
fn stale_claim_is_reclaimable_after_timeout() {
    let mut store = JobStore::new(3, 60);
    store.enqueue("A".to_string(), String::new(), "c".to_string(), 100);
    store.claim_next(100).expect("claimable");
    let reclaimed = store.claim_next(160).expect("stale lock expired");
    assert_eq!(reclaimed.id, 0);
    assert_eq!(reclaimed.locked_at, Some(160));
}

#[test]
fn completed_and_failed_jobs_are_never_claimed() {
    let mut store = JobStore::new(3, 60);
    store.enqueue("A".to_string(), String::new(), "c".to_string(), 100);
    store.claim_next(100).unwrap();
    store.mark_completed(0, 110);
    assert_eq!(store.job(0).status, JobStatus::Completed);
    assert_eq!(store.job(0).completed_at, Some(110));
    assert!(store.claim_next(1000).is_none());
}

#[test]
fn failed_job_under_ceiling_is_reenqueued_with_same_payload() {
    let mut store = JobStore::new(3, 60);
    store.enqueue(
        "RefreshDomainNameservers".to_string(),
        "example.com".to_string(),
        "bulk".to_string(),
        100,
    );
    store.claim_next(100).unwrap();
    store.mark_failed(0, "network timeout".to_string(), 110);
    assert_eq!(store.len(), 2);
    assert_eq!(store.job(0).status, JobStatus::Failed);
    assert_eq!(store.job(0).error, Some("network timeout".to_string()));
    let retry = store.job(1);
    assert_eq!(retry.status, JobStatus::Pending);
    assert_eq!(retry.name, "RefreshDomainNameservers");
    assert_eq!(retry.payload, "example.com");
    assert_eq!(retry.context, "bulk");
    assert_eq!(retry.retry_count, 1);
    assert_eq!(retry.enqueued_at, 110);
}

#[test]
fn always_failing_job_stops_at_retry_ceiling() {
    // Retry ceiling 2: attempts with counts 0, 1, 2 each fail; the last
    // failure enqueues nothing and the lineage stays Failed for good.
    let mut store = JobStore::new(2, 60);
    store.enqueue("A".to_string(), "p".to_string(), "c".to_string(), 0);
    let mut now: i64 = 0;
    loop {
        now += 10;
        match store.claim_next(now) {
            Some(job) => store.mark_failed(job.id, "boom".to_string(), now),
            None => break,
        }
    }
    assert_eq!(store.len(), 3);
    for i in 0..3 {
        assert_eq!(store.job(i).status, JobStatus::Failed);
        assert_eq!(store.job(i).retry_count, i as u32);
    }
    assert!(store.claim_next(1_000_000).is_none());
}

#[test]
fn permanent_failure_is_never_retried() {
    let mut store = JobStore::new(5, 60);
    store.enqueue("A".to_string(), String::new(), "c".to_string(), 100);
    store.claim_next(100).unwrap();
    store.mark_failed_permanent(0, "bad payload".to_string(), 110);
    assert_eq!(store.len(), 1);
    assert_eq!(store.job(0).status, JobStatus::Failed);
    assert!(store.claim_next(1000).is_none());
}

#[test]
fn worker_poll_idles_on_empty_store() {
    let mut store = JobStore::new(3, 60);
    let registry = job_registry();
    assert!(matches!(worker_poll(&mut store, &registry, 100), WorkerAction::Idle));
}

#[test]
fn worker_poll_resolves_registered_job() {
    let mut store = JobStore::new(3, 60);
    let registry = job_registry();
    store.enqueue(
        "RefreshDomainNameservers".to_string(),
        "example.com".to_string(),
        "bulk".to_string(),
        100,
    );
    match worker_poll(&mut store, &registry, 100) {
        WorkerAction::Execute { job_id, kind, payload } => {
            assert_eq!(job_id, 0);
            assert_eq!(kind, JobKind::RefreshDomainNameservers);
            assert_eq!(payload, "example.com");
        }
        other => panic!("expected Execute, got {:?}", kind_of(&other)),
    }
    assert_eq!(store.job(0).status, JobStatus::Running);
    record_outcome(&mut store, 0, JobOutcome::Success, 110);
    assert_eq!(store.job(0).status, JobStatus::Completed);
}

fn kind_of(a: &WorkerAction) -> &'static str {
    match a {
        WorkerAction::Idle => "Idle",
        WorkerAction::Execute { .. } => "Execute",
        WorkerAction::UnknownJob { .. } => "UnknownJob",
    }
}

#[test]
fn worker_poll_fails_unknown_job_permanently_and_goes_on() {
    let mut store = JobStore::new(3, 60);
    let registry = job_registry();
    store.enqueue("NoSuchJob".to_string(), String::new(), "c".to_string(), 100);
    store.enqueue("RefreshDomains".to_string(), String::new(), "cron".to_string(), 100);
    match worker_poll(&mut store, &registry, 100) {
        WorkerAction::UnknownJob { job_id } => assert_eq!(job_id, 0),
        _ => panic!("expected UnknownJob"),
    }
    assert_eq!(store.job(0).status, JobStatus::Failed);
    assert_eq!(store.len(), 2);
    match worker_poll(&mut store, &registry, 101) {
        WorkerAction::Execute { job_id, kind, .. } => {
            assert_eq!(job_id, 1);
            assert_eq!(kind, JobKind::RefreshDomains);
        }
        _ => panic!("expected Execute"),
    }
}

#[test]
fn transient_failure_outcome_follows_retry_policy() {
    let mut store = JobStore::new(1, 60);
    store.enqueue("A".to_string(), "p".to_string(), "c".to_string(), 0);
    store.claim_next(0).unwrap();
    record_outcome(&mut store, 0, JobOutcome::TransientFailure("late".to_string()), 5);
    assert_eq!(store.len(), 2);
    assert_eq!(store.job(1).retry_count, 1);
    store.claim_next(10).unwrap();
    record_outcome(&mut store, 1, JobOutcome::TransientFailure("late".to_string()), 15);
    assert_eq!(store.len(), 2);
    record_outcome_permanent_check(&store);
}

fn record_outcome_permanent_check(store: &JobStore) {
    assert_eq!(store.job(0).status, JobStatus::Failed);
    assert_eq!(store.job(1).status, JobStatus::Failed);
}
