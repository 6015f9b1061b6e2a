//! The worker's decision core. A worker loops forever: poll the store for a
//! claimable job, execute it, record the outcome. The loop itself performs
//! the outside work, handing each claimed job's kind and payload out and the
//! outcome back; everything the loop decides is here, and one bad job can
//! only ever mark itself failed.

use vstd::prelude::*;
use crate::registry::{dispatch_spec, JobKind, JobRegistry};
use crate::store::{
    claim_model, completed_model, fail_model, failed_model, oldest_eligible, JobStore,
};

verus! {

/// What a worker must do after one poll of the store.
pub enum WorkerAction {
    /// No job was claimable: sleep a short backoff and poll again.
    Idle,
    /// A job was claimed and its name resolved: execute the handler on the
    /// payload, then record the outcome under `job_id`.
    Execute { job_id: usize, kind: JobKind, payload: String },
    /// A job was claimed but its name is not registered: fatal to the job,
    /// not to the worker. It has already been marked permanently failed.
    UnknownJob { job_id: usize },
}

/// The outcome a worker records after executing a claimed job.
pub enum JobOutcome {
    Success,
    /// A transient failure (a network timeout, an external API error):
    /// re-enqueued while the job is under the retry ceiling.
    TransientFailure(String),
    /// A permanent failure (a payload that cannot be read): never retried.
    PermanentFailure(String),
}

/// One poll: claim the oldest claimable job, if any, and resolve its name
/// in the dispatch table. An unknown name marks the job permanently failed
/// and the poll reports it, so the loop goes on.
pub fn worker_poll(store: &mut JobStore, registry: &JobRegistry, now: i64) -> (a: WorkerAction)
    requires
        old(store)@.wf(),
    ensures
        final(store)@.wf(),
        final(store)@.retry_ceiling == old(store)@.retry_ceiling,
        final(store)@.claim_timeout == old(store)@.claim_timeout,
        ({
            let picked = oldest_eligible(old(store)@.jobs, now as int, old(store)@.claim_timeout);
            match picked {
                None => final(store)@ == old(store)@ && a is Idle,
                Some(i) => {
                    let claimed = claim_model(old(store)@, i, now as int);
                    match dispatch_spec(registry@, old(store)@.jobs[i].name) {
                        Some(k) => {
                            &&& a matches WorkerAction::Execute { job_id, kind, payload }
                                && job_id == i && kind == k && payload@ == old(
                                store,
                            )@.jobs[i].payload
                            &&& final(store)@ == claimed
                        },
                        None => {
                            &&& a matches WorkerAction::UnknownJob { job_id } && job_id == i
                            &&& final(store)@.jobs == claimed.jobs.update(
                                i,
                                failed_model(claimed.jobs[i], "unknown job name"@, now as int),
                            )
                        },
                    }
                },
            }
        }),
{
    let ghost m0 = old(store)@;
    match store.claim_next(now) {
        None => WorkerAction::Idle,
        Some(job) => {
            proof {
                crate::store::lemma_oldest_eligible_upto_sound(
                    m0.jobs,
                    now as int,
                    m0.claim_timeout,
                    m0.jobs.len() as int,
                );
                let picked = oldest_eligible(m0.jobs, now as int, m0.claim_timeout);
                let i = picked->0;
                assert(0 <= i < m0.jobs.len());
                assert(m0.jobs[i].id == i);
                assert(job@.id == i);
                assert(job@.name == m0.jobs[i].name);
            }
            match registry.dispatch(&job.name) {
                Some(kind) => WorkerAction::Execute {
                    job_id: job.id,
                    kind,
                    payload: job.payload,
                },
                None => {
                    store.mark_failed_permanent(job.id, "unknown job name".to_string(), now);
                    WorkerAction::UnknownJob { job_id: job.id }
                },
            }
        },
    }
}

/// Records what executing a claimed job came to: success completes it, a
/// transient failure fails it under the retry policy, a permanent failure
/// fails it with no retry.
pub fn record_outcome(store: &mut JobStore, job_id: usize, outcome: JobOutcome, now: i64)
    requires
        old(store)@.wf(),
        job_id < old(store)@.jobs.len(),
        old(store)@.jobs[job_id as int].status is Running,
    ensures
        final(store)@.wf(),
        final(store)@.retry_ceiling == old(store)@.retry_ceiling,
        final(store)@.claim_timeout == old(store)@.claim_timeout,
        match outcome {
            JobOutcome::Success => final(store)@.jobs == old(store)@.jobs.update(
                job_id as int,
                completed_model(old(store)@.jobs[job_id as int], now as int),
            ),
            JobOutcome::TransientFailure(e) => final(store)@ == fail_model(
                old(store)@,
                job_id as int,
                e@,
                now as int,
            ),
            JobOutcome::PermanentFailure(e) => final(store)@.jobs == old(store)@.jobs.update(
                job_id as int,
                failed_model(old(store)@.jobs[job_id as int], e@, now as int),
            ),
        },
{
    match outcome {
        JobOutcome::Success => store.mark_completed(job_id, now),
        JobOutcome::TransientFailure(e) => store.mark_failed(job_id, e, now),
        JobOutcome::PermanentFailure(e) => store.mark_failed_permanent(job_id, e, now),
    }
}

} // verus!
