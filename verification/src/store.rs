//! The durable job store: a table of jobs with exclusive, time-bounded
//! claims, terminal transitions, and a bounded retry policy.
//!
//! Every operation is specified against `StoreModel`, a mathematical view of
//! the store, so that laws about claiming and retrying can be stated and
//! proved over the model alone.

use vstd::prelude::*;
use crate::strutil::{opt_int, opt_str};

verus! {

#[derive(Clone, Copy, PartialEq, Eq, Structural, Debug)]
pub enum JobStatus {
    Pending,
    Running,
    Completed,
    Failed,
}

/// A persisted job record. Ids are assigned densely at enqueue time, so a
/// job's id equals its index in the store.
#[derive(Debug)]
pub struct Job {
    pub id: usize,
    pub name: String,
    pub payload: String,
    pub status: JobStatus,
    pub enqueued_at: i64,
    pub locked_at: Option<i64>,
    pub completed_at: Option<i64>,
    pub context: String,
    pub retry_count: u32,
    pub error: Option<String>,
}

/// The mathematical view of one job record.
#[verifier::ext_equal]
pub struct JobModel {
    pub id: int,
    pub name: Seq<char>,
    pub payload: Seq<char>,
    pub status: JobStatus,
    pub enqueued_at: int,
    pub locked_at: Option<int>,
    pub completed_at: Option<int>,
    pub context: Seq<char>,
    pub retry_count: int,
    pub error: Option<Seq<char>>,
}

impl View for Job {
    type V = JobModel;

    open spec fn view(&self) -> JobModel {
        JobModel {
            id: self.id as int,
            name: self.name@,
            payload: self.payload@,
            status: self.status,
            enqueued_at: self.enqueued_at as int,
            locked_at: opt_int(self.locked_at),
            completed_at: opt_int(self.completed_at),
            context: self.context@,
            retry_count: self.retry_count as int,
            error: opt_str(self.error),
        }
    }
}

impl Clone for Job {
    fn clone(&self) -> (r: Self)
        ensures
            r@ == self@,
    {
        let r = Job {
            id: self.id,
            name: self.name.clone(),
            payload: self.payload.clone(),
            status: self.status,
            enqueued_at: self.enqueued_at,
            locked_at: self.locked_at,
            completed_at: self.completed_at,
            context: self.context.clone(),
            retry_count: self.retry_count,
            error: match &self.error {
                Some(e) => Some(e.clone()),
                None => None,
            },
        };
        proof {
            assert(r@ =~= self@);
        }
        r
    }
}

/// The job store: all jobs ever enqueued, plus the retry ceiling and the
/// claim timeout it was configured with. A deployment shares one store
/// among all workers behind a lock, so each `claim_next` call is a single
/// atomic step: that, with the claim laws below, is what keeps two workers
/// off the same job.
#[derive(Debug)]
pub struct JobStore {
    jobs: Vec<Job>,
    retry_ceiling: u32,
    claim_timeout: i64,
}

/// The mathematical view of the whole store.
#[verifier::ext_equal]
pub struct StoreModel {
    pub jobs: Seq<JobModel>,
    pub retry_ceiling: int,
    pub claim_timeout: int,
}

impl View for JobStore {
    type V = StoreModel;

    closed spec fn view(&self) -> StoreModel {
        StoreModel {
            jobs: self.jobs@.map_values(|j: Job| j@),
            retry_ceiling: self.retry_ceiling as int,
            claim_timeout: self.claim_timeout as int,
        }
    }
}

impl StoreModel {
    /// Well-formedness: a positive claim timeout, ids equal to indices, and
    /// every running job carrying the time its claim was taken.
    pub open spec fn wf(self) -> bool {
        &&& self.claim_timeout > 0
        &&& forall|i: int| 0 <= i < self.jobs.len() ==> (#[trigger] self.jobs[i]).id == i
        &&& forall|i: int|
            0 <= i < self.jobs.len() ==> ((#[trigger] self.jobs[i]).status is Running
                ==> self.jobs[i].locked_at is Some)
    }
}

/// A freshly enqueued pending job.
pub open spec fn pending_job(
    id: int,
    name: Seq<char>,
    payload: Seq<char>,
    context: Seq<char>,
    now: int,
    retry_count: int,
) -> JobModel {
    JobModel {
        id,
        name,
        payload,
        status: JobStatus::Pending,
        enqueued_at: now,
        locked_at: None,
        completed_at: None,
        context,
        retry_count,
        error: None,
    }
}

/// A job is eligible for claiming when it is pending, or when it is running
/// but its claim is stale: taken at least `timeout` seconds ago.
pub open spec fn eligible(j: JobModel, now: int, timeout: int) -> bool {
    ||| j.status is Pending
    ||| (j.status is Running && match j.locked_at {
        Some(l) => now - l >= timeout,
        None => false,
    })
}

/// The index of the job `claim_next` takes among the first `n`: the eligible
/// job with the smallest `enqueued_at`, earliest index on ties.
pub open spec fn oldest_eligible_upto(
    jobs: Seq<JobModel>,
    now: int,
    timeout: int,
    n: int,
) -> Option<int>
    decreases n,
{
    if n <= 0 {
        None
    } else {
        let prev = oldest_eligible_upto(jobs, now, timeout, n - 1);
        if eligible(jobs[n - 1], now, timeout) {
            match prev {
                None => Some(n - 1),
                Some(i) => if jobs[i].enqueued_at <= jobs[n - 1].enqueued_at {
                    Some(i)
                } else {
                    Some(n - 1)
                },
            }
        } else {
            prev
        }
    }
}

/// The index of the job `claim_next` takes, if any.
pub open spec fn oldest_eligible(jobs: Seq<JobModel>, now: int, timeout: int) -> Option<int> {
    oldest_eligible_upto(jobs, now, timeout, jobs.len() as int)
}

/// The claimed version of a job: running, with the claim stamped at `now`.
pub open spec fn claimed_model(j: JobModel, now: int) -> JobModel {
    JobModel { status: JobStatus::Running, locked_at: Some(now), ..j }
}

/// The store after job `i` has been claimed at `now`.
pub open spec fn claim_model(m: StoreModel, i: int, now: int) -> StoreModel {
    StoreModel { jobs: m.jobs.update(i, claimed_model(m.jobs[i], now)), ..m }
}

/// The completed version of a job.
pub open spec fn completed_model(j: JobModel, now: int) -> JobModel {
    JobModel { status: JobStatus::Completed, completed_at: Some(now), ..j }
}

/// The failed version of a job, with the error recorded.
pub open spec fn failed_model(j: JobModel, error: Seq<char>, now: int) -> JobModel {
    JobModel { status: JobStatus::Failed, completed_at: Some(now), error: Some(error), ..j }
}

/// The fresh pending job that retries `j`, carrying the same name, payload
/// and context, with the attempt count incremented.
pub open spec fn retry_model(j: JobModel, id: int, now: int) -> JobModel {
    pending_job(id, j.name, j.payload, j.context, now, j.retry_count + 1)
}

/// The store after job `i` is failed at `now`: the job turns `Failed`, and a
/// retry is appended exactly when the job was still under the retry ceiling.
pub open spec fn fail_model(m: StoreModel, i: int, error: Seq<char>, now: int) -> StoreModel {
    let base = m.jobs.update(i, failed_model(m.jobs[i], error, now));
    if m.jobs[i].retry_count < m.retry_ceiling {
        StoreModel { jobs: base.push(retry_model(m.jobs[i], base.len() as int, now)), ..m }
    } else {
        StoreModel { jobs: base, ..m }
    }
}

/// Whether a job is currently claimable, computed without overflow by
/// widening to 128 bits.
fn is_eligible(j: &Job, now: i64, timeout: i64) -> (r: bool)
    ensures
        r == eligible(j@, now as int, timeout as int),
{
    match j.status {
        JobStatus::Pending => true,
        JobStatus::Running => match j.locked_at {
            Some(l) => (now as i128) - (l as i128) >= (timeout as i128),
            None => false,
        },
        JobStatus::Completed => false,
        JobStatus::Failed => false,
    }
}

/// The index `claim_next` will take, mirroring `oldest_eligible`.
fn find_oldest_eligible(jobs: &Vec<Job>, now: i64, timeout: i64) -> (r: Option<usize>)
    ensures
        ({
            let spec_r = oldest_eligible(jobs@.map_values(|j: Job| j@), now as int, timeout as int);
            match r {
                None => spec_r is None,
                Some(i) => spec_r == Some(i as int) && i < jobs.len(),
            }
        }),
{
    let ghost jm = jobs@.map_values(|j: Job| j@);
    let n = jobs.len();
    let mut best: Option<usize> = None;
    let mut idx: usize = 0;
    while idx < n
        invariant
            n == jobs.len(),
            jm == jobs@.map_values(|j: Job| j@),
            0 <= idx <= n,
            match best {
                None => oldest_eligible_upto(jm, now as int, timeout as int, idx as int) is None,
                Some(b) => b < n && oldest_eligible_upto(jm, now as int, timeout as int, idx as int)
                    == Some(b as int),
            },
        decreases n - idx,
    {
        if is_eligible(&jobs[idx], now, timeout) {
            match best {
                None => {
                    best = Some(idx);
                },
                Some(b) => {
                    if jobs[b].enqueued_at <= jobs[idx].enqueued_at {
                        // keep the earlier, at-least-as-old job
                    } else {
                        best = Some(idx);
                    }
                },
            }
        }
        idx += 1;
    }
    best
}

impl JobStore {
    /// An empty store with the given retry ceiling and claim timeout.
    pub fn new(retry_ceiling: u32, claim_timeout: i64) -> (s: JobStore)
        requires
            claim_timeout > 0,
        ensures
            s@.jobs.len() == 0,
            s@.retry_ceiling == retry_ceiling as int,
            s@.claim_timeout == claim_timeout as int,
            s@.wf(),
    {
        let s = JobStore { jobs: Vec::new(), retry_ceiling, claim_timeout };
        proof {
            assert(s@.jobs =~= Seq::<JobModel>::empty());
        }
        s
    }

    /// How many jobs the store has ever held (none are deleted).
    pub fn len(&self) -> (n: usize)
        ensures
            n == self@.jobs.len(),
    {
        self.jobs.len()
    }

    /// The job with id `i`.
    pub fn job(&self, i: usize) -> (j: &Job)
        requires
            i < self@.jobs.len(),
        ensures
            j@ == self@.jobs[i as int],
    {
        &self.jobs[i]
    }

    /// Inserts a fresh pending job and returns its id. Never blocks on, or
    /// alters, any other job.
    pub fn enqueue(&mut self, name: String, payload: String, context: String, now: i64) -> (id:
        usize)
        requires
            old(self)@.wf(),
        ensures
            final(self)@.wf(),
            id == old(self)@.jobs.len(),
            final(self)@.jobs == old(self)@.jobs.push(
                pending_job(old(self)@.jobs.len() as int, name@, payload@, context@, now as int, 0),
            ),
            final(self)@.retry_ceiling == old(self)@.retry_ceiling,
            final(self)@.claim_timeout == old(self)@.claim_timeout,
    {
        let id = self.jobs.len();
        let job = Job {
            id,
            name,
            payload,
            status: JobStatus::Pending,
            enqueued_at: now,
            locked_at: None,
            completed_at: None,
            context,
            retry_count: 0,
            error: None,
        };
        self.jobs.push(job);
        proof {
            assert(self@.jobs =~= old(self)@.jobs.push(
                pending_job(old(self)@.jobs.len() as int, self@.jobs.last().name,
                    self@.jobs.last().payload, self@.jobs.last().context, now as int, 0),
            ));
        }
        id
    }

    /// Atomically selects the oldest claimable job, if any: pending, or
    /// running past the claim timeout. Transitions it to `Running`, stamps
    /// `locked_at`, and returns a copy. No other job changes.
    pub fn claim_next(&mut self, now: i64) -> (r: Option<Job>)
        requires
            old(self)@.wf(),
        ensures
            final(self)@.wf(),
            final(self)@.retry_ceiling == old(self)@.retry_ceiling,
            final(self)@.claim_timeout == old(self)@.claim_timeout,
            ({
                let picked = oldest_eligible(old(self)@.jobs, now as int, old(self)@.claim_timeout);
                match picked {
                    None => final(self)@ == old(self)@ && r is None,
                    Some(i) => match r {
                        Some(job) => {
                            &&& job@ == claimed_model(old(self)@.jobs[i], now as int)
                            &&& final(self)@ == claim_model(old(self)@, i, now as int)
                        },
                        None => false,
                    },
                }
            }),
    {
        match find_oldest_eligible(&self.jobs, now, self.claim_timeout) {
            None => None,
            Some(i) => {
                self.jobs[i].status = JobStatus::Running;
                self.jobs[i].locked_at = Some(now);
                let job = self.jobs[i].clone();
                proof {
                    assert(self@.jobs =~= claim_model(old(self)@, i as int, now as int).jobs);
                }
                Some(job)
            },
        }
    }

    /// Terminal success transition for a claimed job.
    pub fn mark_completed(&mut self, id: usize, now: i64)
        requires
            old(self)@.wf(),
            id < old(self)@.jobs.len(),
            old(self)@.jobs[id as int].status is Running,
        ensures
            final(self)@.wf(),
            final(self)@.jobs == old(self)@.jobs.update(
                id as int,
                completed_model(old(self)@.jobs[id as int], now as int),
            ),
            final(self)@.retry_ceiling == old(self)@.retry_ceiling,
            final(self)@.claim_timeout == old(self)@.claim_timeout,
    {
        self.jobs[id].status = JobStatus::Completed;
        self.jobs[id].completed_at = Some(now);
        proof {
            assert(self@.jobs =~= old(self)@.jobs.update(
                id as int,
                completed_model(old(self)@.jobs[id as int], now as int),
            ));
        }
    }

    /// Terminal failure transition for a claimed job. The job turns
    /// `Failed`; if its attempt count is still under the retry ceiling, a
    /// fresh pending job with the same name, payload and context is
    /// enqueued, with the count incremented. At the ceiling, nothing is
    /// re-enqueued and the job stays `Failed`.
    pub fn mark_failed(&mut self, id: usize, error: String, now: i64)
        requires
            old(self)@.wf(),
            id < old(self)@.jobs.len(),
            old(self)@.jobs[id as int].status is Running,
        ensures
            final(self)@.wf(),
            final(self)@ == fail_model(old(self)@, id as int, error@, now as int),
    {
        let retry_needed = self.jobs[id].retry_count < self.retry_ceiling;
        self.jobs[id].status = JobStatus::Failed;
        self.jobs[id].completed_at = Some(now);
        self.jobs[id].error = Some(error);
        if retry_needed {
            let retry = Job {
                id: self.jobs.len(),
                name: self.jobs[id].name.clone(),
                payload: self.jobs[id].payload.clone(),
                status: JobStatus::Pending,
                enqueued_at: now,
                locked_at: None,
                completed_at: None,
                context: self.jobs[id].context.clone(),
                retry_count: self.jobs[id].retry_count + 1,
                error: None,
            };
            self.jobs.push(retry);
        }
        proof {
            assert(self@.jobs =~= fail_model(old(self)@, id as int, error@, now as int).jobs);
        }
    }

    /// Failure transition for conditions that must never be retried: the
    /// job turns `Failed` and nothing is re-enqueued, whatever its attempt
    /// count.
    pub fn mark_failed_permanent(&mut self, id: usize, error: String, now: i64)
        requires
            old(self)@.wf(),
            id < old(self)@.jobs.len(),
            old(self)@.jobs[id as int].status is Running,
        ensures
            final(self)@.wf(),
            final(self)@.jobs == old(self)@.jobs.update(
                id as int,
                failed_model(old(self)@.jobs[id as int], error@, now as int),
            ),
            final(self)@.retry_ceiling == old(self)@.retry_ceiling,
            final(self)@.claim_timeout == old(self)@.claim_timeout,
    {
        self.jobs[id].status = JobStatus::Failed;
        self.jobs[id].completed_at = Some(now);
        self.jobs[id].error = Some(error);
        proof {
            assert(self@.jobs =~= old(self)@.jobs.update(
                id as int,
                failed_model(old(self)@.jobs[id as int], error@, now as int),
            ));
        }
    }
}

/// The index of the `t`-th attempt of the lineage that starts at job `i0`
/// in `m`: attempt 0 is `i0` itself; attempt `t >= 1` is the `t`-th retry,
/// appended at the end of the store as it stood when the retry was made.
pub open spec fn attempt_idx(m: StoreModel, i0: int, t: int) -> int {
    if t == 0 {
        i0
    } else {
        m.jobs.len() + t - 1
    }
}

/// The store after the first `k` attempts of the lineage starting at `i0`
/// have each been claimed and failed, at `now` with message `error`.
pub open spec fn fail_chain(m: StoreModel, i0: int, error: Seq<char>, now: int, k: nat) -> StoreModel
    decreases k,
{
    if k == 0 {
        m
    } else {
        let prev = fail_chain(m, i0, error, now, (k - 1) as nat);
        fail_model(prev, attempt_idx(m, i0, k - 1), error, now)
    }
}

/// What `k` consecutive failures of one lineage do to the store: each failed
/// attempt `t` is left `Failed` with attempt count `t`, the live attempt (if
/// the ceiling is not yet reached) is a fresh pending job with count `k`,
/// retries stop at the ceiling, and no unrelated job is touched.
pub proof fn lemma_fail_chain(m: StoreModel, i0: int, error: Seq<char>, now: int, k: nat)
    requires
        m.wf(),
        0 <= i0 < m.jobs.len(),
        m.jobs[i0].retry_count == 0,
        m.retry_ceiling >= 0,
        k <= m.retry_ceiling + 1,
    ensures
        ({
            let ck = fail_chain(m, i0, error, now, k);
            let base = m.jobs.len() as int;
            let ceil = m.retry_ceiling;
            &&& ck.retry_ceiling == ceil
            &&& ck.claim_timeout == m.claim_timeout
            &&& ck.jobs.len() == base + (if k <= ceil { k as int } else { ceil })
            &&& forall|j: int| 0 <= j < base && j != i0 ==> ck.jobs[j] == m.jobs[j]
            &&& forall|t: int|
                0 <= t < k ==> {
                    let a = #[trigger] attempt_idx(m, i0, t);
                    &&& 0 <= a < ck.jobs.len()
                    &&& ck.jobs[a].status is Failed
                    &&& ck.jobs[a].retry_count == t
                    &&& ck.jobs[a].name == m.jobs[i0].name
                    &&& ck.jobs[a].payload == m.jobs[i0].payload
                    &&& ck.jobs[a].context == m.jobs[i0].context
                }
            &&& (1 <= k <= ceil ==> ck.jobs[attempt_idx(m, i0, k as int)] == pending_job(
                base + k - 1,
                m.jobs[i0].name,
                m.jobs[i0].payload,
                m.jobs[i0].context,
                now,
                k as int,
            ))
            &&& (k == 0 ==> ck == m)
        }),
    decreases k,
{
    if k > 0 {
        lemma_fail_chain(m, i0, error, now, (k - 1) as nat);
        let prev = fail_chain(m, i0, error, now, (k - 1) as nat);
        let a = attempt_idx(m, i0, k - 1);
        let ck = fail_model(prev, a, error, now);
        assert(ck == fail_chain(m, i0, error, now, k));
        if k == 1 {
            assert(prev == m);
            assert(prev.jobs[a].retry_count == 0);
        } else {
            assert(prev.jobs[a] == pending_job(
                m.jobs.len() + k - 2,
                m.jobs[i0].name,
                m.jobs[i0].payload,
                m.jobs[i0].context,
                now,
                k - 1,
            ));
        }
        assert forall|t: int| 0 <= t < k implies {
            let at = #[trigger] attempt_idx(m, i0, t);
            &&& 0 <= at < ck.jobs.len()
            &&& ck.jobs[at].status is Failed
            &&& ck.jobs[at].retry_count == t
            &&& ck.jobs[at].name == m.jobs[i0].name
            &&& ck.jobs[at].payload == m.jobs[i0].payload
            &&& ck.jobs[at].context == m.jobs[i0].context
        } by {
            let at = attempt_idx(m, i0, t);
            if t < k - 1 {
                assert(at != a);
            }
        }
    }
}

/// Law (retry ceiling): a job that fails on every attempt is re-enqueued
/// exactly `retry_ceiling` times. After the failure of the last retry, every
/// attempt of the lineage is `Failed` with attempt counts `0` through
/// `retry_ceiling`, the final failure enqueues nothing further, and no
/// unrelated job has changed.
pub proof fn lemma_retry_ceiling(m: StoreModel, i0: int, error: Seq<char>, now: int)
    requires
        m.wf(),
        0 <= i0 < m.jobs.len(),
        m.jobs[i0].retry_count == 0,
        m.retry_ceiling >= 0,
    ensures
        ({
            let end = fail_chain(m, i0, error, now, (m.retry_ceiling + 1) as nat);
            let base = m.jobs.len() as int;
            &&& end.jobs.len() == base + m.retry_ceiling
            &&& end.jobs.len() == fail_chain(m, i0, error, now, m.retry_ceiling as nat).jobs.len()
            &&& forall|t: int|
                0 <= t <= m.retry_ceiling ==> {
                    let a = #[trigger] attempt_idx(m, i0, t);
                    &&& 0 <= a < end.jobs.len()
                    &&& end.jobs[a].status is Failed
                    &&& end.jobs[a].retry_count == t
                }
            &&& forall|j: int| 0 <= j < base && j != i0 ==> end.jobs[j] == m.jobs[j]
        }),
{
    lemma_fail_chain(m, i0, error, now, (m.retry_ceiling + 1) as nat);
    lemma_fail_chain(m, i0, error, now, m.retry_ceiling as nat);
}

/// `oldest_eligible_upto` returns an eligible index, the oldest one; when it
/// returns nothing, no job in the prefix is eligible.
pub proof fn lemma_oldest_eligible_upto_sound(
    jobs: Seq<JobModel>,
    now: int,
    timeout: int,
    n: int,
)
    requires
        0 <= n <= jobs.len(),
    ensures
        match oldest_eligible_upto(jobs, now, timeout, n) {
            Some(i) => {
                &&& 0 <= i < n
                &&& eligible(jobs[i], now, timeout)
                &&& forall|j: int|
                    0 <= j < n && #[trigger] eligible(jobs[j], now, timeout)
                        ==> jobs[i].enqueued_at <= jobs[j].enqueued_at
            },
            None => forall|j: int| 0 <= j < n ==> !eligible(jobs[j], now, timeout),
        },
    decreases n,
{
    if n > 0 {
        lemma_oldest_eligible_upto_sound(jobs, now, timeout, n - 1);
    }
}

/// Law: a running job whose claim has not yet timed out is never handed out
/// by `claim_next`.
pub proof fn lemma_unexpired_lock_not_reclaimed(
    jobs: Seq<JobModel>,
    i: int,
    l: int,
    now: int,
    timeout: int,
)
    requires
        0 <= i < jobs.len(),
        jobs[i].status is Running,
        jobs[i].locked_at == Some(l),
        now - l < timeout,
    ensures
        oldest_eligible(jobs, now, timeout) != Some(i),
{
    lemma_oldest_eligible_upto_sound(jobs, now, timeout, jobs.len() as int);
}

/// Law (at-most-one-claim): once `claim_next` hands job `i` out at `now1`,
/// a second claim at any `now2` before the lock expires cannot hand the same
/// job out again; each job has at most one claimant at a time.
pub proof fn lemma_at_most_one_claim(m: StoreModel, i: int, now1: int, now2: int)
    requires
        m.wf(),
        oldest_eligible(m.jobs, now1, m.claim_timeout) == Some(i),
        now1 <= now2 < now1 + m.claim_timeout,
    ensures
        oldest_eligible(claim_model(m, i, now1).jobs, now2, m.claim_timeout) != Some(i),
{
    lemma_oldest_eligible_upto_sound(m.jobs, now1, m.claim_timeout, m.jobs.len() as int);
    let m1 = claim_model(m, i, now1);
    lemma_unexpired_lock_not_reclaimed(m1.jobs, i, now1, now2, m.claim_timeout);
}

} // verus!
