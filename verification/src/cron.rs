//! The cron registry and driver: a static table of (job kind, interval)
//! pairs, and a `tick` that enqueues each entry whose last enqueue is at
//! least one interval old. A paused driver catches up with exactly one
//! enqueue per entry, however many intervals were missed.

use vstd::prelude::*;
use crate::registry::{kind_name, kind_name_spec, lemma_kind_name_injective, JobKind};
use crate::store::{pending_job, JobModel, JobStore};
use crate::strutil::opt_int;

verus! {

/// Seconds in one hour.
pub fn one_hour() -> (s: u64)
    ensures
        s == 3600,
{
    60 * 60
}

/// Seconds in one day.
pub fn one_day() -> (s: u64)
    ensures
        s == 86400,
{
    60 * 60 * 24
}

/// One recurring job: a handler kind enqueued every `interval_secs`.
pub struct CronEntry {
    pub kind: JobKind,
    pub interval_secs: u64,
}

#[verifier::ext_equal]
pub struct CronEntryModel {
    pub kind: JobKind,
    pub interval: int,
}

impl View for CronEntry {
    type V = CronEntryModel;

    open spec fn view(&self) -> CronEntryModel {
        CronEntryModel { kind: self.kind, interval: self.interval_secs as int }
    }
}

/// No job kind is registered twice.
pub open spec fn cron_wf(entries: Seq<CronEntryModel>) -> bool {
    forall|i: int, j: int|
        0 <= i < j < entries.len() ==> (#[trigger] entries[i]).kind != (#[trigger] entries[j]).kind
}

/// The static table of recurring jobs, built once at startup.
pub struct CronRegistry {
    entries: Vec<CronEntry>,
}

impl View for CronRegistry {
    type V = Seq<CronEntryModel>;

    closed spec fn view(&self) -> Seq<CronEntryModel> {
        self.entries@.map_values(|e: CronEntry| e@)
    }
}

impl CronRegistry {
    /// An empty table.
    pub fn new() -> (r: CronRegistry)
        ensures
            r@.len() == 0,
    {
        CronRegistry { entries: Vec::new() }
    }

    /// Adds one recurring job.
    pub fn register_job(&mut self, kind: JobKind, interval_secs: u64)
        ensures
            final(self)@ == old(self)@.push(
                CronEntryModel { kind, interval: interval_secs as int },
            ),
    {
        self.entries.push(CronEntry { kind, interval_secs });
        proof {
            assert(self@ =~= old(self)@.push(CronEntryModel { kind, interval: interval_secs as int }));
        }
    }

    /// How many entries are registered.
    pub fn len(&self) -> (n: usize)
        ensures
            n == self@.len(),
    {
        self.entries.len()
    }
}

/// The cron table of this system: refresh registrar domains hourly, refresh
/// every domain's nameservers daily.
pub fn cron_registry() -> (r: CronRegistry)
    ensures
        r@.len() == 2,
        r@[0] == (CronEntryModel { kind: JobKind::RefreshDomains, interval: 3600 }),
        r@[1] == (CronEntryModel { kind: JobKind::RefreshDomainsNameservers, interval: 86400 }),
        cron_wf(r@),
{
    let mut r = CronRegistry::new();
    r.register_job(JobKind::RefreshDomains, one_hour());
    r.register_job(JobKind::RefreshDomainsNameservers, one_day());
    r
}

/// Last-enqueue records, one per registry entry, all initially absent.
pub fn new_cron_runs(n: usize) -> (r: Vec<Option<i64>>)
    ensures
        r@.len() == n,
        forall|i: int| 0 <= i < n ==> r@[i] is None,
{
    let mut v: Vec<Option<i64>> = Vec::new();
    let mut i: usize = 0;
    while i < n
        invariant
            0 <= i <= n,
            v@.len() == i,
            forall|j: int| 0 <= j < i ==> v@[j] is None,
        decreases n - i,
    {
        v.push(None);
        i += 1;
    }
    v
}

/// The view of the last-enqueue records.
pub open spec fn runs_view(runs: Seq<Option<i64>>) -> Seq<Option<int>> {
    runs.map_values(|o: Option<i64>| opt_int(o))
}

/// An entry is due when it has never been enqueued, or when at least one
/// interval has elapsed since its last enqueue.
pub open spec fn cron_due(e: CronEntryModel, last: Option<int>, now: int) -> bool {
    match last {
        None => true,
        Some(l) => now - l >= e.interval,
    }
}

/// The job a due cron entry enqueues.
pub open spec fn cron_job_model(id: int, kind: JobKind, now: int) -> JobModel {
    pending_job(id, kind_name_spec(kind), Seq::<char>::empty(), "cron"@, now, 0)
}

/// What one driver tick does to the first `k` entries: for each due entry,
/// one job enqueued and the entry's last-enqueue record set to `now`.
pub open spec fn tick_upto(
    entries: Seq<CronEntryModel>,
    runs0: Seq<Option<int>>,
    jobs0: Seq<JobModel>,
    now: int,
    k: int,
) -> (Seq<Option<int>>, Seq<JobModel>)
    decreases k,
{
    if k <= 0 {
        (runs0, jobs0)
    } else {
        let prev = tick_upto(entries, runs0, jobs0, now, k - 1);
        if cron_due(entries[k - 1], prev.0[k - 1], now) {
            (
                prev.0.update(k - 1, Some(now)),
                prev.1.push(cron_job_model(prev.1.len() as int, entries[k - 1].kind, now)),
            )
        } else {
            prev
        }
    }
}

/// One driver tick: evaluates every entry against its last-enqueue record,
/// enqueues each due entry exactly once, and stamps its record with `now`.
/// Entries are independent: what one entry does never blocks the others.
pub fn tick(registry: &CronRegistry, runs: &mut Vec<Option<i64>>, store: &mut JobStore, now: i64)
    requires
        old(runs)@.len() == registry@.len(),
        old(store)@.wf(),
    ensures
        final(store)@.wf(),
        final(store)@.retry_ceiling == old(store)@.retry_ceiling,
        final(store)@.claim_timeout == old(store)@.claim_timeout,
        final(runs)@.len() == registry@.len(),
        ({
            let r = tick_upto(
                registry@,
                runs_view(old(runs)@),
                old(store)@.jobs,
                now as int,
                registry@.len() as int,
            );
            runs_view(final(runs)@) == r.0 && final(store)@.jobs == r.1
        }),
{
    let n = registry.entries.len();
    let mut i: usize = 0;
    while i < n
        invariant
            n == registry.entries.len(),
            n == registry@.len(),
            runs@.len() == n,
            0 <= i <= n,
            store@.wf(),
            store@.retry_ceiling == old(store)@.retry_ceiling,
            store@.claim_timeout == old(store)@.claim_timeout,
            ({
                let r = tick_upto(
                    registry@,
                    runs_view(old(runs)@),
                    old(store)@.jobs,
                    now as int,
                    i as int,
                );
                runs_view(runs@) == r.0 && store@.jobs == r.1
            }),
        decreases n - i,
    {
        let kind = registry.entries[i].kind;
        let interval = registry.entries[i].interval_secs;
        let due = match runs[i] {
            Some(l) => (now as i128) - (l as i128) >= (interval as i128),
            None => true,
        };
        proof {
            assert(registry@[i as int] == registry.entries@[i as int]@);
            assert(runs_view(runs@)[i as int] == opt_int(runs@[i as int]));
            assert(due == cron_due(
                registry@[i as int],
                tick_upto(
                    registry@,
                    runs_view(old(runs)@),
                    old(store)@.jobs,
                    now as int,
                    i as int,
                ).0[i as int],
                now as int,
            ));
        }
        if due {
            store.enqueue(kind_name(kind), String::new(), "cron".to_string(), now);
            runs[i] = Some(now);
        }
        proof {
            let r = tick_upto(
                registry@,
                runs_view(old(runs)@),
                old(store)@.jobs,
                now as int,
                (i + 1) as int,
            );
            assert(runs_view(runs@) =~= r.0);
            assert(store@.jobs =~= r.1);
        }
        i += 1;
    }
}

/// How many jobs in the store carry a given name.
pub open spec fn count_jobs_named(jobs: Seq<JobModel>, name: Seq<char>) -> int
    decreases jobs.len(),
{
    if jobs.len() == 0 {
        0
    } else {
        count_jobs_named(jobs.drop_last(), name) + if jobs.last().name == name {
            1int
        } else {
            0int
        }
    }
}

proof fn lemma_count_push(jobs: Seq<JobModel>, j: JobModel, name: Seq<char>)
    ensures
        count_jobs_named(jobs.push(j), name) == count_jobs_named(jobs, name) + if j.name == name {
            1int
        } else {
            0int
        },
{
    assert(jobs.push(j).drop_last() =~= jobs);
    assert(jobs.push(j).last() == j);
}

/// What one tick adds for entry `i`: exactly one job under its name when it
/// is due, none otherwise; its record is stamped with `now` exactly when it
/// was due; and no record shrinks or grows.
pub proof fn lemma_tick_count(
    entries: Seq<CronEntryModel>,
    runs0: Seq<Option<int>>,
    jobs0: Seq<JobModel>,
    now: int,
    k: int,
    i: int,
)
    requires
        cron_wf(entries),
        runs0.len() == entries.len(),
        0 <= i < entries.len(),
        0 <= k <= entries.len(),
    ensures
        ({
            let r = tick_upto(entries, runs0, jobs0, now, k);
            &&& r.0.len() == runs0.len()
            &&& r.0[i] == (if i < k && cron_due(entries[i], runs0[i], now) {
                Some(now)
            } else {
                runs0[i]
            })
            &&& count_jobs_named(r.1, kind_name_spec(entries[i].kind)) == count_jobs_named(
                jobs0,
                kind_name_spec(entries[i].kind),
            ) + (if i < k && cron_due(entries[i], runs0[i], now) {
                1int
            } else {
                0int
            })
        }),
    decreases k,
{
    if k > 0 {
        lemma_tick_count(entries, runs0, jobs0, now, k - 1, i);
        let prev = tick_upto(entries, runs0, jobs0, now, k - 1);
        if cron_due(entries[k - 1], prev.0[k - 1], now) {
            lemma_count_push(
                prev.1,
                cron_job_model(prev.1.len() as int, entries[k - 1].kind, now),
                kind_name_spec(entries[i].kind),
            );
            if i != k - 1 {
                lemma_kind_name_injective(entries[i].kind, entries[k - 1].kind);
            }
        }
    } else {
    }
}

/// Law (cron catch-up): when an entry is due — no matter how many intervals
/// were missed — one tick enqueues exactly one job for it and stamps its
/// record with `now`; a second tick before the interval has elapsed again
/// enqueues nothing further for it.
pub proof fn lemma_cron_catch_up(
    entries: Seq<CronEntryModel>,
    runs0: Seq<Option<int>>,
    jobs0: Seq<JobModel>,
    now1: int,
    now2: int,
    i: int,
)
    requires
        cron_wf(entries),
        runs0.len() == entries.len(),
        0 <= i < entries.len(),
        cron_due(entries[i], runs0[i], now1),
        now1 <= now2 < now1 + entries[i].interval,
    ensures
        ({
            let n = entries.len() as int;
            let r1 = tick_upto(entries, runs0, jobs0, now1, n);
            let name = kind_name_spec(entries[i].kind);
            &&& count_jobs_named(r1.1, name) == count_jobs_named(jobs0, name) + 1
            &&& r1.0[i] == Some(now1)
            &&& !cron_due(entries[i], r1.0[i], now2)
            &&& count_jobs_named(tick_upto(entries, r1.0, r1.1, now2, n).1, name)
                == count_jobs_named(r1.1, name)
        }),
{
    let n = entries.len() as int;
    lemma_tick_count(entries, runs0, jobs0, now1, n, i);
    let r1 = tick_upto(entries, runs0, jobs0, now1, n);
    lemma_tick_count(entries, r1.0, r1.1, now2, n, i);
}

} // verus!
