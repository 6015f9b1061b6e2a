//! The nameserver-refresh pair. The bulk job fans out: one single-domain
//! job per tracked domain, so each domain's registrar fetch retries
//! independently and never blocks its siblings. The single-domain job
//! stores the nameserver list the registrar reports for its domain.

use vstd::prelude::*;
use crate::domains::{find_domain, table_wf, with_nameservers, DomainTable};
use crate::porkbun::FetchDomainNameserversResponse;
use crate::registry::{kind_name, kind_name_spec, JobKind};
use crate::store::{pending_job, JobStore};

verus! {

/// The bulk fan-out job: no payload.
#[derive(Debug)]
pub struct RefreshDomainsNameservers;

impl RefreshDomainsNameservers {
    /// The name this job registers under.
    pub fn name() -> (n: String)
        ensures
            n@ == kind_name_spec(JobKind::RefreshDomainsNameservers),
    {
        kind_name(JobKind::RefreshDomainsNameservers)
    }

    /// Enqueues one run of this job; the caller never waits for execution.
    pub fn enqueue(&self, store: &mut JobStore, context: String, now: i64) -> (id: usize)
        requires
            old(store)@.wf(),
        ensures
            final(store)@.wf(),
            final(store)@.retry_ceiling == old(store)@.retry_ceiling,
            final(store)@.claim_timeout == old(store)@.claim_timeout,
            id == old(store)@.jobs.len(),
            final(store)@.jobs == old(store)@.jobs.push(
                pending_job(
                    old(store)@.jobs.len() as int,
                    kind_name_spec(JobKind::RefreshDomainsNameservers),
                    Seq::<char>::empty(),
                    context@,
                    now as int,
                    0,
                ),
            ),
    {
        store.enqueue(Self::name(), String::new(), context, now)
    }
}

/// The single-domain job: its payload is the domain it refreshes.
#[derive(Debug)]
pub struct RefreshDomainNameservers {
    pub domain: String,
}

impl RefreshDomainNameservers {
    /// The name this job registers under.
    pub fn name() -> (n: String)
        ensures
            n@ == kind_name_spec(JobKind::RefreshDomainNameservers),
    {
        kind_name(JobKind::RefreshDomainNameservers)
    }

    /// Enqueues this job for its domain; the caller never waits.
    pub fn enqueue(self, store: &mut JobStore, context: String, now: i64) -> (id: usize)
        requires
            old(store)@.wf(),
        ensures
            final(store)@.wf(),
            final(store)@.retry_ceiling == old(store)@.retry_ceiling,
            final(store)@.claim_timeout == old(store)@.claim_timeout,
            id == old(store)@.jobs.len(),
            final(store)@.jobs == old(store)@.jobs.push(
                pending_job(
                    old(store)@.jobs.len() as int,
                    kind_name_spec(JobKind::RefreshDomainNameservers),
                    self.domain@,
                    context@,
                    now as int,
                    0,
                ),
            ),
    {
        store.enqueue(Self::name(), self.domain, context, now)
    }
}

/// The context label the bulk job tags its children with.
pub open spec fn bulk_context() -> Seq<char> {
    "RefreshDomainsNameservers bulk"@
}

/// One run of the bulk job: for each tracked domain, enqueue one
/// single-domain refresh carrying that domain as payload, tagged with the
/// bulk context label. The run completes once all children are enqueued;
/// it does not wait for any child to execute.
pub fn run_bulk_refresh(store: &mut JobStore, table: &DomainTable, now: i64) -> (k: usize)
    requires
        old(store)@.wf(),
        table_wf(table@),
    ensures
        final(store)@.wf(),
        final(store)@.retry_ceiling == old(store)@.retry_ceiling,
        final(store)@.claim_timeout == old(store)@.claim_timeout,
        k == table@.len(),
        final(store)@.jobs.len() == old(store)@.jobs.len() + k,
        forall|t: int|
            0 <= t < k ==> final(store)@.jobs[old(store)@.jobs.len() + t] == pending_job(
                old(store)@.jobs.len() + t,
                kind_name_spec(JobKind::RefreshDomainNameservers),
                (#[trigger] table@[t]).domain,
                bulk_context(),
                now as int,
                0,
            ),
        forall|j: int|
            0 <= j < old(store)@.jobs.len() ==> final(store)@.jobs[j] == old(store)@.jobs[j],
        forall|a: int, b: int|
            old(store)@.jobs.len() <= a < b < final(store)@.jobs.len()
                ==> (#[trigger] final(store)@.jobs[a]).payload
                != (#[trigger] final(store)@.jobs[b]).payload,
{
    let ghost base = old(store)@.jobs.len() as int;
    let n = table.len();
    let mut i: usize = 0;
    while i < n
        invariant
            base == old(store)@.jobs.len() as int,
            n == table@.len(),
            0 <= i <= n,
            store@.wf(),
            store@.retry_ceiling == old(store)@.retry_ceiling,
            store@.claim_timeout == old(store)@.claim_timeout,
            store@.jobs.len() == base + i,
            forall|t: int|
                0 <= t < i ==> store@.jobs[base + t] == pending_job(
                    base + t,
                    kind_name_spec(JobKind::RefreshDomainNameservers),
                    (#[trigger] table@[t]).domain,
                    bulk_context(),
                    now as int,
                    0,
                ),
            forall|j: int| 0 <= j < base ==> store@.jobs[j] == old(store)@.jobs[j],
        decreases n - i,
    {
        let ghost prev_jobs = store@.jobs;
        let domain = table.record(i).domain.clone();
        proof {
            assert(prev_jobs.len() == base + i);
            assert(domain@ == (#[trigger] table@[i as int]).domain);
        }
        store.enqueue(
            kind_name(JobKind::RefreshDomainNameservers),
            domain,
            "RefreshDomainsNameservers bulk".to_string(),
            now,
        );
        proof {
            let fresh = pending_job(
                base + i,
                kind_name_spec(JobKind::RefreshDomainNameservers),
                domain@,
                bulk_context(),
                now as int,
                0,
            );
            assert(store@.jobs == prev_jobs.push(fresh));
            assert forall|t: int| 0 <= t < i + 1 implies store@.jobs[base + t] == pending_job(
                base + t,
                kind_name_spec(JobKind::RefreshDomainNameservers),
                (#[trigger] table@[t]).domain,
                bulk_context(),
                now as int,
                0,
            ) by {
                if t < i {
                    assert(prev_jobs.push(fresh)[base + t] == prev_jobs[base + t]);
                } else {
                    assert(prev_jobs.push(fresh)[base + i] == fresh);
                }
            }
            assert forall|j: int| 0 <= j < base implies store@.jobs[j] == old(store)@.jobs[j] by {
                assert(prev_jobs.push(fresh)[j] == prev_jobs[j]);
            }
        }
        i += 1;
    }
    proof {
        assert forall|a: int, b: int|
            base <= a < b < store@.jobs.len() implies (#[trigger] store@.jobs[a]).payload
            != (#[trigger] store@.jobs[b]).payload by {
            assert(store@.jobs[a].payload == table@[a - base].domain);
            assert(store@.jobs[b].payload == table@[b - base].domain);
        }
    }
    n
}

/// Converts the registrar's nameserver response into plain hostnames, in
/// order.
pub fn nameserver_strings(resp: &FetchDomainNameserversResponse) -> (v: Vec<String>)
    ensures
        v.deep_view() == resp@.ns,
{
    let n = resp.ns.len();
    let mut v: Vec<String> = Vec::new();
    let mut i: usize = 0;
    while i < n
        invariant
            n == resp.ns.len(),
            0 <= i <= n,
            v@.len() == i,
            forall|k: int| 0 <= k < i ==> (#[trigger] v@[k])@ == resp@.ns[k],
        decreases n - i,
    {
        v.push(resp.ns[i].0.clone());
        i += 1;
    }
    proof {
        assert(v.deep_view() =~= resp@.ns);
    }
    v
}

/// One run of the single-domain job on an already-fetched response: store
/// the reported nameserver list on the record for `domain`. Reports
/// whether the domain is still tracked; an untracked domain changes
/// nothing and the run fails.
pub fn apply_nameservers(
    table: &mut DomainTable,
    domain: &String,
    resp: &FetchDomainNameserversResponse,
) -> (r: bool)
    requires
        table_wf(old(table)@),
    ensures
        table_wf(final(table)@),
        match find_domain(old(table)@, domain@) {
            Some(i) => r && final(table)@ == old(table)@.update(
                i,
                with_nameservers(old(table)@[i], resp@.ns),
            ),
            None => !r && final(table)@ == old(table)@,
        },
{
    let ns = nameserver_strings(resp);
    table.set_nameservers(domain, ns)
}

} // verus!
