//! The job registry: an explicit dispatch table, built once at startup,
//! from a job-name string to the handler kind that must run it. Dispatch is
//! resolved purely by the string name, so a job enqueued by an older process
//! still finds its handler after a restart.

use vstd::prelude::*;

verus! {

/// The closed set of job handlers this system registers.
#[derive(Clone, Copy, PartialEq, Eq, Structural, Debug)]
pub enum JobKind {
    RefreshDomains,
    RefreshDomainsNameservers,
    RefreshDomainNameservers,
}

/// The name each handler kind registers under and is dispatched by.
pub open spec fn kind_name_spec(k: JobKind) -> Seq<char> {
    match k {
        JobKind::RefreshDomains => "RefreshDomains"@,
        JobKind::RefreshDomainsNameservers => "RefreshDomainsNameservers"@,
        JobKind::RefreshDomainNameservers => "RefreshDomainNameservers"@,
    }
}

/// Distinct kinds register under distinct names.
pub proof fn lemma_kind_name_injective(a: JobKind, b: JobKind)
    ensures
        kind_name_spec(a) == kind_name_spec(b) ==> a == b,
{
    reveal_strlit("RefreshDomains");
    reveal_strlit("RefreshDomainsNameservers");
    reveal_strlit("RefreshDomainNameservers");
    assert(("RefreshDomains"@).len() == 14);
    assert(("RefreshDomainsNameservers"@).len() == 25);
    assert(("RefreshDomainNameservers"@).len() == 24);
}

/// The registered name of a handler kind.
pub fn kind_name(k: JobKind) -> (n: String)
    ensures
        n@ == kind_name_spec(k),
{
    match k {
        JobKind::RefreshDomains => "RefreshDomains".to_string(),
        JobKind::RefreshDomainsNameservers => "RefreshDomainsNameservers".to_string(),
        JobKind::RefreshDomainNameservers => "RefreshDomainNameservers".to_string(),
    }
}

/// One registration: a name bound to a handler kind.
pub struct RegistryEntry {
    pub name: String,
    pub kind: JobKind,
}

#[verifier::ext_equal]
pub struct EntryModel {
    pub name: Seq<char>,
    pub kind: JobKind,
}

impl View for RegistryEntry {
    type V = EntryModel;

    open spec fn view(&self) -> EntryModel {
        EntryModel { name: self.name@, kind: self.kind }
    }
}

/// No name is registered twice.
pub open spec fn registry_wf(entries: Seq<EntryModel>) -> bool {
    forall|i: int, j: int|
        0 <= i < j < entries.len() ==> (#[trigger] entries[i]).name != (#[trigger] entries[j]).name
}

/// The kind `dispatch` resolves `name` to, scanning entries from `i` on:
/// the first entry bound to `name`.
pub open spec fn dispatch_from(entries: Seq<EntryModel>, name: Seq<char>, i: int) -> Option<JobKind>
    decreases entries.len() - i,
{
    if i < 0 || i >= entries.len() {
        None
    } else if entries[i].name == name {
        Some(entries[i].kind)
    } else {
        dispatch_from(entries, name, i + 1)
    }
}

/// The kind `dispatch` resolves `name` to, if any.
pub open spec fn dispatch_spec(entries: Seq<EntryModel>, name: Seq<char>) -> Option<JobKind> {
    dispatch_from(entries, name, 0)
}

/// The dispatch table, built once at startup.
pub struct JobRegistry {
    entries: Vec<RegistryEntry>,
}

impl View for JobRegistry {
    type V = Seq<EntryModel>;

    closed spec fn view(&self) -> Seq<EntryModel> {
        self.entries@.map_values(|e: RegistryEntry| e@)
    }
}

impl JobRegistry {
    /// An empty dispatch table.
    pub fn new() -> (r: JobRegistry)
        ensures
            r@.len() == 0,
    {
        JobRegistry { entries: Vec::new() }
    }

    /// Binds `name` to `kind`.
    pub fn register(&mut self, name: String, kind: JobKind)
        ensures
            final(self)@ == old(self)@.push(EntryModel { name: name@, kind }),
    {
        self.entries.push(RegistryEntry { name, kind });
        proof {
            assert(self@ =~= old(self)@.push(
                EntryModel { name: self.entries@.last().name@, kind },
            ));
        }
    }

    /// Looks a job name up in the table: the first entry bound to it, or
    /// nothing when the name is unknown.
    pub fn dispatch(&self, name: &String) -> (r: Option<JobKind>)
        ensures
            r == dispatch_spec(self@, name@),
    {
        let n = self.entries.len();
        let mut i: usize = 0;
        while i < n
            invariant
                n == self.entries.len(),
                n == self@.len(),
                0 <= i <= n,
                dispatch_spec(self@, name@) == dispatch_from(self@, name@, i as int),
            decreases n - i,
        {
            if self.entries[i].name == *name {
                return Some(self.entries[i].kind);
            }
            i += 1;
        }
        None
    }
}

/// The dispatch table of this system: the three registrar-sync handlers,
/// each under its canonical name.
pub fn job_registry() -> (r: JobRegistry)
    ensures
        r@.len() == 3,
        r@[0] == (EntryModel { name: kind_name_spec(JobKind::RefreshDomains), kind: JobKind::RefreshDomains }),
        r@[1] == (EntryModel {
            name: kind_name_spec(JobKind::RefreshDomainsNameservers),
            kind: JobKind::RefreshDomainsNameservers,
        }),
        r@[2] == (EntryModel {
            name: kind_name_spec(JobKind::RefreshDomainNameservers),
            kind: JobKind::RefreshDomainNameservers,
        }),
        registry_wf(r@),
{
    let mut r = JobRegistry::new();
    r.register(kind_name(JobKind::RefreshDomains), JobKind::RefreshDomains);
    r.register(kind_name(JobKind::RefreshDomainsNameservers), JobKind::RefreshDomainsNameservers);
    r.register(kind_name(JobKind::RefreshDomainNameservers), JobKind::RefreshDomainNameservers);
    proof {
        lemma_kind_name_injective(JobKind::RefreshDomains, JobKind::RefreshDomainsNameservers);
        lemma_kind_name_injective(JobKind::RefreshDomains, JobKind::RefreshDomainNameservers);
        lemma_kind_name_injective(JobKind::RefreshDomainsNameservers, JobKind::RefreshDomainNameservers);
    }
    r
}

} // verus!
