//! Tracked registrar domains: one record per domain name, upserted
//! idempotently from registrar batches, carrying the nameserver list from
//! which a DNS-provider classification is derived.

use vstd::prelude::*;
use crate::strutil::{contains_spec, ends_with_spec, str_contains, str_ends_with, str_eq};

verus! {

/// One tracked domain, keyed uniquely by its name.
#[derive(Debug)]
pub struct DomainRecord {
    pub domain: String,
    pub auto_renew: bool,
    pub purchase_date: i64,
    pub expire_date: i64,
    pub not_local: bool,
    pub security_lock: bool,
    pub status: Option<String>,
    pub tld: String,
    pub whois_privacy: bool,
    pub nameservers: Vec<String>,
}

#[verifier::ext_equal]
pub struct DomainRecordModel {
    pub domain: Seq<char>,
    pub auto_renew: bool,
    pub purchase_date: int,
    pub expire_date: int,
    pub not_local: bool,
    pub security_lock: bool,
    pub status: Option<Seq<char>>,
    pub tld: Seq<char>,
    pub whois_privacy: bool,
    pub nameservers: Seq<Seq<char>>,
}

impl View for DomainRecord {
    type V = DomainRecordModel;

    open spec fn view(&self) -> DomainRecordModel {
        DomainRecordModel {
            domain: self.domain@,
            auto_renew: self.auto_renew,
            purchase_date: self.purchase_date as int,
            expire_date: self.expire_date as int,
            not_local: self.not_local,
            security_lock: self.security_lock,
            status: crate::strutil::opt_str(self.status),
            tld: self.tld@,
            whois_privacy: self.whois_privacy,
            nameservers: self.nameservers.deep_view(),
        }
    }
}

/// What one registrar batch entry says about a domain: every mutable field
/// except the nameserver list, which only the nameserver-refresh job writes.
#[derive(Debug)]
pub struct DomainFacts {
    pub domain: String,
    pub auto_renew: bool,
    pub purchase_date: i64,
    pub expire_date: i64,
    pub not_local: bool,
    pub security_lock: bool,
    pub status: Option<String>,
    pub tld: String,
    pub whois_privacy: bool,
}

#[verifier::ext_equal]
pub struct DomainFactsModel {
    pub domain: Seq<char>,
    pub auto_renew: bool,
    pub purchase_date: int,
    pub expire_date: int,
    pub not_local: bool,
    pub security_lock: bool,
    pub status: Option<Seq<char>>,
    pub tld: Seq<char>,
    pub whois_privacy: bool,
}

impl View for DomainFacts {
    type V = DomainFactsModel;

    open spec fn view(&self) -> DomainFactsModel {
        DomainFactsModel {
            domain: self.domain@,
            auto_renew: self.auto_renew,
            purchase_date: self.purchase_date as int,
            expire_date: self.expire_date as int,
            not_local: self.not_local,
            security_lock: self.security_lock,
            status: crate::strutil::opt_str(self.status),
            tld: self.tld@,
            whois_privacy: self.whois_privacy,
        }
    }
}

impl Clone for DomainFacts {
    fn clone(&self) -> (r: Self)
        ensures
            r@ == self@,
    {
        let r = DomainFacts {
            domain: self.domain.clone(),
            auto_renew: self.auto_renew,
            purchase_date: self.purchase_date,
            expire_date: self.expire_date,
            not_local: self.not_local,
            security_lock: self.security_lock,
            status: crate::strutil::clone_opt_string(&self.status),
            tld: self.tld.clone(),
            whois_privacy: self.whois_privacy,
        };
        proof {
            assert(r@ =~= self@);
        }
        r
    }
}

/// No two records share a domain name.
pub open spec fn table_wf(t: Seq<DomainRecordModel>) -> bool {
    forall|i: int, j: int|
        0 <= i < j < t.len() ==> (#[trigger] t[i]).domain != (#[trigger] t[j]).domain
}

/// The first index at or after `i` whose record is for domain `d`.
pub open spec fn find_domain_from(t: Seq<DomainRecordModel>, d: Seq<char>, i: int) -> Option<int>
    decreases t.len() - i,
{
    if i < 0 || i >= t.len() {
        None
    } else if t[i].domain == d {
        Some(i)
    } else {
        find_domain_from(t, d, i + 1)
    }
}

/// The index of the record for domain `d`, if any.
pub open spec fn find_domain(t: Seq<DomainRecordModel>, d: Seq<char>) -> Option<int> {
    find_domain_from(t, d, 0)
}

/// An existing record refreshed with a batch entry: every fact updated, the
/// nameserver list kept.
pub open spec fn record_with_facts(r: DomainRecordModel, f: DomainFactsModel) -> DomainRecordModel {
    DomainRecordModel {
        domain: r.domain,
        auto_renew: f.auto_renew,
        purchase_date: f.purchase_date,
        expire_date: f.expire_date,
        not_local: f.not_local,
        security_lock: f.security_lock,
        status: f.status,
        tld: f.tld,
        whois_privacy: f.whois_privacy,
        nameservers: r.nameservers,
    }
}

/// A record first inserted from a batch entry: no nameservers yet.
pub open spec fn inserted_record(f: DomainFactsModel) -> DomainRecordModel {
    DomainRecordModel {
        domain: f.domain,
        auto_renew: f.auto_renew,
        purchase_date: f.purchase_date,
        expire_date: f.expire_date,
        not_local: f.not_local,
        security_lock: f.security_lock,
        status: f.status,
        tld: f.tld,
        whois_privacy: f.whois_privacy,
        nameservers: Seq::empty(),
    }
}

/// Insert-or-update keyed by domain name: never a duplicate row.
pub open spec fn upsert_model(
    t: Seq<DomainRecordModel>,
    f: DomainFactsModel,
) -> Seq<DomainRecordModel> {
    match find_domain(t, f.domain) {
        Some(i) => t.update(i, record_with_facts(t[i], f)),
        None => t.push(inserted_record(f)),
    }
}

/// A whole batch upserted in order.
pub open spec fn upsert_all_model(
    t: Seq<DomainRecordModel>,
    fs: Seq<DomainFactsModel>,
) -> Seq<DomainRecordModel>
    decreases fs.len(),
{
    if fs.len() == 0 {
        t
    } else {
        upsert_model(upsert_all_model(t, fs.drop_last()), fs.last())
    }
}

/// A record with its nameserver list replaced.
pub open spec fn with_nameservers(
    r: DomainRecordModel,
    ns: Seq<Seq<char>>,
) -> DomainRecordModel {
    DomainRecordModel { nameservers: ns, ..r }
}

/// `find_domain_from` finds a record for `d` exactly when the suffix holds
/// one, and then the first.
pub proof fn lemma_find_domain_from_sound(t: Seq<DomainRecordModel>, d: Seq<char>, i: int)
    requires
        0 <= i <= t.len(),
    ensures
        match find_domain_from(t, d, i) {
            Some(k) => {
                &&& i <= k < t.len()
                &&& t[k].domain == d
                &&& forall|j: int| i <= j < k ==> (#[trigger] t[j]).domain != d
            },
            None => forall|j: int| i <= j < t.len() ==> (#[trigger] t[j]).domain != d,
        },
    decreases t.len() - i,
{
    if i < t.len() {
        lemma_find_domain_from_sound(t, d, i + 1);
    }
}

/// The table of tracked domains.
#[derive(Debug)]
pub struct DomainTable {
    records: Vec<DomainRecord>,
}

impl View for DomainTable {
    type V = Seq<DomainRecordModel>;

    closed spec fn view(&self) -> Seq<DomainRecordModel> {
        self.records@.map_values(|r: DomainRecord| r@)
    }
}

impl DomainTable {
    /// An empty table.
    pub fn new() -> (t: DomainTable)
        ensures
            t@.len() == 0,
            table_wf(t@),
    {
        let t = DomainTable { records: Vec::new() };
        proof {
            assert(t@ =~= Seq::<DomainRecordModel>::empty());
        }
        t
    }

    /// How many domains are tracked.
    pub fn len(&self) -> (n: usize)
        ensures
            n == self@.len(),
    {
        self.records.len()
    }

    /// The record at index `i`.
    pub fn record(&self, i: usize) -> (r: &DomainRecord)
        requires
            i < self@.len(),
        ensures
            r@ == self@[i as int],
    {
        &self.records[i]
    }

    /// The index of the record for `domain`, mirroring `find_domain`.
    pub fn find(&self, domain: &str) -> (r: Option<usize>)
        ensures
            match r {
                Some(i) => find_domain(self@, domain@) == Some(i as int) && i < self@.len(),
                None => find_domain(self@, domain@) is None,
            },
    {
        let n = self.records.len();
        let mut i: usize = 0;
        while i < n
            invariant
                n == self.records.len(),
                n == self@.len(),
                0 <= i <= n,
                find_domain(self@, domain@) == find_domain_from(self@, domain@, i as int),
            decreases n - i,
        {
            if str_eq(self.records[i].domain.as_str(), domain) {
                return Some(i);
            }
            i += 1;
        }
        None
    }

    /// Idempotent upsert of one batch entry, keyed by domain name: an
    /// existing record has its facts replaced and keeps its nameservers; an
    /// unknown domain gets a fresh record with no nameservers. Never a
    /// duplicate.
    pub fn upsert(&mut self, facts: DomainFacts)
        requires
            table_wf(old(self)@),
        ensures
            final(self)@ == upsert_model(old(self)@, facts@),
            table_wf(final(self)@),
    {
        let ghost f = facts@;
        match self.find(facts.domain.as_str()) {
            Some(i) => {
                self.records[i].auto_renew = facts.auto_renew;
                self.records[i].purchase_date = facts.purchase_date;
                self.records[i].expire_date = facts.expire_date;
                self.records[i].not_local = facts.not_local;
                self.records[i].security_lock = facts.security_lock;
                self.records[i].status = facts.status;
                self.records[i].tld = facts.tld;
                self.records[i].whois_privacy = facts.whois_privacy;
                proof {
                    assert(self@ =~= upsert_model(old(self)@, f));
                    lemma_find_domain_from_sound(old(self)@, f.domain, 0);
                    assert forall|a: int, b: int| 0 <= a < b < self@.len() implies
                        (#[trigger] self@[a]).domain != (#[trigger] self@[b]).domain by {
                        assert(old(self)@[a].domain != old(self)@[b].domain);
                    }
                }
            },
            None => {
                let rec = DomainRecord {
                    domain: facts.domain,
                    auto_renew: facts.auto_renew,
                    purchase_date: facts.purchase_date,
                    expire_date: facts.expire_date,
                    not_local: facts.not_local,
                    security_lock: facts.security_lock,
                    status: facts.status,
                    tld: facts.tld,
                    whois_privacy: facts.whois_privacy,
                    nameservers: Vec::new(),
                };
                self.records.push(rec);
                proof {
                    assert(self@ =~~= upsert_model(old(self)@, f));
                    lemma_find_domain_from_sound(old(self)@, f.domain, 0);
                    assert forall|a: int, b: int| 0 <= a < b < self@.len() implies
                        (#[trigger] self@[a]).domain != (#[trigger] self@[b]).domain by {
                        if b < old(self)@.len() {
                            assert(old(self)@[a].domain != old(self)@[b].domain);
                        } else {
                            assert(self@[b].domain == f.domain);
                            assert(old(self)@[a].domain != f.domain);
                        }
                    }
                }
            },
        }
    }

    /// Upserts a whole registrar batch, in order.
    pub fn upsert_all(&mut self, batch: &Vec<DomainFacts>)
        requires
            table_wf(old(self)@),
        ensures
            final(self)@ == upsert_all_model(old(self)@, batch@.map_values(|f: DomainFacts| f@)),
            table_wf(final(self)@),
    {
        let ghost fs = batch@.map_values(|f: DomainFacts| f@);
        let n = batch.len();
        let mut i: usize = 0;
        while i < n
            invariant
                n == batch.len(),
                fs == batch@.map_values(|f: DomainFacts| f@),
                0 <= i <= n,
                self@ == upsert_all_model(old(self)@, fs.take(i as int)),
                table_wf(self@),
            decreases n - i,
        {
            self.upsert(batch[i].clone());
            proof {
                assert(fs.take(i + 1).drop_last() =~= fs.take(i as int));
                assert(fs.take(i + 1).last() == fs[i as int]);
            }
            i += 1;
        }
        proof {
            assert(fs.take(n as int) =~= fs);
        }
    }

    /// Replaces the nameserver list of the record for `domain`, reporting
    /// whether such a record exists; nothing else changes.
    pub fn set_nameservers(&mut self, domain: &String, nameservers: Vec<String>) -> (r: bool)
        requires
            table_wf(old(self)@),
        ensures
            table_wf(final(self)@),
            match find_domain(old(self)@, domain@) {
                Some(i) => r && final(self)@ == old(self)@.update(
                    i,
                    with_nameservers(old(self)@[i], nameservers.deep_view()),
                ),
                None => !r && final(self)@ == old(self)@,
            },
    {
        match self.find(domain.as_str()) {
            Some(i) => {
                self.records[i].nameservers = nameservers;
                proof {
                    let k = find_domain(old(self)@, domain@)->0;
                    assert(self@ =~= old(self)@.update(
                        k,
                        with_nameservers(old(self)@[k], self.records@[k].nameservers.deep_view()),
                    ));
                    assert forall|a: int, b: int| 0 <= a < b < self@.len() implies
                        (#[trigger] self@[a]).domain != (#[trigger] self@[b]).domain by {
                        assert(old(self)@[a].domain != old(self)@[b].domain);
                    }
                }
                true
            },
            None => false,
        }
    }
}

/// No two entries of a registrar batch are for the same domain (the
/// registrar's listing is keyed by domain name).
pub open spec fn batch_distinct(fs: Seq<DomainFactsModel>) -> bool {
    forall|i: int, j: int|
        0 <= i < j < fs.len() ==> (#[trigger] fs[i]).domain != (#[trigger] fs[j]).domain
}

/// Upserting keeps domains unique.
pub proof fn lemma_upsert_wf(t: Seq<DomainRecordModel>, f: DomainFactsModel)
    requires
        table_wf(t),
    ensures
        table_wf(upsert_model(t, f)),
{
    lemma_find_domain_from_sound(t, f.domain, 0);
    let u = upsert_model(t, f);
    match find_domain(t, f.domain) {
        Some(i) => {
            assert forall|a: int, b: int| 0 <= a < b < u.len() implies (#[trigger] u[a]).domain
                != (#[trigger] u[b]).domain by {
                assert(t[a].domain != t[b].domain);
            }
        },
        None => {
            assert forall|a: int, b: int| 0 <= a < b < u.len() implies (#[trigger] u[a]).domain
                != (#[trigger] u[b]).domain by {
                if b < t.len() {
                    assert(t[a].domain != t[b].domain);
                } else {
                    assert(u[b].domain == f.domain);
                    assert(t[a].domain != f.domain);
                }
            }
        },
    }
}

/// Replacing a record with one for the same domain does not move any
/// domain's first index.
proof fn lemma_find_from_update_same_domain(
    t: Seq<DomainRecordModel>,
    d: Seq<char>,
    k: int,
    r: DomainRecordModel,
    i: int,
)
    requires
        0 <= k < t.len(),
        r.domain == t[k].domain,
        0 <= i <= t.len(),
    ensures
        find_domain_from(t.update(k, r), d, i) == find_domain_from(t, d, i),
    decreases t.len() - i,
{
    if i < t.len() {
        lemma_find_from_update_same_domain(t, d, k, r, i + 1);
    }
}

/// Appending a record for another domain does not change where `d` is
/// found.
proof fn lemma_find_from_push_other(
    t: Seq<DomainRecordModel>,
    d: Seq<char>,
    r: DomainRecordModel,
    i: int,
)
    requires
        r.domain != d,
        0 <= i <= t.len(),
    ensures
        find_domain_from(t.push(r), d, i) == find_domain_from(t, d, i),
    decreases t.len() - i,
{
    if i < t.len() {
        lemma_find_from_push_other(t, d, r, i + 1);
    } else {
        assert(t.push(r)[i].domain == r.domain);
        assert(find_domain_from(t.push(r), d, i + 1) is None);
        assert(find_domain_from(t, d, i) is None);
    }
}

/// When no record for `r.domain` exists, an appended one is found at the
/// end.
proof fn lemma_find_from_push_hit(t: Seq<DomainRecordModel>, r: DomainRecordModel, i: int)
    requires
        0 <= i <= t.len(),
        forall|j: int| i <= j < t.len() ==> (#[trigger] t[j]).domain != r.domain,
    ensures
        find_domain_from(t.push(r), r.domain, i) == Some(t.len() as int),
    decreases t.len() - i,
{
    if i < t.len() {
        lemma_find_from_push_hit(t, r, i + 1);
    } else {
        assert(t.push(r)[i].domain == r.domain);
    }
}

/// The table already says of `f.domain` exactly what the batch entry `f`
/// says: a record for it exists and every fact matches.
pub open spec fn agrees(t: Seq<DomainRecordModel>, f: DomainFactsModel) -> bool {
    match find_domain(t, f.domain) {
        Some(i) => t[i] == record_with_facts(t[i], f),
        None => false,
    }
}

/// After upserting `f`, the table agrees with `f`.
proof fn lemma_upsert_makes_agree(t: Seq<DomainRecordModel>, f: DomainFactsModel)
    ensures
        agrees(upsert_model(t, f), f),
{
    lemma_find_domain_from_sound(t, f.domain, 0);
    let u = upsert_model(t, f);
    match find_domain(t, f.domain) {
        Some(i) => {
            lemma_find_from_update_same_domain(t, f.domain, i, record_with_facts(t[i], f), 0);
            assert(u[i] =~= record_with_facts(u[i], f));
        },
        None => {
            lemma_find_from_push_hit(t, inserted_record(f), 0);
            assert(u[t.len() as int] =~= record_with_facts(u[t.len() as int], f));
        },
    }
}

/// Upserting one domain leaves agreement about another domain untouched.
proof fn lemma_upsert_preserves_agree(
    t: Seq<DomainRecordModel>,
    f: DomainFactsModel,
    g: DomainFactsModel,
)
    requires
        agrees(t, g),
        f.domain != g.domain,
    ensures
        agrees(upsert_model(t, f), g),
{
    lemma_find_domain_from_sound(t, f.domain, 0);
    lemma_find_domain_from_sound(t, g.domain, 0);
    match find_domain(t, f.domain) {
        Some(i) => {
            lemma_find_from_update_same_domain(t, g.domain, i, record_with_facts(t[i], f), 0);
        },
        None => {
            lemma_find_from_push_other(t, g.domain, inserted_record(f), 0);
        },
    }
}

/// Upserting what the table already says changes nothing.
proof fn lemma_upsert_noop(t: Seq<DomainRecordModel>, f: DomainFactsModel)
    requires
        agrees(t, f),
    ensures
        upsert_model(t, f) == t,
{
    lemma_find_domain_from_sound(t, f.domain, 0);
    let i = find_domain(t, f.domain)->0;
    assert(upsert_model(t, f) =~= t);
}

/// A whole batch the table already agrees with changes nothing.
proof fn lemma_upsert_all_noop(t: Seq<DomainRecordModel>, fs: Seq<DomainFactsModel>)
    requires
        forall|k: int| 0 <= k < fs.len() ==> agrees(t, #[trigger] fs[k]),
    ensures
        upsert_all_model(t, fs) == t,
    decreases fs.len(),
{
    if fs.len() > 0 {
        lemma_upsert_all_noop(t, fs.drop_last());
        lemma_upsert_noop(t, fs.last());
    }
}

/// After one pass of a batch with distinct domains, the table agrees with
/// every entry of the batch, and its domains stay unique.
proof fn lemma_upsert_all_agrees(t: Seq<DomainRecordModel>, fs: Seq<DomainFactsModel>)
    requires
        table_wf(t),
        batch_distinct(fs),
    ensures
        table_wf(upsert_all_model(t, fs)),
        forall|k: int| 0 <= k < fs.len() ==> agrees(upsert_all_model(t, fs), #[trigger] fs[k]),
    decreases fs.len(),
{
    if fs.len() > 0 {
        let fs0 = fs.drop_last();
        let f = fs.last();
        lemma_upsert_all_agrees(t, fs0);
        let u = upsert_all_model(t, fs0);
        lemma_upsert_wf(u, f);
        lemma_upsert_makes_agree(u, f);
        assert forall|k: int| 0 <= k < fs.len() implies agrees(
            upsert_all_model(t, fs),
            #[trigger] fs[k],
        ) by {
            if k < fs0.len() {
                assert(fs[k] == fs0[k]);
                assert(agrees(u, fs0[k]));
                lemma_upsert_preserves_agree(u, f, fs[k]);
            }
        }
    }
}

/// Law (idempotent upsert): running the same registrar batch twice leaves
/// the table exactly as one run leaves it — one record per domain, fields
/// equal to the latest input, no duplicates and no drift.
pub proof fn lemma_refresh_idempotent(t: Seq<DomainRecordModel>, fs: Seq<DomainFactsModel>)
    requires
        table_wf(t),
        batch_distinct(fs),
    ensures
        upsert_all_model(upsert_all_model(t, fs), fs) == upsert_all_model(t, fs),
        table_wf(upsert_all_model(t, fs)),
{
    lemma_upsert_all_agrees(t, fs);
    lemma_upsert_all_noop(upsert_all_model(t, fs), fs);
}

/// The DNS providers this system recognises from nameserver suffixes.
#[derive(Debug, Clone, Copy, PartialEq, Eq, Structural)]
#[non_exhaustive]
pub enum DnsProvider {
    Porkbun,
    Cloudflare,
    GoogleDomains,
    Vercel,
    Route53,
    Unknown,
}

impl DnsProvider {
    /// The provider's display name.
    pub fn display_name(&self) -> (s: String)
        ensures
            s@ == match *self {
                DnsProvider::Porkbun => "Porkbun"@,
                DnsProvider::Cloudflare => "Cloudflare"@,
                DnsProvider::GoogleDomains => "Google Domains"@,
                DnsProvider::Vercel => "Vercel"@,
                DnsProvider::Route53 => "AWS Route 53"@,
                DnsProvider::Unknown => "Unknown"@,
            },
    {
        match self {
            DnsProvider::Porkbun => "Porkbun".to_string(),
            DnsProvider::Cloudflare => "Cloudflare".to_string(),
            DnsProvider::GoogleDomains => "Google Domains".to_string(),
            DnsProvider::Vercel => "Vercel".to_string(),
            DnsProvider::Route53 => "AWS Route 53".to_string(),
            DnsProvider::Unknown => "Unknown".to_string(),
        }
    }
}

/// Every nameserver ends with `suffix`.
pub open spec fn all_end_with(ns: Seq<Seq<char>>, suffix: Seq<char>) -> bool {
    forall|i: int| 0 <= i < ns.len() ==> ends_with_spec(#[trigger] ns[i], suffix)
}

/// Every nameserver contains `needle`.
pub open spec fn all_contain(ns: Seq<Seq<char>>, needle: Seq<char>) -> bool {
    forall|i: int| 0 <= i < ns.len() ==> contains_spec(#[trigger] ns[i], needle)
}

/// The provider attributed to a nameserver list: a provider only when every
/// nameserver matches its pattern; a mix classifies as `Unknown`.
pub open spec fn dns_provider_spec(ns: Seq<Seq<char>>) -> DnsProvider {
    if all_end_with(ns, ".porkbun.com"@) {
        DnsProvider::Porkbun
    } else if all_end_with(ns, ".cloudflare.com"@) {
        DnsProvider::Cloudflare
    } else if all_end_with(ns, ".googledomains.com"@) {
        DnsProvider::GoogleDomains
    } else if all_end_with(ns, ".vercel-dns.com"@) {
        DnsProvider::Vercel
    } else if all_contain(ns, "awsdns"@) {
        DnsProvider::Route53
    } else {
        DnsProvider::Unknown
    }
}

fn all_ns_end_with(ns: &Vec<String>, suffix: &str) -> (r: bool)
    ensures
        r == all_end_with(ns.deep_view(), suffix@),
{
    let n = ns.len();
    let mut i: usize = 0;
    while i < n
        invariant
            n == ns.len(),
            0 <= i <= n,
            forall|k: int| 0 <= k < i ==> ends_with_spec(#[trigger] ns.deep_view()[k], suffix@),
        decreases n - i,
    {
        if !str_ends_with(ns[i].as_str(), suffix) {
            assert(!ends_with_spec(ns.deep_view()[i as int], suffix@));
            return false;
        }
        i += 1;
    }
    true
}

fn all_ns_contain(ns: &Vec<String>, needle: &str) -> (r: bool)
    ensures
        r == all_contain(ns.deep_view(), needle@),
{
    let n = ns.len();
    let mut i: usize = 0;
    while i < n
        invariant
            n == ns.len(),
            0 <= i <= n,
            forall|k: int| 0 <= k < i ==> contains_spec(#[trigger] ns.deep_view()[k], needle@),
        decreases n - i,
    {
        if !str_contains(ns[i].as_str(), needle) {
            assert(!contains_spec(ns.deep_view()[i as int], needle@));
            return false;
        }
        i += 1;
    }
    true
}

impl DomainRecord {
    /// All nameservers are Porkbun's.
    pub fn using_porkbun_dns(&self) -> (r: bool)
        ensures
            r == all_end_with(self@.nameservers, ".porkbun.com"@),
    {
        all_ns_end_with(&self.nameservers, ".porkbun.com")
    }

    /// All nameservers are Cloudflare's.
    pub fn using_cloudflare_dns(&self) -> (r: bool)
        ensures
            r == all_end_with(self@.nameservers, ".cloudflare.com"@),
    {
        all_ns_end_with(&self.nameservers, ".cloudflare.com")
    }

    /// All nameservers are Google Domains'.
    pub fn using_google_domains_dns(&self) -> (r: bool)
        ensures
            r == all_end_with(self@.nameservers, ".googledomains.com"@),
    {
        all_ns_end_with(&self.nameservers, ".googledomains.com")
    }

    /// All nameservers are Vercel's.
    pub fn using_vercel_dns(&self) -> (r: bool)
        ensures
            r == all_end_with(self@.nameservers, ".vercel-dns.com"@),
    {
        all_ns_end_with(&self.nameservers, ".vercel-dns.com")
    }

    /// All nameservers are Route 53's.
    pub fn using_route53_dns(&self) -> (r: bool)
        ensures
            r == all_contain(self@.nameservers, "awsdns"@),
    {
        all_ns_contain(&self.nameservers, "awsdns")
    }

    /// The DNS provider this record's nameservers attribute, `Unknown` for
    /// a mix; the raw nameserver list itself is left untouched for display.
    pub fn dns_provider(&self) -> (p: DnsProvider)
        ensures
            p == dns_provider_spec(self@.nameservers),
    {
        if self.using_porkbun_dns() {
            return DnsProvider::Porkbun;
        }
        if self.using_cloudflare_dns() {
            return DnsProvider::Cloudflare;
        }
        if self.using_google_domains_dns() {
            return DnsProvider::GoogleDomains;
        }
        if self.using_vercel_dns() {
            return DnsProvider::Vercel;
        }
        if self.using_route53_dns() {
            return DnsProvider::Route53;
        }
        DnsProvider::Unknown
    }
}

} // verus!
