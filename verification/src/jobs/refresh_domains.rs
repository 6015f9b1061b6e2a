//! The hourly registrar sync: translate the registrar's "list all domains"
//! response — string-encoded flags into booleans, date strings into
//! timestamps — and upsert one record per domain. One malformed record
//! fails the whole batch, which the retry policy then re-runs.

use vstd::prelude::*;
use crate::domains::{table_wf, upsert_all_model, DomainFacts, DomainFactsModel, DomainTable};
use crate::porkbun::{
    parse_registrar_date, parsed_datetime, registrar_date_format, FetchDomainsResponse,
    PorkbunDomain, PorkbunDomainModel,
};
use crate::registry::{kind_name, kind_name_spec, JobKind};
use crate::store::{pending_job, JobStore};
use crate::strutil::{clone_opt_string, str_eq};

verus! {

/// The bulk registrar-sync job: no payload.
#[derive(Debug)]
pub struct RefreshDomains;

impl RefreshDomains {
    /// The name this job registers under.
    pub fn name() -> (n: String)
        ensures
            n@ == kind_name_spec(JobKind::RefreshDomains),
    {
        kind_name(JobKind::RefreshDomains)
    }

    /// Enqueues one run of this job; the caller never waits for execution.
    pub fn enqueue(&self, store: &mut JobStore, context: String, now: i64) -> (id: usize)
        requires
            old(store)@.wf(),
        ensures
            final(store)@.wf(),
            final(store)@.retry_ceiling == old(store)@.retry_ceiling,
            final(store)@.claim_timeout == old(store)@.claim_timeout,
            id == old(store)@.jobs.len(),
            final(store)@.jobs == old(store)@.jobs.push(
                pending_job(
                    old(store)@.jobs.len() as int,
                    kind_name_spec(JobKind::RefreshDomains),
                    Seq::<char>::empty(),
                    context@,
                    now as int,
                    0,
                ),
            ),
    {
        store.enqueue(Self::name(), String::new(), context, now)
    }
}

/// Why a registrar batch entry could not be translated.
#[derive(Debug, Clone, Copy, PartialEq, Eq, Structural)]
pub enum TranslateError {
    /// The creation date does not match the registrar's fixed format.
    BadCreateDate,
    /// The expiry date does not match the registrar's fixed format.
    BadExpireDate,
}

/// The record a registrar batch entry translates to: `"1"`-flags become
/// booleans, both dates become UTC timestamps; nothing when either date
/// fails to parse.
pub open spec fn translate_spec(d: PorkbunDomainModel) -> Option<DomainFactsModel> {
    let c = parsed_datetime(registrar_date_format(), d.create_date);
    let e = parsed_datetime(registrar_date_format(), d.expire_date);
    if c is Some && e is Some {
        Some(DomainFactsModel {
            domain: d.domain,
            auto_renew: d.auto_renew == "1"@,
            purchase_date: c->0,
            expire_date: e->0,
            not_local: d.not_local == 1,
            security_lock: d.security_lock == "1"@,
            status: d.status,
            tld: d.tld,
            whois_privacy: d.whois_privacy == "1"@,
        })
    } else {
        None
    }
}

/// Translates one registrar batch entry, reporting which date was bad.
pub fn translate_domain(d: &PorkbunDomain) -> (r: Result<DomainFacts, TranslateError>)
    ensures
        r is Ok <==> translate_spec(d@) is Some,
        match r {
            Ok(f) => Some(f@) == translate_spec(d@),
            Err(e) => match e {
                TranslateError::BadCreateDate => parsed_datetime(
                    registrar_date_format(),
                    d@.create_date,
                ) is None,
                TranslateError::BadExpireDate => parsed_datetime(
                    registrar_date_format(),
                    d@.create_date,
                ) is Some && parsed_datetime(registrar_date_format(), d@.expire_date) is None,
            },
        },
{
    let purchase_date = match parse_registrar_date(d.create_date.as_str()) {
        Some(t) => t,
        None => {
            return Err(TranslateError::BadCreateDate);
        },
    };
    let expire_date = match parse_registrar_date(d.expire_date.as_str()) {
        Some(t) => t,
        None => {
            return Err(TranslateError::BadExpireDate);
        },
    };
    let f = DomainFacts {
        domain: d.domain.clone(),
        auto_renew: str_eq(d.auto_renew.as_str(), "1"),
        purchase_date,
        expire_date,
        not_local: d.not_local == 1,
        security_lock: str_eq(d.security_lock.as_str(), "1"),
        status: clone_opt_string(&d.status),
        tld: d.tld.clone(),
        whois_privacy: str_eq(d.whois_privacy.as_str(), "1"),
    };
    proof {
        assert(Some(f@) =~~= translate_spec(d@));
    }
    Ok(f)
}

/// Every entry of the batch translates.
pub open spec fn all_translate(ds: Seq<PorkbunDomainModel>) -> bool {
    forall|i: int| 0 <= i < ds.len() ==> translate_spec(#[trigger] ds[i]) is Some
}

/// The batch fails with `e`: some entry does not translate, every entry
/// before the first such one does, and `e` names the bad date of that
/// entry.
pub open spec fn batch_error(ds: Seq<PorkbunDomainModel>, e: TranslateError) -> bool {
    exists|i: int|
        {
            &&& 0 <= i < ds.len()
            &&& translate_spec(#[trigger] ds[i]) is None
            &&& (forall|j: int| 0 <= j < i ==> translate_spec(#[trigger] ds[j]) is Some)
            &&& (e == TranslateError::BadCreateDate <==> parsed_datetime(
                registrar_date_format(),
                ds[i].create_date,
            ) is None)
        }
}

/// Translates a whole registrar batch, in order; one malformed record
/// fails the batch rather than being skipped silently.
#[verifier::rlimit(30)]
pub fn translate_response(resp: &FetchDomainsResponse) -> (r: Result<
    Vec<DomainFacts>,
    TranslateError,
>)
    ensures
        r is Ok <==> all_translate(resp@),
        match r {
            Ok(v) => v@.len() == resp@.len() && forall|i: int|
                0 <= i < v@.len() ==> Some((#[trigger] v@[i])@) == translate_spec(resp@[i]),
            Err(e) => batch_error(resp@, e),
        },
{
    let n = resp.domains.len();
    let mut v: Vec<DomainFacts> = Vec::new();
    let mut i: usize = 0;
    while i < n
        invariant
            n == resp.domains.len(),
            n == resp@.len(),
            0 <= i <= n,
            v@.len() == i,
            forall|j: int| 0 <= j < i ==> Some((#[trigger] v@[j])@) == translate_spec(resp@[j]),
        decreases n - i,
    {
        proof {
            assert(resp@[i as int] == resp.domains@[i as int]@);
        }
        match translate_domain(&resp.domains[i]) {
            Ok(f) => {
                v.push(f);
            },
            Err(e) => {
                proof {
                    assert(translate_spec(resp@[i as int]) is None);
                    assert(!all_translate(resp@));
                    assert forall|j: int| 0 <= j < i implies translate_spec(
                        #[trigger] resp@[j],
                    ) is Some by {
                        assert(Some(v@[j]@) == translate_spec(resp@[j]));
                    }
                    assert(batch_error(resp@, e));
                }
                return Err(e);
            },
        }
        i += 1;
    }
    proof {
        assert forall|j: int| 0 <= j < resp@.len() implies translate_spec(
            #[trigger] resp@[j],
        ) is Some by {
            assert(Some(v@[j]@) == translate_spec(resp@[j]));
        }
    }
    Ok(v)
}

/// The translated batch, once every entry is known to translate.
pub open spec fn translated_seq(ds: Seq<PorkbunDomainModel>) -> Seq<DomainFactsModel> {
    ds.map_values(|d: PorkbunDomainModel| translate_spec(d)->0)
}

/// One run of the registrar sync on an already-fetched response: translate
/// every entry and upsert the whole batch. A malformed record leaves the
/// table untouched and fails the run.
pub fn apply_refresh(table: &mut DomainTable, resp: &FetchDomainsResponse) -> (r: Result<
    usize,
    TranslateError,
>)
    requires
        table_wf(old(table)@),
    ensures
        table_wf(final(table)@),
        r is Ok <==> all_translate(resp@),
        match r {
            Ok(k) => k == resp@.len() && final(table)@ == upsert_all_model(
                old(table)@,
                translated_seq(resp@),
            ),
            Err(e) => final(table)@ == old(table)@ && batch_error(resp@, e),
        },
{
    match translate_response(resp) {
        Ok(v) => {
            let k = v.len();
            table.upsert_all(&v);
            proof {
                assert(v@.map_values(|f: DomainFacts| f@) =~= translated_seq(resp@));
            }
            Ok(k)
        },
        Err(e) => Err(e),
    }
}

} // verus!
