//! The registrar API boundary: credentials, the shapes of the two read
//! endpoints' responses, and the registrar's fixed date format. The HTTP
//! calls themselves live outside the library; the logic here only consumes
//! their decoded responses.

use vstd::prelude::*;
use crate::strutil::{opt_int, opt_str};

verus! {

/// Registrar API credentials, supplied out-of-band by the caller.
pub struct Config {
    api_key: String,
    secret_api_key: String,
}

#[verifier::ext_equal]
pub struct ConfigModel {
    pub api_key: Seq<char>,
    pub secret_api_key: Seq<char>,
}

impl View for Config {
    type V = ConfigModel;

    closed spec fn view(&self) -> ConfigModel {
        ConfigModel { api_key: self.api_key@, secret_api_key: self.secret_api_key@ }
    }
}

impl Config {
    /// Credentials as handed in from the environment.
    pub fn new(api_key: String, secret_api_key: String) -> (c: Config)
        ensures
            c@.api_key == api_key@,
            c@.secret_api_key == secret_api_key@,
    {
        Config { api_key, secret_api_key }
    }
}

/// The authentication body both registrar endpoints take.
pub struct Auth {
    pub apikey: String,
    pub secretapikey: String,
}

impl Auth {
    /// The request body for the configured credentials.
    pub fn from_config(config: &Config) -> (a: Auth)
        ensures
            a.apikey@ == config@.api_key,
            a.secretapikey@ == config@.secret_api_key,
    {
        Auth {
            apikey: config.api_key.clone(),
            secretapikey: config.secret_api_key.clone(),
        }
    }
}

/// One domain as the registrar's "list all domains" endpoint reports it:
/// flags and dates still in the registrar's string encodings.
#[derive(Debug)]
pub struct PorkbunDomain {
    pub auto_renew: String,
    pub create_date: String,
    pub domain: String,
    pub expire_date: String,
    pub not_local: i32,
    pub security_lock: String,
    pub status: Option<String>,
    pub tld: String,
    pub whois_privacy: String,
}

#[verifier::ext_equal]
pub struct PorkbunDomainModel {
    pub auto_renew: Seq<char>,
    pub create_date: Seq<char>,
    pub domain: Seq<char>,
    pub expire_date: Seq<char>,
    pub not_local: int,
    pub security_lock: Seq<char>,
    pub status: Option<Seq<char>>,
    pub tld: Seq<char>,
    pub whois_privacy: Seq<char>,
}

impl View for PorkbunDomain {
    type V = PorkbunDomainModel;

    open spec fn view(&self) -> PorkbunDomainModel {
        PorkbunDomainModel {
            auto_renew: self.auto_renew@,
            create_date: self.create_date@,
            domain: self.domain@,
            expire_date: self.expire_date@,
            not_local: self.not_local as int,
            security_lock: self.security_lock@,
            status: opt_str(self.status),
            tld: self.tld@,
            whois_privacy: self.whois_privacy@,
        }
    }
}

/// The decoded "list all domains" response.
#[derive(Debug)]
pub struct FetchDomainsResponse {
    pub domains: Vec<PorkbunDomain>,
}

impl View for FetchDomainsResponse {
    type V = Seq<PorkbunDomainModel>;

    open spec fn view(&self) -> Seq<PorkbunDomainModel> {
        self.domains@.map_values(|d: PorkbunDomain| d@)
    }
}

/// One nameserver hostname.
#[derive(Debug)]
pub struct Nameserver(pub String);

impl View for Nameserver {
    type V = Seq<char>;

    open spec fn view(&self) -> Seq<char> {
        self.0@
    }
}

/// The decoded "get nameservers" response: the registrar's status word and
/// the ordered nameserver list.
#[derive(Debug)]
pub struct FetchDomainNameserversResponse {
    pub status: String,
    pub ns: Vec<Nameserver>,
}

#[verifier::ext_equal]
pub struct NameserversResponseModel {
    pub status: Seq<char>,
    pub ns: Seq<Seq<char>>,
}

impl View for FetchDomainNameserversResponse {
    type V = NameserversResponseModel;

    open spec fn view(&self) -> NameserversResponseModel {
        NameserversResponseModel {
            status: self.status@,
            ns: self.ns@.map_values(|n: Nameserver| n@),
        }
    }
}

/// The timestamp a date string denotes under a strftime-style format: what
/// chrono's parser returns, a function of the two texts alone.
pub uninterp spec fn parsed_datetime(fmt: Seq<char>, s: Seq<char>) -> Option<int>;

/// Relies on chrono's `NaiveDateTime::parse_from_str` (with `and_utc` and
/// `timestamp`): parsing is deterministic in the format and the text, and
/// yields the denoted UTC timestamp in seconds, or an error the caller sees
/// as `None`.
#[verifier::external_body]
fn parse_datetime_with(fmt: &str, s: &str) -> (r: Option<i64>)
    ensures
        opt_int(r) == parsed_datetime(fmt@, s@),
{
    match chrono::NaiveDateTime::parse_from_str(s, fmt) {
        Ok(dt) => Some(dt.and_utc().timestamp()),
        Err(_) => None,
    }
}

/// The registrar's fixed date format.
pub open spec fn registrar_date_format() -> Seq<char> {
    "%Y-%m-%d %H:%M:%S"@
}

/// Parses a registrar date string into a UTC timestamp; `None` exactly when
/// the string does not match the registrar's fixed format.
pub fn parse_registrar_date(s: &str) -> (r: Option<i64>)
    ensures
        opt_int(r) == parsed_datetime(registrar_date_format(), s@),
{
    parse_datetime_with("%Y-%m-%d %H:%M:%S", s)
}

} // verus!
