use domains::domains::DomainTable;
use domains::jobs::refresh_domains::{
    apply_refresh, translate_domain, translate_response, TranslateError,
};
use domains::porkbun::{parse_registrar_date, FetchDomainsResponse, PorkbunDomain};

fn raw_domain(name: &str, create: &str, expire: &str) -> PorkbunDomain {
    PorkbunDomain {
        auto_renew: "1".to_string(),
        create_date: create.to_string(),
        domain: name.to_string(),
        expire_date: expire.to_string(),
        not_local: 0,
        security_lock: "1".to_string(),
        status: Some("ACTIVE".to_string()),
        tld: "com".to_string(),
        whois_privacy: "0".to_string(),
    }
}

#[test]
fn registrar_date_parses_to_utc_midnight() {
    assert_eq!(parse_registrar_date("2024-01-15 00:00:00"), Some(1705276800));
}

#[test]
fn registrar_date_parses_time_of_day() {
    assert_eq!(parse_registrar_date("2024-01-15 01:02:03"), Some(1705276800 + 3723));
}

#[test]
fn malformed_dates_do_not_parse() {
    assert_eq!(parse_registrar_date("2024-01-15"), None);
    assert_eq!(parse_registrar_date("01/15/2024 00:00:00"), None);
    assert_eq!(parse_registrar_date("not a date"), None);
    assert_eq!(parse_registrar_date(""), None);
    assert_eq!(parse_registrar_date("2024-13-01 00:00:00"), None);
}

#[test]
fn translate_turns_flags_into_booleans_and_dates_into_timestamps() {
    let mut d = raw_domain("example.com", "2024-01-15 00:00:00", "2025-01-15 00:00:00");
    d.auto_renew = "1".to_string();
    d.security_lock = "0".to_string();
    d.whois_privacy = "1".to_string();
    d.not_local = 1;
    let f = translate_domain(&d).expect("both dates parse");
    assert_eq!(f.domain, "example.com");
    assert!(f.auto_renew);
    assert!(!f.security_lock);
    assert!(f.whois_privacy);
    assert!(f.not_local);
    assert_eq!(f.purchase_date, 1705276800);
    assert_eq!(f.expire_date, 1705276800 + 366 * 86400);
    assert_eq!(f.status, Some("ACTIVE".to_string()));
    assert_eq!(f.tld, "com");
}

#[test]
fn translate_reports_which_date_is_bad() {
    let bad_create = raw_domain("a.com", "nope", "2025-01-15 00:00:00");
    assert_eq!(translate_domain(&bad_create).unwrap_err(), TranslateError::BadCreateDate);
    let bad_expire = raw_domain("a.com", "2024-01-15 00:00:00", "nope");
    assert_eq!(translate_domain(&bad_expire).unwrap_err(), TranslateError::BadExpireDate);
}

#[test]
fn one_malformed_record_fails_the_whole_batch() {
    let resp = FetchDomainsResponse {
        domains: vec![
            raw_domain("a.com", "2024-01-15 00:00:00", "2025-01-15 00:00:00"),
            raw_domain("b.com", "2024-02-30 00:00:00", "2025-01-15 00:00:00"),
        ],
    };
    assert_eq!(translate_response(&resp).unwrap_err(), TranslateError::BadCreateDate);
    let mut table = DomainTable::new();
    let r = apply_refresh(&mut table, &resp);
    assert!(r.is_err());
    assert_eq!(table.len(), 0);
}

#[test]
fn refresh_upserts_one_record_per_domain() {
    let resp = FetchDomainsResponse {
        domains: vec![
            raw_domain("a.com", "2024-01-15 00:00:00", "2025-01-15 00:00:00"),
            raw_domain("b.com", "2023-06-01 12:30:00", "2026-06-01 12:30:00"),
        ],
    };
    let mut table = DomainTable::new();
    let k = apply_refresh(&mut table, &resp).expect("all records translate");
    assert_eq!(k, 2);
    assert_eq!(table.len(), 2);
    assert_eq!(table.record(0).domain, "a.com");
    assert_eq!(table.record(1).domain, "b.com");
}

#[test]
fn running_refresh_twice_with_identical_output_does_not_duplicate() {
    let resp = FetchDomainsResponse {
        domains: vec![
            raw_domain("a.com", "2024-01-15 00:00:00", "2025-01-15 00:00:00"),
            raw_domain("b.com", "2023-06-01 12:30:00", "2026-06-01 12:30:00"),
        ],
    };
    let mut table = DomainTable::new();
    apply_refresh(&mut table, &resp).unwrap();
    let first_expiry = table.record(0).expire_date;
    apply_refresh(&mut table, &resp).unwrap();
    assert_eq!(table.len(), 2);
    assert_eq!(table.record(0).domain, "a.com");
    assert_eq!(table.record(0).expire_date, first_expiry);
}
