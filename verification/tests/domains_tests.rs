use domains::domains::{DomainFacts, DomainRecord, DomainTable};

fn facts(domain: &str, auto_renew: bool, purchase: i64, expire: i64) -> DomainFacts {
    DomainFacts {
        domain: domain.to_string(),
        auto_renew,
        purchase_date: purchase,
        expire_date: expire,
        not_local: false,
        security_lock: true,
        status: Some("ACTIVE".to_string()),
        tld: "com".to_string(),
        whois_privacy: true,
    }
}

fn assert_same_record(r: &DomainRecord, f: &DomainFacts, nameservers: &[&str]) {
    assert_eq!(r.domain, f.domain);
    assert_eq!(r.auto_renew, f.auto_renew);
    assert_eq!(r.purchase_date, f.purchase_date);
    assert_eq!(r.expire_date, f.expire_date);
    assert_eq!(r.not_local, f.not_local);
    assert_eq!(r.security_lock, f.security_lock);
    assert_eq!(r.status, f.status);
    assert_eq!(r.tld, f.tld);
    assert_eq!(r.whois_privacy, f.whois_privacy);
    let ns: Vec<String> = nameservers.iter().map(|s| s.to_string()).collect();
    assert_eq!(r.nameservers, ns);
}

#[test]
fn upsert_inserts_new_domain_without_nameservers() {
    let mut table = DomainTable::new();
    let f = facts("example.com", true, 100, 200);
    table.upsert(f.clone());
    assert_eq!(table.len(), 1);
    assert_same_record(table.record(0), &f, &[]);
}

#[test]
fn upsert_updates_in_place_and_keeps_nameservers() {
    let mut table = DomainTable::new();
    table.upsert(facts("example.com", true, 100, 200));
    assert!(table.set_nameservers(
        &"example.com".to_string(),
        vec!["ns1.example.net".to_string()],
    ));
    let newer = facts("example.com", false, 100, 300);
    table.upsert(newer.clone());
    assert_eq!(table.len(), 1);
    assert_same_record(table.record(0), &newer, &["ns1.example.net"]);
}

#[test]
fn upserting_identical_batch_twice_changes_nothing() {
    // One record per domain, fields equal to the latest input: running the
    // same batch a second time neither duplicates nor drifts.
    let batch = vec![
        facts("a.com", true, 10, 20),
        facts("b.org", false, 30, 40),
        facts("c.dev", true, 50, 60),
    ];
    let mut table = DomainTable::new();
    table.upsert_all(&batch);
    let after_once: Vec<String> = snapshot(&table);
    table.upsert_all(&batch);
    let after_twice: Vec<String> = snapshot(&table);
    assert_eq!(table.len(), 3);
    assert_eq!(after_once, after_twice);
}

fn snapshot(table: &DomainTable) -> Vec<String> {
    let mut rows = Vec::new();
    for i in 0..table.len() {
        let r = table.record(i);
        rows.push(format!(
            "{}|{}|{}|{}|{}|{}|{:?}|{}|{}|{:?}",
            r.domain,
            r.auto_renew,
            r.purchase_date,
            r.expire_date,
            r.not_local,
            r.security_lock,
            r.status,
            r.tld,
            r.whois_privacy,
            r.nameservers,
        ));
    }
    rows
}

#[test]
fn later_batch_wins_over_earlier_one() {
    let mut table = DomainTable::new();
    table.upsert_all(&vec![facts("a.com", true, 10, 20)]);
    table.upsert_all(&vec![facts("a.com", false, 10, 99)]);
    assert_eq!(table.len(), 1);
    assert_eq!(table.record(0).expire_date, 99);
    assert!(!table.record(0).auto_renew);
}

#[test]
fn find_reports_presence_and_absence() {
    let mut table = DomainTable::new();
    table.upsert(facts("a.com", true, 10, 20));
    assert_eq!(table.find("a.com"), Some(0));
    assert_eq!(table.find("b.com"), None);
}

#[test]
fn set_nameservers_on_unknown_domain_changes_nothing() {
    let mut table = DomainTable::new();
    table.upsert(facts("a.com", true, 10, 20));
    assert!(!table.set_nameservers(&"b.com".to_string(), vec!["ns".to_string()]));
    assert_eq!(table.len(), 1);
    assert!(table.record(0).nameservers.is_empty());
}
