use domains::domains::{DnsProvider, DomainRecord};

fn record_with_ns(nameservers: &[&str]) -> DomainRecord {
    DomainRecord {
        domain: "example.com".to_string(),
        auto_renew: true,
        purchase_date: 0,
        expire_date: 0,
        not_local: false,
        security_lock: false,
        status: None,
        tld: "com".to_string(),
        whois_privacy: false,
        nameservers: nameservers.iter().map(|s| s.to_string()).collect(),
    }
}

#[test]
fn cloudflare_pair_classifies_as_cloudflare() {
    let r = record_with_ns(&["x.ns.cloudflare.com", "y.ns.cloudflare.com"]);
    assert!(r.using_cloudflare_dns());
    assert_eq!(r.dns_provider(), DnsProvider::Cloudflare);
}

#[test]
fn mixed_nameservers_classify_as_unknown_and_list_is_preserved() {
    let r = record_with_ns(&["x.ns.cloudflare.com", "ns1.porkbun.com"]);
    assert_eq!(r.dns_provider(), DnsProvider::Unknown);
    assert_eq!(
        r.nameservers,
        vec!["x.ns.cloudflare.com".to_string(), "ns1.porkbun.com".to_string()],
    );
}

#[test]
fn porkbun_nameservers_classify_as_porkbun() {
    let r = record_with_ns(&["curitiba.ns.porkbun.com", "fortaleza.ns.porkbun.com"]);
    assert!(r.using_porkbun_dns());
    assert_eq!(r.dns_provider(), DnsProvider::Porkbun);
}

#[test]
fn google_domains_nameservers_classify_as_google_domains() {
    let r = record_with_ns(&["ns-cloud-a1.googledomains.com"]);
    assert!(r.using_google_domains_dns());
    assert_eq!(r.dns_provider(), DnsProvider::GoogleDomains);
}

#[test]
fn vercel_nameservers_classify_as_vercel() {
    let r = record_with_ns(&["ns1.vercel-dns.com", "ns2.vercel-dns.com"]);
    assert!(r.using_vercel_dns());
    assert_eq!(r.dns_provider(), DnsProvider::Vercel);
}

#[test]
fn route53_is_matched_by_substring_anywhere() {
    let r = record_with_ns(&["ns-123.awsdns-45.org", "ns-678.awsdns-90.co.uk"]);
    assert!(r.using_route53_dns());
    assert_eq!(r.dns_provider(), DnsProvider::Route53);
}

#[test]
fn suffix_match_is_exact_not_loose() {
    // "cloudflare.com" as a bare domain does not end with ".cloudflare.com".
    let r = record_with_ns(&["cloudflare.com"]);
    assert!(!r.using_cloudflare_dns());
    assert_eq!(r.dns_provider(), DnsProvider::Unknown);
}

#[test]
fn provider_display_names_match_the_page() {
    assert_eq!(DnsProvider::Porkbun.display_name(), "Porkbun");
    assert_eq!(DnsProvider::Cloudflare.display_name(), "Cloudflare");
    assert_eq!(DnsProvider::GoogleDomains.display_name(), "Google Domains");
    assert_eq!(DnsProvider::Vercel.display_name(), "Vercel");
    assert_eq!(DnsProvider::Route53.display_name(), "AWS Route 53");
    assert_eq!(DnsProvider::Unknown.display_name(), "Unknown");
}
