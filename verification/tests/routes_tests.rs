use domains::porkbun::{Auth, Config};
use domains::registry::{job_registry, JobKind};
use domains::routes::{host_message, redirect_target, LoginCallback};

#[test]
fn alias_hosts_redirect_to_their_targets() {
    assert_eq!(redirect_target("coreyja.tv"), Some("https://coreyja.com/videos".to_string()));
    assert_eq!(redirect_target("coreyja.tube"), Some("https://coreyja.com/videos".to_string()));
    assert_eq!(redirect_target("coreyja.blog"), Some("https://coreyja.com/posts".to_string()));
    assert_eq!(redirect_target("coreyja.club"), Some("https://discord.gg/CpAPpXrgUq".to_string()));
    assert_eq!(redirect_target("beta.coreyja.com"), Some("https://coreyja.com".to_string()));
}

#[test]
fn unknown_hosts_do_not_redirect() {
    assert_eq!(redirect_target("coreyja.domains"), None);
    assert_eq!(redirect_target(""), None);
    assert_eq!(redirect_target("coreyja.tv2"), None);
}

#[test]
fn root_route_answers_by_host() {
    assert_eq!(
        host_message("redirects.coreyja.domains"),
        "I have lots of domains. Some of them just redirect to others.",
    );
    assert_eq!(host_message("elsewhere.example"), "This is not one of the hosts I know about.");
}

#[test]
fn login_callback_keeps_its_state_token() {
    let cb = LoginCallback::new("signed-token".to_string());
    assert_eq!(cb.state().as_str(), "signed-token");
}

#[test]
fn auth_body_copies_the_configured_credentials() {
    let config = Config::new("key".to_string(), "secret".to_string());
    let auth = Auth::from_config(&config);
    assert_eq!(auth.apikey, "key");
    assert_eq!(auth.secretapikey, "secret");
}

#[test]
fn dispatch_resolves_names_to_kinds() {
    let registry = job_registry();
    assert_eq!(registry.dispatch(&"RefreshDomains".to_string()), Some(JobKind::RefreshDomains));
    assert_eq!(
        registry.dispatch(&"RefreshDomainsNameservers".to_string()),
        Some(JobKind::RefreshDomainsNameservers),
    );
    assert_eq!(
        registry.dispatch(&"RefreshDomainNameservers".to_string()),
        Some(JobKind::RefreshDomainNameservers),
    );
    assert_eq!(registry.dispatch(&"SomethingElse".to_string()), None);
}
