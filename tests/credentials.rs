use coinex_auth::{APIAuth, APIType, Capability, HTTPVerb, MasterAPI};

fn list(ips: &[&str]) -> Option<Vec<String>> {
    Some(ips.iter().map(|s| s.to_string()).collect())
}

#[test]
fn no_allowlist_admits_every_address() {
    let auth = APIAuth::new("key", "secret", None);
    for ip in ["", "1.2.3.4", "not an address", "::1", "1.2.3.4 "] {
        assert!(auth.is_whitelisted(ip));
    }
}

#[test]
fn allowlist_matches_exactly() {
    let auth = APIAuth::new("key", "secret", list(&["1.2.3.4", "10.0.0.1"]));
    assert!(auth.is_whitelisted("1.2.3.4"));
    assert!(auth.is_whitelisted("10.0.0.1"));
    assert!(!auth.is_whitelisted("1.2.3.4 "));
    assert!(!auth.is_whitelisted("1.2.3.04"));
    assert!(!auth.is_whitelisted(""));
    assert!(!auth.is_whitelisted("10.0.0.2"));
}

#[test]
fn empty_allowlist_admits_no_address() {
    let auth = APIAuth::new("key", "secret", list(&[]));
    assert!(!auth.is_whitelisted(""));
    assert!(!auth.is_whitelisted("1.2.3.4"));
}

#[test]
fn get_key_gives_the_identifier_not_the_secret() {
    let auth = APIAuth::new("public-id", "private-secret", None);
    assert_eq!(auth.get_key(), "public-id");
    assert_ne!(auth.get_key(), "private-secret");
}

#[test]
fn verbs_are_written_upper_case() {
    assert_eq!(HTTPVerb::GET.as_str(), "GET");
    assert_eq!(HTTPVerb::POST.as_str(), "POST");
    assert_eq!(HTTPVerb::DELETE.as_str(), "DELETE");
}

#[test]
fn every_scope_resolves_to_its_credential() {
    let scopes = [
        APIType::ReadOnly(APIAuth::new("k0", "s", None)),
        APIType::Withdraw(APIAuth::new("k1", "s", None)),
        APIType::Trade(APIAuth::new("k2", "s", None)),
        APIType::ALL(APIAuth::new("k3", "s", None)),
    ];
    for (i, scope) in scopes.iter().enumerate() {
        assert_eq!(scope.get_auth().get_key(), format!("k{i}"));
    }
}

#[test]
fn master_api_reads_through_to_its_credential() {
    let api = MasterAPI::new(APIType::Trade(APIAuth::new("master", "s", list(&["127.0.0.1"]))));
    assert_eq!(api.get_key(), "master");
    assert!(api.is_whitelisted("127.0.0.1"));
    assert!(!api.is_whitelisted("127.0.0.2"));
}

#[test]
fn capabilities_compare_by_value() {
    assert_eq!(Capability::Trade, Capability::Trade);
    assert_ne!(Capability::Trade, Capability::Withdraw);
}
