use delta_sharing::config::Config;
use delta_sharing::error::Error;
use delta_sharing::profile::{expiration_time_from, new_endpoint, Service, VERSION};
use delta_sharing::token::{Hasher, Utility as TokenUtility};

fn test_config() -> Config {
    Config::new(
        String::from("https://example.com"),
        b"secret".to_vec(),
        "sha256",
    )
}

#[test]
fn test_profile() {
    let id = String::from("550e8400-e29b-41d4-a716-446655440000");
    let provider = String::from("pqrstuvwxy");
    let ttl = 100000;
    let config = test_config();
    let profile = Service::issue(id.clone(), provider.clone(), ttl, &config)
        .expect("profile should be issued properly");
    let (signed_id, _) = profile
        .bearer_token
        .split_once('.')
        .expect("token should have segments");
    assert_ne!(id, signed_id);
}

#[test]
fn test_profile_end_to_end() {
    let config = test_config();
    let profile = Service::issue(
        String::from("t1"),
        String::from("acme"),
        600,
        &config,
    )
    .expect("profile should be issued properly");
    assert_eq!(profile.share_credentials_version, VERSION);
    assert_eq!(profile.endpoint, "https://example.com/sharing/acme");
    let verification = TokenUtility::verify(&profile.bearer_token, &Hasher::Sha256, b"secret");
    assert!(verification.is_ok());
    assert!(profile.expiration_time.ends_with(" UTC"));
}

#[test]
fn test_issue_negative_ttl() {
    let config = test_config();
    let r = Service::issue(String::from("t1"), String::from("acme"), -5, &config);
    assert_eq!(r.err(), Some(Error::ClockOrRange));
}

#[test]
fn test_new_endpoint_exact() {
    let endpoint = new_endpoint("https://example.com", "acme");
    assert_eq!(endpoint, "https://example.com/sharing/acme");
}

#[test]
fn test_expiration_time_epoch() {
    assert_eq!(
        expiration_time_from(0).expect("epoch should render"),
        "1970-01-01 00:00:00 UTC"
    );
}

#[test]
fn test_expiration_time_known_value() {
    assert_eq!(
        expiration_time_from(1431648000).expect("timestamp should render"),
        "2015-05-15 00:00:00 UTC"
    );
}

#[test]
fn test_expiration_time_out_of_range() {
    assert_eq!(expiration_time_from(i64::MAX), Err(Error::ClockOrRange));
}

#[test]
fn test_config_resolves_hasher() {
    let c = Config::new(String::from("https://example.com"), vec![1, 2, 3], "sha384");
    assert_eq!(c.hasher, Hasher::Sha384);
    let c = Config::new(String::from("https://example.com"), vec![1, 2, 3], "unknown");
    assert_eq!(c.hasher, Hasher::Sha256);
}
