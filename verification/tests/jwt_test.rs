use delta_sharing::error::Error;
use delta_sharing::jwt::{expires_in, expiry_millis_at, required_role_of, Claims, Role};

fn sample_claims(role: Role, exp: i64) -> Claims {
    Claims {
        iss: String::from("https://host"),
        sub: String::from("bob"),
        aud: vec![
            String::from("https://host/sharing/acme"),
            String::from("https://host/api"),
        ],
        jti: String::from("550e8400-e29b-41d4-a716-446655440000"),
        role,
        exp,
    }
}

#[test]
fn test_required_role_admin() {
    assert_eq!(required_role_of("/admin/thing"), Role::Admin);
}

#[test]
fn test_required_role_guest() {
    assert_eq!(required_role_of("/shares"), Role::Guest);
}

#[test]
fn test_required_role_edge_paths() {
    assert_eq!(required_role_of(""), Role::Guest);
    assert_eq!(required_role_of("/"), Role::Guest);
    assert_eq!(required_role_of("//admin/x"), Role::Admin);
    assert_eq!(required_role_of("/ADMIN/x"), Role::Admin);
    assert_eq!(required_role_of("admin"), Role::Admin);
    assert_eq!(required_role_of("/guest/x"), Role::Guest);
    assert_eq!(required_role_of("/administrator/x"), Role::Guest);
}

#[test]
fn test_role_from_str() {
    assert_eq!(Role::from_str("admin"), Ok(Role::Admin));
    assert_eq!(Role::from_str("ADMIN"), Ok(Role::Admin));
    assert_eq!(Role::from_str("guest"), Ok(Role::Guest));
    assert_eq!(Role::from_str("Guest"), Ok(Role::Guest));
    assert_eq!(Role::from_str("root"), Err(Error::ValidationFailed));
}

#[test]
fn test_claims_validate_ok() {
    let claims = sample_claims(Role::Guest, 2_000_000_000);
    let r = claims.validate("https://host", "https://host/sharing/acme", 1_000_000_000);
    assert!(r.is_ok());
}

#[test]
fn test_claims_audience_mismatch() {
    let claims = sample_claims(Role::Guest, 2_000_000_000);
    let r = claims.validate("https://host", "https://host/sharing/other", 1_000_000_000);
    assert_eq!(r, Err(Error::Unauthorized));
}

#[test]
fn test_claims_issuer_mismatch() {
    let claims = sample_claims(Role::Guest, 2_000_000_000);
    let r = claims.validate("https://elsewhere", "https://host/sharing/acme", 1_000_000_000);
    assert_eq!(r, Err(Error::Unauthorized));
}

#[test]
fn test_claims_expired() {
    let claims = sample_claims(Role::Guest, 1_000_000_000);
    let r = claims.validate("https://host", "https://host/sharing/acme", 1_000_000_000);
    assert_eq!(r, Err(Error::Unauthorized));
    let r = claims.validate("https://host", "https://host/sharing/acme", 2_000_000_000);
    assert_eq!(r, Err(Error::Unauthorized));
}

#[test]
fn test_authorize_guest_on_admin_path() {
    let claims = sample_claims(Role::Guest, 2_000_000_000);
    assert_eq!(claims.authorize("/admin/accounts"), Err(Error::Unauthorized));
}

#[test]
fn test_authorize_guest_on_guest_path() {
    let claims = sample_claims(Role::Guest, 2_000_000_000);
    assert!(claims.authorize("/shares").is_ok());
}

#[test]
fn test_authorize_admin_on_admin_path() {
    let claims = sample_claims(Role::Admin, 2_000_000_000);
    assert!(claims.authorize("/admin/accounts").is_ok());
}

#[test]
fn test_expires_in_negative_ttl() {
    assert_eq!(expires_in(-1), Err(Error::ClockOrRange));
}

#[test]
fn test_expires_in_renders_timestamp() {
    let (millis, rendered) = expires_in(600).expect("expiry should be computed");
    assert!(millis >= 600_000);
    assert!(rendered.ends_with(" UTC"));
}

#[test]
fn test_expiry_millis_at_exact() {
    assert_eq!(expiry_millis_at(1_000, 600), Ok(601_000));
    assert_eq!(expiry_millis_at(0, 0), Ok(0));
}

#[test]
fn test_expiry_millis_at_out_of_range() {
    assert_eq!(expiry_millis_at(0, -1), Err(Error::ClockOrRange));
    assert_eq!(expiry_millis_at(0, i64::MAX), Err(Error::ClockOrRange));
    assert_eq!(
        expiry_millis_at(i64::MAX as u64, 1),
        Err(Error::ClockOrRange)
    );
}
