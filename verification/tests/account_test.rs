use delta_sharing::account::{
    Account, Email, Entity, Id, Image, Name, SocialId, SocialName, SocialPlatform,
};

const UUID: &str = "550e8400-e29b-41d4-a716-446655440000";

fn long_string() -> String {
    "a".repeat(255)
}

#[test]
fn account_test_valid_id() {
    assert!(Id::try_from(String::from(UUID)).is_ok());
}

#[test]
fn account_test_invalid_id() {
    assert!(Id::try_from(long_string()).is_err());
}

#[test]
fn account_test_valid_name() {
    assert!(Name::new(long_string()).is_ok());
}

#[test]
fn account_test_invalid_name() {
    assert!(Name::new(String::from("")).is_err());
}

#[test]
fn test_valid_email() {
    assert!(Email::new(String::from("someone@example.com")).is_ok());
}

#[test]
fn test_invalid_email() {
    assert!(Email::new(String::from("abcdefghijklmnopqrst")).is_err());
}

#[test]
fn test_valid_image() {
    assert!(Image::new(String::from("https://example.com/image.png")).is_ok());
}

#[test]
fn test_invalid_image() {
    assert!(Image::new(String::from("abcdefghijklmnopqrst")).is_err());
}

#[test]
fn test_valid_social_platform() {
    assert!(SocialPlatform::new(long_string()).is_ok());
}

#[test]
fn test_invalid_social_platform() {
    assert!(SocialPlatform::new(String::from("")).is_err());
}

#[test]
fn test_valid_social_id() {
    assert!(SocialId::new(long_string()).is_ok());
}

#[test]
fn test_invalid_social_id() {
    assert!(SocialId::new(String::from("")).is_err());
}

#[test]
fn test_valid_social_name() {
    assert!(SocialName::new(long_string()).is_ok());
}

#[test]
fn test_invalid_social_name() {
    assert!(SocialName::new(String::from("")).is_err());
}

#[test]
fn test_entity_new_and_project() {
    let entity = Entity::new(
        Some(String::from(UUID)),
        String::from("alice"),
        String::from("alice@example.com"),
        String::from("https://example.com/alice.png"),
        String::from("github"),
        String::from("12345"),
        String::from("Alice Example"),
    )
    .expect("account should be valid");
    assert_eq!(entity.id().as_str(), UUID);
    assert_eq!(entity.name().as_str(), "alice");
    let account = Account::from(entity);
    assert_eq!(account.name, "alice");
    assert_eq!(account.email, "alice@example.com");
    assert_eq!(account.image, "https://example.com/alice.png");
    assert_eq!(account.social_platform, "github");
    assert_eq!(account.social_id, "12345");
    assert_eq!(account.social_name, "Alice Example");
}

#[test]
fn test_entity_generated_id() {
    let entity = Entity::new(
        None,
        String::from("bob"),
        String::from("bob@example.com"),
        String::from("https://example.com/bob.png"),
        String::from("github"),
        String::from("67890"),
        String::from("Bob Example"),
    )
    .expect("account should be valid");
    let id = String::from(entity.id().as_str());
    assert!(Id::try_from(id).is_ok());
}

#[test]
fn test_entity_invalid_email() {
    let entity = Entity::new(
        Some(String::from(UUID)),
        String::from("alice"),
        String::from("not-an-email"),
        String::from("https://example.com/alice.png"),
        String::from("github"),
        String::from("12345"),
        String::from("Alice Example"),
    );
    assert!(entity.is_err());
}
