use delta_sharing::token_entity::{Active, Id, Value};

const UUID: &str = "550e8400-e29b-41d4-a716-446655440000";

#[test]
fn token_test_valid_id() {
    assert!(Id::try_from(String::from(UUID)).is_ok());
}

#[test]
fn token_test_invalid_id() {
    assert!(Id::try_from("a".repeat(255)).is_err());
}

#[test]
fn test_valid_value() {
    assert!(Value::new("a".repeat(255)).is_ok());
}

#[test]
fn test_invalid_value() {
    assert!(Value::new(String::from("")).is_err());
}

#[test]
fn test_active_flag() {
    assert!(Active::new(true).to_bool());
    assert!(!Active::new(false).to_bool());
}
