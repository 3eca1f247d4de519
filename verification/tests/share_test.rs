use delta_sharing::share::{Id, Name};

const UUID: &str = "550e8400-e29b-41d4-a716-446655440000";

#[test]
fn share_test_valid_id() {
    assert!(matches!(Id::try_from(String::from(UUID)), Ok(_)));
}

#[test]
fn share_test_invalid_id() {
    assert!(matches!(Id::try_from("a".repeat(255)), Err(_)));
}

#[test]
fn share_test_valid_name() {
    assert!(matches!(Name::new("a".repeat(255)), Ok(_)));
}

#[test]
fn share_test_invalid_name() {
    assert!(matches!(Name::new(String::from("")), Err(_)));
}
