use tasklist::error::TodoError;
use tasklist::text::decimal_string;

#[test]
fn test_todo_error_messages() {
    let config_error = TodoError::ConfigError("Oops".to_string());
    assert_eq!(config_error.message(), "Configuration error: Oops");
}

#[test]
fn list_not_found_message_names_the_list() {
    let e = TodoError::ListNotFound("Work".to_string());
    assert_eq!(e.message(), "List not found: Work");
}

#[test]
fn item_not_found_message_names_number_and_list() {
    let e = TodoError::ItemNotFound("Work".to_string(), 5);
    assert_eq!(e.message(), "Item not found: Item 5 in list Work");
    let e = TodoError::ItemNotFound("Home".to_string(), 120);
    assert_eq!(e.message(), "Item not found: Item 120 in list Home");
}

#[test]
fn every_other_kind_has_its_own_prefix() {
    assert_eq!(TodoError::InvalidInput("bad shape".to_string()).message(), "Invalid input: bad shape");
    assert_eq!(TodoError::StorageError("disk full".to_string()).message(), "Storage error: disk full");
    assert_eq!(TodoError::RemoteError("timeout".to_string()).message(), "Remote error: timeout");
    assert_eq!(
        TodoError::SerializationError("expected value".to_string()).message(),
        "Serialization error: expected value"
    );
    assert_eq!(TodoError::AuthError("denied".to_string()).message(), "Authentication error: denied");
}

#[test]
fn message_with_empty_detail_is_the_prefix() {
    assert_eq!(TodoError::ConfigError(String::new()).message(), "Configuration error: ");
}

#[test]
fn not_found_kinds_are_told_apart_from_failures() {
    assert!(TodoError::ListNotFound("a".to_string()).is_not_found());
    assert!(TodoError::ItemNotFound("a".to_string(), 1).is_not_found());
    assert!(!TodoError::StorageError("a".to_string()).is_not_found());
    assert!(!TodoError::RemoteError("a".to_string()).is_not_found());
    assert!(!TodoError::ConfigError("a".to_string()).is_not_found());
    assert!(!TodoError::InvalidInput("a".to_string()).is_not_found());
    assert!(!TodoError::SerializationError("a".to_string()).is_not_found());
    assert!(!TodoError::AuthError("a".to_string()).is_not_found());
}

#[test]
fn error_clone_is_equal() {
    let e = TodoError::ItemNotFound("Work".to_string(), 7);
    assert_eq!(e.clone(), e);
    let e = TodoError::RemoteError("down".to_string());
    assert_eq!(e.clone(), e);
}

#[test]
fn decimal_of_small_numbers() {
    assert_eq!(decimal_string(0), "0");
    assert_eq!(decimal_string(7), "7");
    assert_eq!(decimal_string(9), "9");
}

#[test]
fn decimal_of_larger_numbers() {
    assert_eq!(decimal_string(10), "10");
    assert_eq!(decimal_string(101), "101");
    assert_eq!(decimal_string(12345), "12345");
    assert_eq!(decimal_string(9007199254740991), "9007199254740991");
}

#[test]
fn decimal_agrees_with_std_on_the_largest_number() {
    assert_eq!(decimal_string(usize::MAX), usize::MAX.to_string());
}
