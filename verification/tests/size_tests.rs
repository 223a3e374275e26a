use oddsockets::message_size_validator::{
    get_max_message_size, get_max_message_size_kb, is_message_size_valid,
    validate_string_message_size, MAX_MESSAGE_SIZE, MAX_MESSAGE_SIZE_KB,
};
use oddsockets::OddSocketsError;

fn serialized_text_message(text: &str) -> String {
    let mut map = serde_json::Map::new();
    map.insert("text".to_string(), serde_json::Value::String(text.to_string()));
    serde_json::Value::Object(map).to_string()
}

#[test]
fn test_validate_small_message() {
    let message = serialized_text_message("Hello, World!");
    let size = validate_string_message_size(&message).unwrap();
    assert!(size > 0);
    assert!(size < MAX_MESSAGE_SIZE);
}

#[test]
fn test_validate_large_message() {
    let large_text = "x".repeat(MAX_MESSAGE_SIZE + 1000);
    let message = serialized_text_message(&large_text);

    let result = validate_string_message_size(&message);
    assert!(result.is_err());

    if let Err(OddSocketsError::MessageTooLarge { size_kb, max_size_kb, .. }) = result {
        assert!(size_kb > max_size_kb);
    } else {
        panic!("Expected MessageTooLarge error");
    }
}

#[test]
fn test_validate_string_message() {
    let message = "Hello, World!";
    let size = validate_string_message_size(message).unwrap();
    assert_eq!(size, message.len());
}

#[test]
fn test_validate_large_string_message() {
    let large_message = "x".repeat(MAX_MESSAGE_SIZE + 1000);
    let result = validate_string_message_size(&large_message);
    assert!(result.is_err());
}

#[test]
fn test_is_message_size_valid() {
    assert!(is_message_size_valid(1000));
    assert!(is_message_size_valid(MAX_MESSAGE_SIZE));
    assert!(!is_message_size_valid(MAX_MESSAGE_SIZE + 1));
}

#[test]
fn test_get_max_sizes() {
    assert_eq!(get_max_message_size(), MAX_MESSAGE_SIZE);
    assert_eq!(get_max_message_size_kb(), MAX_MESSAGE_SIZE_KB);
}

#[test]
fn test_boundary_conditions() {
    let boundary_text = "x".repeat(MAX_MESSAGE_SIZE - 20);
    let message = serialized_text_message(&boundary_text);
    let _ = validate_string_message_size(&message);
}

#[test]
fn too_large_error_explains_the_limit() {
    let big = "é".repeat(20000);
    match validate_string_message_size(&big) {
        Err(OddSocketsError::MessageTooLarge { size_kb, max_size_kb, message }) => {
            assert_eq!(size_kb, 40);
            assert_eq!(max_size_kb, 32);
            assert_eq!(
                message,
                "Message size (40KB) exceeds maximum allowed size of 32KB. This limit matches industry standards (PubNub, Socket.IO) for reliable real-time messaging."
            );
        }
        other => panic!("unexpected {:?}", other),
    }
    assert_eq!(validate_string_message_size(&"x".repeat(MAX_MESSAGE_SIZE)).unwrap(), MAX_MESSAGE_SIZE);
}

#[test]
fn refused_size_counts_every_started_kilobyte() {
    match validate_string_message_size(&"x".repeat(MAX_MESSAGE_SIZE + 1)) {
        Err(OddSocketsError::MessageTooLarge { size_kb, .. }) => assert_eq!(size_kb, 33),
        other => panic!("unexpected {:?}", other),
    }
    match validate_string_message_size(&"x".repeat(33 * 1024)) {
        Err(OddSocketsError::MessageTooLarge { size_kb, .. }) => assert_eq!(size_kb, 33),
        other => panic!("unexpected {:?}", other),
    }
}
