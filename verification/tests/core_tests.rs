use oddsockets::{
    message_types, utils, BulkMessage, HistoryOptions, JsonValue, Message, OddSocketsConfig,
    PublishOptions, SubscribeOptions,
};

fn text(s: &str) -> JsonValue {
    JsonValue::Text(s.to_string())
}

fn object(pairs: Vec<(&str, JsonValue)>) -> JsonValue {
    JsonValue::Object(pairs.into_iter().map(|(k, v)| (k.to_string(), v)).collect())
}

fn field_text(v: &JsonValue, key: &str) -> Option<String> {
    v.get(key).and_then(|x| x.as_str()).map(|s| s.to_string())
}

#[test]
fn test_config_creation() {
    let config = OddSocketsConfig::new("ak_test_key");
    assert_eq!(config.api_key, "ak_test_key");
    assert!(config.auto_connect);
}

#[test]
fn test_config_builder() {
    let config = OddSocketsConfig::builder("ak_test_key")
        .auto_connect(false)
        .reconnect_attempts(10)
        .build()
        .unwrap();

    assert_eq!(config.api_key, "ak_test_key");
    assert!(!config.auto_connect);
    assert_eq!(config.reconnect_attempts, 10);
}

#[test]
fn test_message_creation() {
    let message = Message::new(
        "test-channel",
        object(vec![("text", text("Hello, World!"))]),
        Some("user123".to_string()),
        None,
    );

    assert_eq!(message.channel, "test-channel");
    assert_eq!(message.user_id, Some("user123".to_string()));
    assert!(message.has_data());
}

#[test]
fn test_bulk_message_creation() {
    let bulk_message = BulkMessage::new(
        "test-channel",
        object(vec![("text", text("Bulk message"))]),
        Some(PublishOptions::with_history()),
    );

    assert_eq!(bulk_message.channel, "test-channel");
    assert!(bulk_message.options.is_some());
    assert!(bulk_message.options.unwrap().store_in_history);
}

#[test]
fn test_subscribe_options() {
    let options = SubscribeOptions::chat_channel();
    assert!(options.enable_presence);
    assert!(options.retain_history);

    let options = SubscribeOptions::notification_channel();
    assert!(!options.enable_presence);
    assert!(!options.retain_history);
}

#[test]
fn test_publish_options() {
    let options = PublishOptions::chat_message();
    assert!(options.store_in_history);
    assert!(options.metadata.is_some());

    let options = PublishOptions::with_ttl(3600);
    assert_eq!(options.ttl, Some(3600));
}

#[test]
fn test_history_options() {
    let options = HistoryOptions::recent(50);
    assert_eq!(options.limit, Some(50));
    assert!(options.reverse);

    let options = HistoryOptions::last_hour(None);
    assert_eq!(options.limit, Some(100));
    assert!(options.start.is_some());
    assert!(options.reverse);
}

#[test]
fn test_message_types() {
    let chat_msg = message_types::chat_message("Hello", "user123", None);
    assert_eq!(field_text(&chat_msg, "text").unwrap(), "Hello");
    assert_eq!(field_text(&chat_msg, "username").unwrap(), "user123");
    assert_eq!(field_text(&chat_msg, "messageType").unwrap(), "chat");

    let notification = message_types::notification_message(
        "Alert",
        "Something happened",
        Some("system"),
        Some("high"),
        None,
    );
    assert_eq!(field_text(&notification, "title").unwrap(), "Alert");
    assert_eq!(field_text(&notification, "category").unwrap(), "system");
    assert_eq!(field_text(&notification, "priority").unwrap(), "high");
}

#[test]
fn test_utils() {
    let message_id = utils::generate_message_id();
    assert!(message_id.starts_with("msg_"));

    let user_id = utils::generate_user_id();
    assert!(user_id.starts_with("user_"));

    let bulk_msg = utils::bulk_message("test", object(vec![("test", JsonValue::Bool(true))]), None);
    assert_eq!(bulk_msg.channel, "test");
}
