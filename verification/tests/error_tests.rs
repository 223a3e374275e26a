use oddsockets::{JsonNumber, JsonValue, OddSocketsError, OddSocketsResultExt, WebSocketFailure};

#[test]
fn test_error_codes() {
    let error = OddSocketsError::InvalidApiKey {
        message: "Test".to_string(),
    };
    assert_eq!(error.error_code(), "INVALID_API_KEY");
}

#[test]
fn test_recoverable_errors() {
    let recoverable = OddSocketsError::ConnectionFailed {
        message: "Test".to_string(),
    };
    assert!(recoverable.is_recoverable());

    let non_recoverable = OddSocketsError::InvalidApiKey {
        message: "Test".to_string(),
    };
    assert!(!non_recoverable.is_recoverable());
}

#[test]
fn test_should_reconnect() {
    let should_reconnect = OddSocketsError::ConnectionFailed {
        message: "Test".to_string(),
    };
    assert!(should_reconnect.should_reconnect());

    let should_not_reconnect = OddSocketsError::InvalidApiKey {
        message: "Test".to_string(),
    };
    assert!(!should_not_reconnect.should_reconnect());
}

#[test]
fn test_recovery_suggestions() {
    let error = OddSocketsError::InvalidApiKey {
        message: "Test".to_string(),
    };
    let suggestions = error.recovery_suggestions();
    assert!(!suggestions.is_empty());
    assert!(suggestions.contains(&"Verify your API key is correct"));
}

#[test]
fn test_from_error_code() {
    let error = OddSocketsError::from_error_code(
        "INVALID_API_KEY",
        "Test message".to_string(),
        None,
    );
    match error {
        OddSocketsError::InvalidApiKey { message } => {
            assert_eq!(message, "Test message");
        }
        _ => panic!("Expected InvalidApiKey error"),
    }
}

fn detail(key: &str, v: JsonValue) -> (String, JsonValue) {
    (key.to_string(), v)
}

#[test]
fn error_codes_of_unlisted_variants() {
    let e = OddSocketsError::HttpError { message: "x".to_string(), status: Some(500) };
    assert_eq!(e.error_code(), "HTTP_ERROR");
    assert_eq!(OddSocketsError::JsonError { message: "x".to_string() }.error_code(), "JSON_ERROR");
    assert_eq!(OddSocketsError::IoError { message: "x".to_string() }.error_code(), "IO_ERROR");
    assert_eq!(OddSocketsError::Unknown { message: "x".to_string() }.error_code(), "UNKNOWN_ERROR");
}

#[test]
fn http_and_websocket_recoverability() {
    let auth = OddSocketsError::HttpError { message: "x".to_string(), status: Some(403) };
    assert!(!auth.is_recoverable());
    assert!(!auth.should_reconnect());
    let server = OddSocketsError::HttpError { message: "x".to_string(), status: Some(503) };
    assert!(server.is_recoverable());
    assert!(server.should_reconnect());
    let protocol = OddSocketsError::WebSocketError { message: "x".to_string(), close_code: Some(1002), close_reason: None };
    assert!(!protocol.is_recoverable());
    assert!(!protocol.should_reconnect());
    let abnormal = OddSocketsError::WebSocketError { message: "x".to_string(), close_code: Some(1006), close_reason: None };
    assert!(abnormal.should_reconnect());
    let timeout = OddSocketsError::OperationTimeout { operation: "publish".to_string(), timeout_secs: 10 };
    assert!(timeout.is_recoverable());
    assert!(!timeout.should_reconnect());
}

#[test]
fn websocket_suggestions_lead_with_the_close_reason() {
    let e = OddSocketsError::WebSocketError { message: "x".to_string(), close_code: Some(1011), close_reason: None };
    let s = e.recovery_suggestions();
    assert_eq!(s.len(), 4);
    assert_eq!(s[0], "Server error - try again later");
    assert_eq!(s[1], "Check your internet connection");
    let plain = OddSocketsError::WebSocketError { message: "x".to_string(), close_code: None, close_reason: None };
    assert_eq!(plain.recovery_suggestions().len(), 3);
}

#[test]
fn from_error_code_reads_details() {
    let details = vec![
        detail("channel", JsonValue::Text("room".to_string())),
        detail("messageId", JsonValue::Text("m1".to_string())),
    ];
    match OddSocketsError::from_error_code("MESSAGE_DELIVERY_FAILED", "boom".to_string(), Some(details)) {
        OddSocketsError::MessageDeliveryFailed { message, message_id, channel } => {
            assert_eq!(message, "boom");
            assert_eq!(message_id, Some("m1".to_string()));
            assert_eq!(channel, Some("room".to_string()));
        }
        other => panic!("unexpected {:?}", other),
    }
    match OddSocketsError::from_error_code("CHANNEL_ACCESS_DENIED", "no".to_string(), None) {
        OddSocketsError::ChannelAccessDenied { channel, .. } => assert_eq!(channel, "unknown"),
        other => panic!("unexpected {:?}", other),
    }
    let details = vec![detail("attempts", JsonValue::Number(JsonNumber::PosInt(7)))];
    assert_eq!(
        OddSocketsError::from_error_code("MAX_RECONNECT_ATTEMPTS_REACHED", "m".to_string(), Some(details)),
        OddSocketsError::MaxReconnectAttemptsReached { attempts: 7 }
    );
    let details = vec![
        detail("closeCode", JsonValue::Number(JsonNumber::PosInt(1006))),
        detail("closeReason", JsonValue::Text("gone".to_string())),
    ];
    assert_eq!(
        OddSocketsError::from_error_code("WEBSOCKET_ERROR", "ws".to_string(), Some(details)),
        OddSocketsError::WebSocketError { message: "ws".to_string(), close_code: Some(1006), close_reason: Some("gone".to_string()) }
    );
    let details = vec![detail("operation", JsonValue::Text("publish".to_string())), detail("timeout", JsonValue::Number(JsonNumber::PosInt(5)))];
    assert_eq!(
        OddSocketsError::from_error_code("OPERATION_TIMEOUT", "t".to_string(), Some(details)),
        OddSocketsError::OperationTimeout { operation: "publish".to_string(), timeout_secs: 5 }
    );
    assert_eq!(
        OddSocketsError::from_error_code("SOMETHING_ELSE", "?".to_string(), None),
        OddSocketsError::Unknown { message: "?".to_string() }
    );
}

#[test]
fn error_code_round_trips_through_from_error_code() {
    let e = OddSocketsError::WorkerAssignmentFailed { message: "w".to_string() };
    let back = OddSocketsError::from_error_code(e.error_code(), "w".to_string(), None);
    assert_eq!(back.error_code(), e.error_code());
    assert_eq!(back, e);
}

#[test]
fn display_texts() {
    assert_eq!(
        OddSocketsError::InvalidApiKey { message: "bad".to_string() }.display_text(),
        "Invalid API key: bad"
    );
    assert_eq!(
        OddSocketsError::MaxReconnectAttemptsReached { attempts: 5 }.display_text(),
        "Maximum reconnection attempts (5) reached"
    );
    assert_eq!(
        OddSocketsError::OperationTimeout { operation: "publish".to_string(), timeout_secs: 10 }.display_text(),
        "Operation 'publish' timed out after 10 seconds"
    );
    assert_eq!(
        OddSocketsError::ChannelAccessDenied { channel: "c".to_string(), message: "m".to_string() }.display_text(),
        "Channel access denied for 'c': m"
    );
}

#[test]
fn websocket_failure_close_codes() {
    assert_eq!(
        OddSocketsError::from_websocket_failure(WebSocketFailure::ConnectionClosed, "closed".to_string()),
        OddSocketsError::WebSocketError { message: "closed".to_string(), close_code: Some(1000), close_reason: Some("Connection closed".to_string()) }
    );
    assert_eq!(
        OddSocketsError::from_websocket_failure(WebSocketFailure::Protocol("bad frame".to_string()), "p".to_string()),
        OddSocketsError::WebSocketError { message: "p".to_string(), close_code: Some(1002), close_reason: Some("bad frame".to_string()) }
    );
    assert_eq!(
        OddSocketsError::from_websocket_failure(WebSocketFailure::Other, "o".to_string()),
        OddSocketsError::WebSocketError { message: "o".to_string(), close_code: None, close_reason: None }
    );
    assert_eq!(
        OddSocketsError::from_url_failure("relative URL without a base"),
        OddSocketsError::InvalidConfiguration { message: "Invalid URL: relative URL without a base".to_string() }
    );
}

#[test]
fn result_extension_maps_errors() {
    let r: Result<u8, String> = Err("disk".to_string());
    assert_eq!(r.with_context("saving"), Err(OddSocketsError::Unknown { message: "saving: disk".to_string() }));
    let r: Result<u8, String> = Err("refused".to_string());
    assert_eq!(r.as_connection_error(), Err(OddSocketsError::ConnectionFailed { message: "refused".to_string() }));
    let r: Result<u8, String> = Ok(3);
    assert_eq!(r.as_delivery_error(None, None), Ok(3));
}
