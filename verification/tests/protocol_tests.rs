use oddsockets::enhanced;
use oddsockets::json::prune_nulls;
use oddsockets::protocol::{
    adapt_message_with, build_ws_url, connect_auth, dispatch_plan, engine_action, event_call,
    event_envelope, event_frame, pending_key, socketio_packet, EngineAction, SocketIoPacket,
};
use oddsockets::requests::{
    history_messages, history_request, presence_parts, publish_request, published_message_id,
    subscribe_request,
};
use oddsockets::session::{
    collect_bulk_results, connect_step, handshake_timeout, read_worker_assignment,
    assignment_status_error, ConnectAction, ConnectEvent,
};
use oddsockets::{
    ConnectionState, Duration, HistoryOptions, JsonNumber, JsonValue, OddSocketsError,
    PresenceInfo, PublishOptions, PublishResult, SubscribeOptions, Timestamp,
};

fn text(s: &str) -> JsonValue {
    JsonValue::Text(s.to_string())
}

fn object(pairs: Vec<(&str, JsonValue)>) -> JsonValue {
    JsonValue::Object(pairs.into_iter().map(|(k, v)| (k.to_string(), v)).collect())
}

fn num(n: u64) -> JsonValue {
    JsonValue::Number(JsonNumber::PosInt(n))
}

#[test]
fn ws_url_from_worker_url() {
    assert_eq!(
        build_ws_url("https://w1.example.net/").unwrap(),
        "wss://w1.example.net/socket.io/?EIO=4&transport=websocket"
    );
    assert_eq!(
        build_ws_url("http://localhost:4000").unwrap(),
        "ws://localhost:4000/socket.io/?EIO=4&transport=websocket"
    );
    assert_eq!(
        build_ws_url("wss://w2.example.net").unwrap(),
        "wss://w2.example.net/socket.io/?EIO=4&transport=websocket"
    );
    assert_eq!(
        build_ws_url("ftp://w.example").unwrap_err(),
        OddSocketsError::InvalidConfiguration { message: "Unsupported worker URL scheme: ftp://w.example".to_string() }
    );
}

#[test]
fn engine_frames_are_classified() {
    assert_eq!(engine_action("0{\"sid\":\"x\"}"), EngineAction::Open);
    assert_eq!(engine_action("2"), EngineAction::Ping);
    assert_eq!(engine_action("1"), EngineAction::Close);
    assert_eq!(engine_action(""), EngineAction::Ignore);
    assert_eq!(engine_action("6"), EngineAction::Ignore);
    assert_eq!(engine_action("42[\"a\",1]"), EngineAction::Packet("2[\"a\",1]".to_string()));
}

#[test]
fn socketio_packets_are_classified() {
    assert_eq!(socketio_packet("0{\"sid\":\"s\"}"), SocketIoPacket::ConnectAck);
    assert_eq!(socketio_packet("2[\"message\",{}]"), SocketIoPacket::Event("[\"message\",{}]".to_string()));
    assert_eq!(socketio_packet("217[\"ack\"]"), SocketIoPacket::Event("[\"ack\"]".to_string()));
    assert_eq!(
        socketio_packet("4{\"message\":\"denied\"}"),
        SocketIoPacket::ConnectError(OddSocketsError::AuthenticationFailed {
            message: "Socket.IO connect error: {\"message\":\"denied\"}".to_string()
        })
    );
    assert_eq!(socketio_packet("3"), SocketIoPacket::Ignore);
    assert_eq!(socketio_packet(""), SocketIoPacket::Ignore);
}

#[test]
fn frames_round_trip() {
    let frame = event_frame("[\"publish\",{}]");
    assert_eq!(frame, "42[\"publish\",{}]");
    match engine_action(&frame) {
        EngineAction::Packet(body) => {
            assert_eq!(socketio_packet(&body), SocketIoPacket::Event("[\"publish\",{}]".to_string()))
        }
        other => panic!("unexpected {:?}", other),
    }
}

#[test]
fn event_arrays_split_into_name_and_payload() {
    let v = JsonValue::Array(vec![text("message"), object(vec![("channel", text("c"))])]);
    let (name, payload) = event_call(&v).unwrap();
    assert_eq!(name, "message");
    assert_eq!(payload, object(vec![("channel", text("c"))]));
    let (name, payload) = event_call(&JsonValue::Array(vec![num(3)])).unwrap();
    assert_eq!(name, "");
    assert_eq!(payload, JsonValue::Null);
    assert!(event_call(&text("x")).is_none());
}

#[test]
fn nulls_are_pruned_at_every_depth() {
    let v = object(vec![
        ("a", JsonValue::Null),
        ("b", object(vec![("c", JsonValue::Null), ("d", num(1))])),
        ("e", JsonValue::Array(vec![JsonValue::Null, object(vec![("f", JsonValue::Null)])])),
    ]);
    let expected = object(vec![
        ("b", object(vec![("d", num(1))])),
        ("e", JsonValue::Array(vec![JsonValue::Null, object(vec![])])),
    ]);
    let once = prune_nulls(&v);
    assert_eq!(once, expected);
    assert_eq!(prune_nulls(&once), once);
}

#[test]
fn emitted_envelope_prunes_payload() {
    let env = event_envelope("publish", &object(vec![("x", JsonValue::Null), ("y", JsonValue::Bool(true))]));
    assert_eq!(env, JsonValue::Array(vec![text("publish"), object(vec![("y", JsonValue::Bool(true))])]));
    assert_eq!(pending_key("published", "room"), "published:room");
}

#[test]
fn connect_auth_carries_credentials() {
    assert_eq!(
        connect_auth("ak_1", &None),
        object(vec![("apiKey", text("ak_1")), ("userId", JsonValue::Null)])
    );
    assert_eq!(
        connect_auth("ak_1", &Some("alice".to_string())),
        object(vec![("apiKey", text("ak_1")), ("userId", text("alice"))])
    );
}

#[test]
fn worker_messages_are_adapted() {
    let now = Timestamp { secs: 100, nanos: 5 };
    let payload = object(vec![
        ("channel", text("room")),
        ("message", object(vec![("text", text("hi"))])),
        ("publisher", object(vec![("userId", text("bob"))])),
        ("messageId", text("m-1")),
    ]);
    let m = adapt_message_with(&payload, "msg_fallback", now);
    assert_eq!(m.channel, "room");
    assert_eq!(m.data, object(vec![("text", text("hi"))]));
    assert_eq!(m.user_id, Some("bob".to_string()));
    assert_eq!(m.id, "m-1");
    assert_eq!(m.timestamp, now);
    let bare = object(vec![("userId", text("carol")), ("id", num(9))]);
    let m = adapt_message_with(&bare, "msg_fallback", now);
    assert_eq!(m.channel, "");
    assert_eq!(m.data, bare);
    assert_eq!(m.user_id, Some("carol".to_string()));
    assert_eq!(m.id, "msg_fallback");
}

#[test]
fn dispatch_routes_events() {
    let snapshot = object(vec![("channel", text("room")), ("messages", JsonValue::Array(vec![]))]);
    let plan = dispatch_plan("history", &snapshot);
    assert!(plan.resolve_key.is_none());
    let answer = object(vec![("channel", text("room")), ("query", JsonValue::Bool(true))]);
    assert_eq!(dispatch_plan("history", &answer).resolve_key, Some("history:room".to_string()));
    let plan = dispatch_plan("message", &object(vec![("channel", text("room")), ("data", num(1))]));
    assert_eq!(plan.resolve_key, Some("message:room".to_string()));
    let delivered = plan.deliver.unwrap();
    assert_eq!(delivered.data, num(1));
    assert!(delivered.id.starts_with("msg_"));
    let plan = dispatch_plan("error", &object(vec![]));
    assert_eq!(
        plan.failure,
        Some(OddSocketsError::MessageDeliveryFailed { message: "Worker error".to_string(), message_id: None, channel: None })
    );
    assert!(plan.deliver.is_none());
}

#[test]
fn connection_life_cycle() {
    let (s, a) = connect_step(ConnectionState::Disconnected, ConnectEvent::Requested);
    assert_eq!(s, ConnectionState::Connecting);
    assert_eq!(a, ConnectAction::RequestAssignment);
    let (s, a) = connect_step(s, ConnectEvent::WorkerAssigned("https://w.example/".to_string()));
    assert_eq!(s, ConnectionState::Connecting);
    assert_eq!(a, ConnectAction::OpenSocket("wss://w.example/socket.io/?EIO=4&transport=websocket".to_string()));
    let (s, a) = connect_step(s, ConnectEvent::SocketOpened);
    assert_eq!(a, ConnectAction::AwaitHandshake);
    let (s, a) = connect_step(s, ConnectEvent::HandshakeAccepted);
    assert_eq!(s, ConnectionState::Connected);
    assert_eq!(a, ConnectAction::Finish(Ok(())));
    let (s2, a) = connect_step(s, ConnectEvent::Requested);
    assert_eq!(s2, ConnectionState::Connected);
    assert_eq!(a, ConnectAction::Finish(Ok(())));
    let (s, a) = connect_step(ConnectionState::Connecting, ConnectEvent::HandshakeTimedOut);
    assert_eq!(s, ConnectionState::Disconnected);
    assert_eq!(a, ConnectAction::Finish(Err(OddSocketsError::ConnectionFailed { message: "Timed out waiting for Socket.IO handshake".to_string() })));
    let (s, a) = connect_step(ConnectionState::Connecting, ConnectEvent::SocketFailed("refused".to_string()));
    assert_eq!(s, ConnectionState::Disconnected);
    assert_eq!(a, ConnectAction::Finish(Err(OddSocketsError::ConnectionFailed { message: "WebSocket connect to worker failed: refused".to_string() })));
    let (s, a) = connect_step(ConnectionState::Connected, ConnectEvent::Closed);
    assert_eq!(s, ConnectionState::Disconnected);
    assert_eq!(a, ConnectAction::Idle);
}

#[test]
fn handshake_waits_at_least_fifteen_seconds() {
    assert_eq!(handshake_timeout(Duration::from_secs(10)), Duration::from_secs(15));
    assert_eq!(handshake_timeout(Duration::from_secs(30)), Duration::from_secs(30));
}

#[test]
fn worker_assignment_is_read() {
    let body = object(vec![("url", text("https://w.example")), ("workerId", text("w-7"))]);
    assert_eq!(read_worker_assignment(&body).unwrap(), ("https://w.example".to_string(), Some("w-7".to_string())));
    assert_eq!(
        read_worker_assignment(&object(vec![])).unwrap_err(),
        OddSocketsError::WorkerAssignmentFailed { message: "Invalid worker assignment response (no url)".to_string() }
    );
    assert_eq!(
        assignment_status_error(503),
        OddSocketsError::WorkerAssignmentFailed { message: "Manager returned HTTP 503".to_string() }
    );
}

#[test]
fn channel_requests_have_the_worker_shape() {
    let r = subscribe_request("room", &SubscribeOptions::chat_channel());
    assert_eq!(r.event, "subscribe");
    assert_eq!(r.response_event, "subscribed");
    assert_eq!(r.timeout_secs, 10);
    assert_eq!(
        r.payload,
        object(vec![
            ("channel", text("room")),
            ("options", object(vec![("enablePresence", JsonValue::Bool(true)), ("retainHistory", JsonValue::Bool(true)), ("maxHistory", num(100))])),
        ])
    );
    let r = publish_request("room", text("hello"), &PublishOptions::with_ttl(60));
    assert_eq!(
        r.payload,
        object(vec![
            ("channel", text("room")),
            ("message", text("hello")),
            ("options", object(vec![("storeInHistory", JsonValue::Bool(false)), ("ttl", num(60))])),
        ])
    );
    let r = history_request("room", Some(HistoryOptions::recent(20)));
    assert_eq!(r.payload, object(vec![("channel", text("room")), ("count", num(20))]));
    let r = history_request("room", None);
    assert_eq!(r.payload, object(vec![("channel", text("room")), ("count", num(50))]));
    let start = Timestamp { secs: 0, nanos: 0 };
    let r = history_request("room", Some(HistoryOptions { limit: None, start: Some(start), end: None, reverse: false }));
    assert_eq!(r.payload.get("start"), Some(&text("1970-01-01T00:00:00+00:00")));
}

#[test]
fn responses_are_read() {
    assert_eq!(published_message_id(&object(vec![("message_id", text("m9"))])), "m9");
    assert_eq!(published_message_id(&object(vec![])), "");
    let resp = object(vec![("messages", JsonValue::Array(vec![object(vec![("channel", text("room")), ("data", num(1))])]))]);
    let msgs = history_messages(&resp);
    assert_eq!(msgs.len(), 1);
    assert_eq!(msgs[0].data, num(1));
    let presence = object(vec![
        ("occupants", JsonValue::Array(vec![object(vec![("userId", text("a"))]), object(vec![]), object(vec![("userId", text("b"))])])),
        ("occupancy", num(5)),
    ]);
    assert_eq!(presence_parts(&presence), (vec!["a".to_string(), "b".to_string()], 5));
    let presence = object(vec![("users", JsonValue::Array(vec![text("x"), num(1)]))]);
    assert_eq!(presence_parts(&presence), (vec!["x".to_string()], 1));
    let info = PresenceInfo::new("room", vec!["a".to_string()]);
    assert!(info.is_user_present("a"));
    assert!(!info.is_user_present("z"));
    assert!(!info.is_empty());
}

#[test]
fn bulk_results_follow_the_outcomes() {
    let ok = PublishResult::success("m1", "room");
    let outcomes = vec![Ok(ok.clone()), Err(OddSocketsError::Timeout)];
    let results = collect_bulk_results(outcomes);
    assert_eq!(results.len(), 2);
    assert!(results[0].is_successful());
    assert_eq!(results[0].result, Some(ok));
    assert!(results[1].is_failed());
    assert_eq!(results[1].error_message("Unknown error"), "Operation timed out");
}

#[test]
fn enhanced_requests_have_the_worker_shape() {
    let r = enhanced::thread_reply("room", "m1", "hi", "alice", "Alice");
    assert_eq!(r.event, "thread_reply");
    assert_eq!(r.reply_event, Some("thread_reply_success"));
    assert_eq!(
        r.params,
        object(vec![
            ("channel", text("room")),
            ("parentMessageId", text("m1")),
            ("message", text("hi")),
            ("userId", text("alice")),
            ("userName", text("Alice")),
        ])
    );
    let r = enhanced::start_typing("alice", "room");
    assert_eq!(r.reply_event, None);
    assert_eq!(r.params, object(vec![("userId", text("alice")), ("channel", text("room"))]));
    let r = enhanced::get_notifications("alice", 20, Some("unread"));
    assert_eq!(r.params, object(vec![("userId", text("alice")), ("limit", num(20)), ("status", text("unread"))]));
    let r = enhanced::set_dnd("alice", None);
    assert_eq!(r.params, object(vec![("userId", text("alice"))]));
    let r = enhanced::create_dm(vec!["a".to_string(), "b".to_string()], "direct");
    assert_eq!(r.params, object(vec![("userIds", JsonValue::Array(vec![text("a"), text("b")])), ("type", text("direct"))]));
    let r = enhanced::create_channel("n", "public", "d", "t", "u", "U");
    assert_eq!(r.params.get("members"), Some(&JsonValue::Array(vec![])));
}
