//! The client's wire protocol: worker URLs, Engine.IO / Socket.IO framing,
//! event envelopes, request correlation and the routing of worker events.
use vstd::prelude::*;
use vstd::string::*;
use crate::error::{OddSocketsError, Result, opt_text, text_or};
use crate::json::{Json, JsonValue, Members, entries_view, members_new, push_member, text_value, object_value, prune_nulls, pruned, lemma_array_view, items_view};
use crate::text::{owned, concat2, concat3, has_prefix, starts_with, slice_chars, chars_of, trim_end_char, trimmed_end, str_eq};
use crate::types::records::Message;
use crate::types::time::Timestamp;
use crate::types::utils::{generate_message_id, is_prefixed_id};

verus! {

/// The Engine.IO path and query appended to a worker's WebSocket base URL.
pub const ENGINE_IO_PATH: &'static str = "/socket.io/?EIO=4&transport=websocket";

/// The WebSocket base of a worker URL: `https` becomes `wss`, `http`
/// becomes `ws`, `ws`/`wss` stay; anything else has no WebSocket form.
pub open spec fn ws_base(url: Seq<char>) -> Option<Seq<char>> {
    if has_prefix(url, "https://"@) {
        Some("wss://"@ + url.skip("https://"@.len() as int))
    } else if has_prefix(url, "http://"@) {
        Some("ws://"@ + url.skip("http://"@.len() as int))
    } else if has_prefix(url, "ws://"@) || has_prefix(url, "wss://"@) {
        Some(url)
    } else {
        None
    }
}

/// Builds the Engine.IO WebSocket URL from a worker URL.
pub fn build_ws_url(worker_url: &str) -> (r: Result<String>)
    ensures
        match ws_base(worker_url@) {
            Some(base) => r matches Ok(u) && u@ == trimmed_end(base, '/') + ENGINE_IO_PATH@,
            None => r matches Err(OddSocketsError::InvalidConfiguration { message }) && message@
                == "Unsupported worker URL scheme: "@ + worker_url@,
        },
{
    let n = worker_url.unicode_len();
    let base = if starts_with(worker_url, "https://") {
        proof {
            reveal_strlit("https://");
        }
        concat2("wss://", slice_chars(worker_url, 8, n).as_str())
    } else if starts_with(worker_url, "http://") {
        proof {
            reveal_strlit("http://");
        }
        concat2("ws://", slice_chars(worker_url, 7, n).as_str())
    } else if starts_with(worker_url, "ws://") || starts_with(worker_url, "wss://") {
        owned(worker_url)
    } else {
        return Err(
            OddSocketsError::InvalidConfiguration {
                message: concat2("Unsupported worker URL scheme: ", worker_url),
            },
        );
    };
    let trimmed = trim_end_char(base.as_str(), '/');
    Ok(concat2(trimmed.as_str(), ENGINE_IO_PATH))
}

/// What an Engine.IO frame asks of the client.
#[derive(Debug, Clone, PartialEq)]
pub enum EngineAction {
    /// OPEN: answer with the Socket.IO CONNECT carrying the credentials.
    Open,
    /// PING: answer with PONG.
    Ping,
    /// MESSAGE: a Socket.IO packet, given without the Engine.IO type.
    Packet(String),
    /// CLOSE: stop reading.
    Close,
    /// Anything else is ignored.
    Ignore,
}

/// The action for an Engine.IO text frame, decided by its first character.
pub open spec fn engine_action_of(frame: Seq<char>, a: EngineAction) -> bool {
    if frame.len() == 0 {
        a == EngineAction::Ignore
    } else if frame[0] == '0' {
        a == EngineAction::Open
    } else if frame[0] == '2' {
        a == EngineAction::Ping
    } else if frame[0] == '4' {
        a matches EngineAction::Packet(body) && body@ == frame.skip(1)
    } else if frame[0] == '1' {
        a == EngineAction::Close
    } else {
        a == EngineAction::Ignore
    }
}

/// Classifies an Engine.IO text frame.
pub fn engine_action(frame: &str) -> (a: EngineAction)
    ensures
        engine_action_of(frame@, a),
{
    let v = chars_of(frame);
    if v.len() == 0 {
        return EngineAction::Ignore;
    }
    let c = v[0];
    if c == '0' {
        EngineAction::Open
    } else if c == '2' {
        EngineAction::Ping
    } else if c == '4' {
        EngineAction::Packet(slice_chars(frame, 1, v.len()))
    } else if c == '1' {
        EngineAction::Close
    } else {
        EngineAction::Ignore
    }
}

/// The Engine.IO PONG frame.
pub fn pong_frame() -> (r: String)
    ensures
        r@ == "3"@,
{
    owned("3")
}

/// The Socket.IO DISCONNECT frame.
pub fn disconnect_frame() -> (r: String)
    ensures
        r@ == "41"@,
{
    owned("41")
}

/// The credentials sent with the Socket.IO CONNECT: the API key and the
/// configured user ID (null when none was configured).
pub open spec fn auth_of(api_key: Seq<char>, user_id: Option<Seq<char>>) -> Json {
    Json::Object(seq![
        ("apiKey"@, Json::Text(api_key)),
        ("userId"@, match user_id {
            Some(u) => Json::Text(u),
            None => Json::Null,
        }),
    ])
}

/// The Socket.IO CONNECT credentials.
pub fn connect_auth(api_key: &str, user_id: &Option<String>) -> (r: JsonValue)
    ensures
        r@ == auth_of(api_key@, opt_text(*user_id)),
{
    let mut m = members_new();
    push_member(&mut m, "apiKey", text_value(api_key));
    let u = match user_id {
        Some(u) => text_value(u.as_str()),
        None => JsonValue::Null,
    };
    push_member(&mut m, "userId", u);
    let r = object_value(m);
    proof {
        assert(r@->Object_0 =~= auth_of(api_key@, opt_text(*user_id))->Object_0);
    }
    r
}

/// The Socket.IO CONNECT frame for credentials serialized as `auth_text`.
pub fn connect_frame(auth_text: &str) -> (r: String)
    ensures
        r@ == "40"@ + auth_text@,
{
    concat2("40", auth_text)
}

/// A Socket.IO packet as the client reads it.
#[derive(Debug, Clone, PartialEq)]
pub enum SocketIoPacket {
    /// CONNECT acknowledged.
    ConnectAck,
    /// EVENT: the JSON text of the `[name, payload]` array.
    Event(String),
    /// CONNECT_ERROR, as the error it fails the connection with.
    ConnectError(OddSocketsError),
    /// Any other packet.
    Ignore,
}

/// The number of leading ASCII digits of `s`.
pub open spec fn digit_run(s: Seq<char>) -> nat {
    crate::text::lead_count(s, |c: char| '0' <= c && c <= '9')
}

/// What a Socket.IO packet (without its Engine.IO type) amounts to.
pub open spec fn packet_of(body: Seq<char>, p: SocketIoPacket) -> bool {
    if body.len() == 0 {
        p == SocketIoPacket::Ignore
    } else if body[0] == '0' {
        p == SocketIoPacket::ConnectAck
    } else if body[0] == '2' {
        p matches SocketIoPacket::Event(text) && text@ == body.skip(1).skip(digit_run(body.skip(1)) as int)
    } else if body[0] == '4' {
        p matches SocketIoPacket::ConnectError(OddSocketsError::AuthenticationFailed { message })
            && message@ == "Socket.IO connect error: "@ + body.skip(1)
    } else {
        p == SocketIoPacket::Ignore
    }
}

proof fn lemma_digit_run_step(s: Seq<char>, i: int)
    requires
        0 <= i <= s.len(),
        forall|j: int| 0 <= j < i ==> '0' <= #[trigger] s[j] && s[j] <= '9',
    ensures
        digit_run(s) == i + digit_run(s.skip(i)),
    decreases i,
{
    if i > 0 {
        assert(s.skip(1).skip(i - 1) =~= s.skip(i));
        assert(s.drop_first() =~= s.skip(1));
        lemma_digit_run_step(s.drop_first(), i - 1);
    } else {
        assert(s.skip(0) =~= s);
    }
}

/// Classifies a Socket.IO packet; for an EVENT the optional acknowledgement
/// id (leading digits) is stripped.
pub fn socketio_packet(body: &str) -> (p: SocketIoPacket)
    ensures
        packet_of(body@, p),
{
    let v = chars_of(body);
    if v.len() == 0 {
        return SocketIoPacket::Ignore;
    }
    let c = v[0];
    if c == '0' {
        SocketIoPacket::ConnectAck
    } else if c == '2' {
        let mut i: usize = 1;
        while i < v.len() && '0' <= v[i] && v[i] <= '9'
            invariant
                v@ == body@,
                1 <= i <= v@.len(),
                forall|j: int| 1 <= j < i ==> '0' <= #[trigger] v@[j] && v@[j] <= '9',
            decreases v@.len() - i,
        {
            i = i + 1;
        }
        proof {
            let rest = body@.skip(1);
            assert forall|j: int| 0 <= j < i - 1 implies '0' <= #[trigger] rest[j] && rest[j] <= '9' by {
                assert(rest[j] == v@[j + 1]);
            }
            lemma_digit_run_step(rest, i - 1);
            let tail = rest.skip(i - 1);
            if tail.len() > 0 {
                assert(tail[0] == v@[i as int]);
            }
            assert(digit_run(tail) == 0);
            assert(rest.skip(i - 1) =~= body@.subrange(i as int, body@.len() as int));
        }
        SocketIoPacket::Event(slice_chars(body, i, v.len()))
    } else if c == '4' {
        let rest = slice_chars(body, 1, v.len());
        SocketIoPacket::ConnectError(
            OddSocketsError::AuthenticationFailed {
                message: concat2("Socket.IO connect error: ", rest.as_str()),
            },
        )
    } else {
        SocketIoPacket::Ignore
    }
}

/// The event name and payload of a decoded EVENT array: the first element's
/// text (empty when it is not a string) and the second element (null when
/// missing). Nothing when the packet is not an array.
pub open spec fn event_call_of(v: Json) -> Option<(Seq<char>, Json)> {
    match v {
        Json::Array(items) => Some((
            if items.len() > 0 { text_or(items[0].text(), Seq::empty()) } else { Seq::empty() },
            if items.len() > 1 { items[1] } else { Json::Null },
        )),
        _ => None,
    }
}

/// Splits a decoded EVENT array into event name and payload.
pub fn event_call(v: &JsonValue) -> (r: Option<(String, JsonValue)>)
    ensures
        match r {
            Some((name, payload)) => event_call_of(v@) == Some((name@, payload@)),
            None => event_call_of(v@) is None,
        },
{
    match v.as_array() {
        Some(items) => {
            let name = if items.len() > 0 {
                match items[0].as_str() {
                    Some(s) => owned(s),
                    None => String::new(),
                }
            } else {
                String::new()
            };
            let payload = if items.len() > 1 {
                items[1].deep_clone()
            } else {
                JsonValue::Null
            };
            proof {
                if items@.len() == 0 {
                    assert(name@ =~= Seq::<char>::empty());
                }
            }
            Some((name, payload))
        },
        None => None,
    }
}

/// The `[event, payload]` array emitted for an application event, with the
/// payload's null members removed.
pub open spec fn envelope_of(event: Seq<char>, payload: Json) -> Json {
    Json::Array(seq![Json::Text(event), pruned(payload)])
}

/// Builds the `[event, payload]` array of an emitted event.
pub fn event_envelope(event: &str, payload: &JsonValue) -> (r: JsonValue)
    ensures
        r@ == envelope_of(event@, payload@),
{
    let mut items: Vec<JsonValue> = Vec::new();
    items.push(text_value(event));
    items.push(prune_nulls(payload));
    proof {
        lemma_array_view(items);
        assert(items_view(items@) =~= seq![Json::Text(event@), pruned(payload@)]);
    }
    JsonValue::Array(items)
}

/// The Socket.IO EVENT frame for an envelope serialized as `envelope_text`.
pub fn event_frame(envelope_text: &str) -> (r: String)
    ensures
        r@ == "42"@ + envelope_text@,
{
    concat2("42", envelope_text)
}

/// The key under which a request awaits `response_event` for `channel`.
pub open spec fn pending_key_of(response_event: Seq<char>, channel: Seq<char>) -> Seq<char> {
    response_event + ":"@ + channel
}

/// The key under which a request awaits its response.
pub fn pending_key(response_event: &str, channel: &str) -> (r: String)
    ensures
        r@ == pending_key_of(response_event@, channel@),
{
    concat3(response_event, ":", channel)
}

/// The error of a request that got no response within `timeout_secs`.
pub fn request_timeout_error(event: &str, timeout_secs: u64) -> (r: OddSocketsError)
    ensures
        r matches OddSocketsError::OperationTimeout { operation, timeout_secs: t } && operation@
            == event@ && t == timeout_secs,
{
    OddSocketsError::OperationTimeout { operation: owned(event), timeout_secs }
}

/// The error of a wait for `event` that was abandoned.
pub fn waiter_cancelled_error(event: &str) -> (r: OddSocketsError)
    ensures
        r matches OddSocketsError::ConnectionFailed { message } && message@ == "Waiter for '"@
            + event@ + "' cancelled"@,
{
    OddSocketsError::ConnectionFailed { message: concat3("Waiter for '", event, "' cancelled") }
}


/// The first of two optional values that is present.
pub open spec fn first_present(a: Option<Json>, b: Option<Json>) -> Option<Json> {
    match a {
        Some(x) => Some(x),
        None => b,
    }
}

/// The text of an optional value.
pub open spec fn opt_json_text(v: Option<Json>) -> Option<Seq<char>> {
    match v {
        Some(x) => x.text(),
        None => None,
    }
}

/// The text of the first of two optional texts that is present.
pub open spec fn first_text(a: Option<Seq<char>>, b: Option<Seq<char>>) -> Option<Seq<char>> {
    match a {
        Some(x) => Some(x),
        None => b,
    }
}

/// The publisher's user ID of a worker message envelope: `publisher.userId`,
/// else `userId`, when they are strings.
pub open spec fn publisher_of(payload: Json) -> Option<Seq<char>> {
    first_text(
        match payload.field("publisher"@) {
            Some(p) => p.field_text("userId"@),
            None => None,
        },
        payload.field_text("userId"@),
    )
}

/// Whether `m` is the message a worker envelope `payload` adapts to, with
/// `fallback_id` used when the envelope names no message ID and `now` as the
/// reception time.
pub open spec fn adapted(payload: Json, fallback_id: Seq<char>, now: Timestamp, m: Message) -> bool {
    &&& m.channel@ == text_or(payload.field_text("channel"@), Seq::empty())
    &&& m.data@ == match first_present(payload.field("message"@), payload.field("data"@)) {
        Some(d) => d,
        None => payload,
    }
    &&& opt_text(m.user_id) == publisher_of(payload)
    &&& m.id@ == text_or(
        opt_json_text(first_present(payload.field("messageId"@), payload.field("id"@))),
        fallback_id,
    )
    &&& m.timestamp == now
    &&& m.metadata is None
}

fn text_at(v: &JsonValue, key: &str) -> (r: Option<String>)
    ensures
        opt_text(r) == v@.field_text(key@),
{
    match v.get(key) {
        Some(x) => match x.as_str() {
            Some(s) => Some(owned(s)),
            None => None,
        },
        None => None,
    }
}

/// Adapts a worker `message` envelope into a message, given the ID to use
/// when the envelope carries none and the reception time.
pub fn adapt_message_with(payload: &JsonValue, fallback_id: &str, now: Timestamp) -> (m: Message)
    ensures
        adapted(payload@, fallback_id@, now, m),
        payload@.field_text("messageId"@) matches Some(s) ==> m.id@ == s,
        payload@.field("messageId"@) is None ==> (payload@.field_text("id"@) matches Some(s) ==> m.id@
            == s),
{
    let channel = match text_at(payload, "channel") {
        Some(c) => c,
        None => String::new(),
    };
    let data = match payload.get("message") {
        Some(d) => d.deep_clone(),
        None => match payload.get("data") {
            Some(d) => d.deep_clone(),
            None => payload.deep_clone(),
        },
    };
    let from_publisher = match payload.get("publisher") {
        Some(p) => text_at(p, "userId"),
        None => None,
    };
    let user_id = match from_publisher {
        Some(u) => Some(u),
        None => text_at(payload, "userId"),
    };
    let named = match payload.get("messageId") {
        Some(x) => Some(x),
        None => payload.get("id"),
    };
    let id = match named {
        Some(x) => match x.as_str() {
            Some(s) => owned(s),
            None => owned(fallback_id),
        },
        None => owned(fallback_id),
    };
    proof {
        if payload@.field_text("channel"@) is None {
            assert(channel@ =~= Seq::<char>::empty());
        }
    }
    Message { id, channel, data, timestamp: now, user_id, metadata: None }
}

/// Whether `m` is adapted from `payload` with some generated message ID as
/// fallback and some renderable reception time.
pub open spec fn adapted_on_receipt(payload: Json, m: Message) -> bool {
    exists|fallback_id: Seq<char>, now: Timestamp|
        is_prefixed_id(fallback_id, "msg_"@) && now.renderable() && #[trigger] adapted(payload, fallback_id, now, m)
}

/// Adapts a worker `message` envelope into a message received now; a
/// missing message ID is replaced by a generated one.
pub fn adapt_message(payload: &JsonValue) -> (m: Message)
    ensures
        adapted_on_receipt(payload@, m),
        payload@.field_text("messageId"@) matches Some(s) ==> m.id@ == s,
        payload@.field("messageId"@) is None ==> (payload@.field_text("id"@) matches Some(s) ==> m.id@
            == s),
{
    let fallback = generate_message_id();
    let now = Timestamp::now();
    adapt_message_with(payload, fallback.as_str(), now)
}

/// What the client does with one worker event.
pub struct DispatchPlan {
    /// The channel the event names (empty when it names none).
    pub channel: String,
    /// The pending request this event answers, by its key.
    pub resolve_key: Option<String>,
    /// The message to deliver to the channel's subscribers.
    pub deliver: Option<Message>,
    /// The error that fails every pending request.
    pub failure: Option<OddSocketsError>,
}

/// Whether an event is the worker's unsolicited on-join history snapshot,
/// which must not answer an explicit history query.
pub open spec fn is_history_snapshot(event: Seq<char>, payload: Json) -> bool {
    event == "history"@ && match payload.field("query"@) {
        Some(q) => q.boolean() != Some(true),
        None => true,
    }
}

/// The message that a worker `error` event fails pending requests with.
pub open spec fn worker_error_text(payload: Json) -> Seq<char> {
    text_or(payload.field_text("message"@), "Worker error"@)
}

/// Whether `plan` is what the client does with worker event `event`
/// carrying `payload`; a delivered message is adapted with some generated
/// fallback ID and the reception time.
pub open spec fn plans(event: Seq<char>, payload: Json, plan: DispatchPlan) -> bool {
    let channel = text_or(payload.field_text("channel"@), Seq::empty());
    &&& plan.channel@ == channel
    &&& if is_history_snapshot(event, payload) {
        plan.resolve_key is None
    } else {
        plan.resolve_key matches Some(k) && k@ == pending_key_of(event, channel)
    }
    &&& if event == "message"@ {
        plan.deliver matches Some(m) && adapted_on_receipt(payload, m)
    } else {
        plan.deliver is None
    }
    &&& if event == "error"@ {
        plan.failure matches Some(OddSocketsError::MessageDeliveryFailed { message, message_id, channel })
            && message@ == worker_error_text(payload) && message_id is None && channel is None
    } else {
        plan.failure is None
    }
}

/// Decides what to do with a worker event: which pending request it answers,
/// what it delivers to subscribers, and whether it fails pending requests.
pub fn dispatch_plan(event: &str, payload: &JsonValue) -> (plan: DispatchPlan)
    ensures
        plans(event@, payload@, plan),
{
    let channel = match text_at(payload, "channel") {
        Some(c) => c,
        None => String::new(),
    };
    proof {
        if payload@.field_text("channel"@) is None {
            assert(channel@ =~= Seq::<char>::empty());
        }
    }
    let query_true = match payload.get("query") {
        Some(q) => match q.as_bool() {
            Some(b) => b,
            None => false,
        },
        None => false,
    };
    let snapshot = str_eq(event, "history") && !query_true;
    let resolve_key = if snapshot {
        None
    } else {
        Some(pending_key(event, channel.as_str()))
    };
    let deliver = if str_eq(event, "message") {
        Some(adapt_message(payload))
    } else {
        None
    };
    let failure = if str_eq(event, "error") {
        let text = match text_at(payload, "message") {
            Some(t) => t,
            None => owned("Worker error"),
        };
        Some(OddSocketsError::MessageDeliveryFailed { message: text, message_id: None, channel: None })
    } else {
        None
    };
    DispatchPlan { channel, resolve_key, deliver, failure }
}

} // verus!

verus! {

/// What the client frames as an event, it reads back as that event: the
/// Engine.IO frame `42…` is a Socket.IO packet whose EVENT text is the
/// serialized envelope, provided the envelope does not begin with a digit
/// (a JSON array begins with `[`).
pub proof fn lemma_event_frame_round_trip(envelope_text: Seq<char>, action: EngineAction, packet: SocketIoPacket)
    requires
        envelope_text.len() == 0 || !('0' <= envelope_text[0] && envelope_text[0] <= '9'),
        engine_action_of("42"@ + envelope_text, action),
        action matches EngineAction::Packet(body) && packet_of(body@, packet),
    ensures
        packet matches SocketIoPacket::Event(text) && text@ == envelope_text,
{
    reveal_strlit("42");
    let frame = "42"@ + envelope_text;
    assert(frame[0] == '4');
    let body = frame.skip(1);
    assert(body =~= seq!['2'] + envelope_text);
    assert(body[0] == '2');
    assert(body.skip(1) =~= envelope_text);
    let rest = body.skip(1);
    if rest.len() > 0 {
        assert(!('0' <= rest[0] && rest[0] <= '9'));
    }
    assert(digit_run(rest) == 0);
    assert(rest.skip(0) =~= rest);
}

/// The worker's unsolicited history snapshot never answers a pending
/// history query, while an explicit answer (`query: true`) answers the one
/// waiting for that channel.
pub proof fn lemma_history_snapshot_ignored(payload: Json, plan: DispatchPlan)
    requires
        plans("history"@, payload, plan),
    ensures
        payload.field("query"@) == Some(Json::Bool(true)) ==> (plan.resolve_key matches Some(k) && k@
            == pending_key_of("history"@, text_or(payload.field_text("channel"@), Seq::empty()))),
        payload.field("query"@) != Some(Json::Bool(true)) ==> plan.resolve_key is None,
{
}


/// What a worker envelope adapts to: the ID is its `messageId`, or, when it
/// has no `messageId`, its `id`; the stand-in ID is used only when the member
/// found is not a string or neither is present. The content is its
/// `message`, else its `data`, else the whole envelope. The channel is its
/// `channel` (empty when absent); the time is the reception time.
pub proof fn lemma_adapted_fields(payload: Json, fallback_id: Seq<char>, now: Timestamp, m: Message)
    requires
        adapted(payload, fallback_id, now, m),
    ensures
        payload.field_text("messageId"@) matches Some(s) ==> m.id@ == s,
        payload.field("messageId"@) is None ==> (payload.field_text("id"@) matches Some(s) ==> m.id@
            == s),
        (payload.field("messageId"@) is Some && payload.field_text("messageId"@) is None) ==> m.id@
            == fallback_id,
        (payload.field("messageId"@) is None && payload.field_text("id"@) is None) ==> m.id@
            == fallback_id,
        payload.field("message"@) matches Some(d) ==> m.data@ == d,
        payload.field("message"@) is None ==> (payload.field("data"@) matches Some(d) ==> m.data@ == d),
        (payload.field("message"@) is None && payload.field("data"@) is None) ==> m.data@ == payload,
        payload.field_text("channel"@) matches Some(c) ==> m.channel@ == c,
        payload.field_text("channel"@) is None ==> m.channel@.len() == 0,
        m.timestamp == now,
{
}

/// A message adapted on receipt keeps the envelope's `messageId`, or else its
/// `id`; only when neither names a string ID does it get a generated `msg_` ID.
pub proof fn lemma_received_message_id(payload: Json, m: Message)
    requires
        adapted_on_receipt(payload, m),
    ensures
        payload.field_text("messageId"@) matches Some(s) ==> m.id@ == s,
        payload.field("messageId"@) is None ==> (payload.field_text("id"@) matches Some(s) ==> m.id@
            == s),
        (payload.field("messageId"@) is None && payload.field_text("id"@) is None) ==> is_prefixed_id(
            m.id@,
            "msg_"@,
        ),
{
    let (fallback_id, now) = choose|fallback_id: Seq<char>, now: Timestamp|
        is_prefixed_id(fallback_id, "msg_"@) && now.renderable() && #[trigger] adapted(payload, fallback_id, now, m);
    lemma_adapted_fields(payload, fallback_id, now, m);
}


/// How the client routes a worker event: every event but `history` answers
/// the request waiting for that event on the event's channel; a `message` is
/// delivered to its channel's subscribers with the envelope's own ID; an
/// `error` fails pending requests with the worker's message; no other event
/// delivers or fails anything.
pub proof fn lemma_dispatch_routes(event: Seq<char>, payload: Json, plan: DispatchPlan)
    requires
        plans(event, payload, plan),
    ensures
        event != "history"@ ==> (plan.resolve_key matches Some(k) && k@ == event + ":"@ + plan.channel@),
        payload.field_text("channel"@) matches Some(c) ==> plan.channel@ == c,
        event == "message"@ ==> (plan.deliver matches Some(m) && m.channel@ == plan.channel@),
        event == "message"@ ==> (payload.field_text("messageId"@) matches Some(s) ==> (plan.deliver matches Some(m) && m.id@ == s)),
        event == "error"@ ==> (payload.field_text("message"@) matches Some(t) ==> (plan.failure matches Some(OddSocketsError::MessageDeliveryFailed { message, .. }) && message@ == t)),
        event != "message"@ ==> plan.deliver is None,
        event != "error"@ ==> plan.failure is None,
{
    if event == "message"@ {
        let m = plan.deliver->0;
        lemma_received_message_id(payload, m);
    }
}

} // verus!
