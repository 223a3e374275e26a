//! Structured message bodies for common kinds of messages.
use vstd::prelude::*;
use crate::json::{Json, JsonValue, members_new, push_member, text_value, object_value};
use crate::types::time::{Timestamp, rfc3339_of};

verus! {

/// `o.unwrap_or(d)` on string slices, as text.
pub open spec fn or_text(o: Option<&str>, d: Seq<char>) -> Seq<char> {
    match o {
        Some(s) => s@,
        None => d,
    }
}

/// The chat message body sent at the instant rendered as `at`.
pub open spec fn chat_body(text: Seq<char>, username: Seq<char>, message_type: Option<&str>, at: Seq<char>) -> Json {
    Json::Object(seq![
        ("text"@, Json::Text(text)),
        ("username"@, Json::Text(username)),
        ("messageType"@, Json::Text(or_text(message_type, "chat"@))),
        ("timestamp"@, Json::Text(at)),
    ])
}

/// The members of a notification body before optional data.
pub open spec fn notification_members(title: Seq<char>, body: Seq<char>, category: Option<&str>, priority: Option<&str>, at: Seq<char>) -> Seq<(Seq<char>, Json)> {
    seq![
        ("title"@, Json::Text(title)),
        ("body"@, Json::Text(body)),
        ("category"@, Json::Text(or_text(category, "general"@))),
        ("priority"@, Json::Text(or_text(priority, "normal"@))),
        ("timestamp"@, Json::Text(at)),
    ]
}

/// `members` with `key: value` appended when `value` is present.
pub open spec fn with_optional(members: Seq<(Seq<char>, Json)>, key: Seq<char>, value: Option<Json>) -> Json {
    match value {
        Some(v) => Json::Object(members.push((key, v))),
        None => Json::Object(members),
    }
}

/// The view of an optional value.
pub open spec fn opt_json(v: Option<JsonValue>) -> Option<Json> {
    match v {
        Some(x) => Some(x@),
        None => None,
    }
}

/// The chat message body at the instant rendered as `at`.
pub fn chat_message_at(text: &str, username: &str, message_type: Option<&str>, at: &str) -> (r: JsonValue)
    ensures
        r@ == chat_body(text@, username@, message_type, at@),
{
    let mut m = members_new();
    push_member(&mut m, "text", text_value(text));
    push_member(&mut m, "username", text_value(username));
    let kind = match message_type {
        Some(t) => t,
        None => "chat",
    };
    push_member(&mut m, "messageType", text_value(kind));
    push_member(&mut m, "timestamp", text_value(at));
    let r = object_value(m);
    proof {
        assert(r@->Object_0 =~= chat_body(text@, username@, message_type, at@)->Object_0);
    }
    r
}

/// A chat message body stamped with the current time.
pub fn chat_message(text: &str, username: &str, message_type: Option<&str>) -> (r: JsonValue)
    ensures
        exists|secs: i64, nanos: u32|
            #![trigger rfc3339_of(secs, nanos)]
            rfc3339_of(secs, nanos) matches Some(at) && r@ == chat_body(text@, username@, message_type, at),
{
    let now = Timestamp::now();
    let at = now.to_rfc3339();
    match at {
        Some(at) => chat_message_at(text, username, message_type, at.as_str()),
        None => {
            proof {
                assert(false);
            }
            JsonValue::Null
        },
    }
}

/// The notification body at the instant rendered as `at`.
pub fn notification_message_at(title: &str, body: &str, category: Option<&str>, priority: Option<&str>, data: Option<JsonValue>, at: &str) -> (r: JsonValue)
    ensures
        r@ == with_optional(notification_members(title@, body@, category, priority, at@), "data"@, opt_json(data)),
{
    let mut m = members_new();
    push_member(&mut m, "title", text_value(title));
    push_member(&mut m, "body", text_value(body));
    let category_text = match category {
        Some(c) => c,
        None => "general",
    };
    push_member(&mut m, "category", text_value(category_text));
    let priority_text = match priority {
        Some(p) => p,
        None => "normal",
    };
    push_member(&mut m, "priority", text_value(priority_text));
    push_member(&mut m, "timestamp", text_value(at));
    proof {
        assert(crate::json::entries_view(m@) =~= notification_members(title@, body@, category, priority, at@));
    }
    match data {
        Some(d) => push_member(&mut m, "data", d),
        None => {},
    }
    object_value(m)
}

/// A notification body stamped with the current time.
pub fn notification_message(title: &str, body: &str, category: Option<&str>, priority: Option<&str>, data: Option<JsonValue>) -> (r: JsonValue)
    ensures
        exists|secs: i64, nanos: u32|
            #![trigger rfc3339_of(secs, nanos)]
            rfc3339_of(secs, nanos) matches Some(at) && r@ == with_optional(notification_members(title@, body@, category, priority, at), "data"@, opt_json(data)),
{
    let now = Timestamp::now();
    match now.to_rfc3339() {
        Some(at) => notification_message_at(title, body, category, priority, data, at.as_str()),
        None => {
            proof {
                assert(false);
            }
            JsonValue::Null
        },
    }
}

/// The system message members before optional metadata.
pub open spec fn system_members(event: Seq<char>, description: Seq<char>, at: Seq<char>) -> Seq<(Seq<char>, Json)> {
    seq![
        ("event"@, Json::Text(event)),
        ("description"@, Json::Text(description)),
        ("timestamp"@, Json::Text(at)),
    ]
}

/// The system message body at the instant rendered as `at`.
pub fn system_message_at(event: &str, description: &str, metadata: Option<JsonValue>, at: &str) -> (r: JsonValue)
    ensures
        r@ == with_optional(system_members(event@, description@, at@), "metadata"@, opt_json(metadata)),
{
    let mut m = members_new();
    push_member(&mut m, "event", text_value(event));
    push_member(&mut m, "description", text_value(description));
    push_member(&mut m, "timestamp", text_value(at));
    proof {
        assert(crate::json::entries_view(m@) =~= system_members(event@, description@, at@));
    }
    match metadata {
        Some(d) => push_member(&mut m, "metadata", d),
        None => {},
    }
    object_value(m)
}

/// A system message body stamped with the current time.
pub fn system_message(event: &str, description: &str, metadata: Option<JsonValue>) -> (r: JsonValue)
    ensures
        exists|secs: i64, nanos: u32|
            #![trigger rfc3339_of(secs, nanos)]
            rfc3339_of(secs, nanos) matches Some(at) && r@ == with_optional(system_members(event@, description@, at), "metadata"@, opt_json(metadata)),
{
    let now = Timestamp::now();
    match now.to_rfc3339() {
        Some(at) => system_message_at(event, description, metadata, at.as_str()),
        None => {
            proof {
                assert(false);
            }
            JsonValue::Null
        },
    }
}

/// The data event members before the optional source.
pub open spec fn data_event_members(event_type: Seq<char>, payload: Json, at: Seq<char>) -> Seq<(Seq<char>, Json)> {
    seq![
        ("eventType"@, Json::Text(event_type)),
        ("payload"@, payload),
        ("timestamp"@, Json::Text(at)),
    ]
}

/// The source text of a data event, as a value.
pub open spec fn source_json(source: Option<&str>) -> Option<Json> {
    match source {
        Some(s) => Some(Json::Text(s@)),
        None => None,
    }
}

/// The data event body at the instant rendered as `at`.
pub fn data_event_at(event_type: &str, payload: JsonValue, source: Option<&str>, at: &str) -> (r: JsonValue)
    ensures
        r@ == with_optional(data_event_members(event_type@, payload@, at@), "source"@, source_json(source)),
{
    let ghost p = payload@;
    let mut m = members_new();
    push_member(&mut m, "eventType", text_value(event_type));
    push_member(&mut m, "payload", payload);
    push_member(&mut m, "timestamp", text_value(at));
    proof {
        assert(crate::json::entries_view(m@) =~= data_event_members(event_type@, p, at@));
    }
    match source {
        Some(s) => push_member(&mut m, "source", text_value(s)),
        None => {},
    }
    object_value(m)
}

/// A data event body stamped with the current time.
pub fn data_event(event_type: &str, payload: JsonValue, source: Option<&str>) -> (r: JsonValue)
    ensures
        exists|secs: i64, nanos: u32|
            #![trigger rfc3339_of(secs, nanos)]
            rfc3339_of(secs, nanos) matches Some(at) && r@ == with_optional(data_event_members(event_type@, payload@, at), "source"@, source_json(source)),
{
    let now = Timestamp::now();
    match now.to_rfc3339() {
        Some(at) => data_event_at(event_type, payload, source, at.as_str()),
        None => {
            proof {
                assert(false);
            }
            JsonValue::Null
        },
    }
}

} // verus!
