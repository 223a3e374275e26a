//! Channel requests as the worker expects them, and the reading of its
//! responses: subscribe, unsubscribe, publish, history and presence.
use vstd::prelude::*;
use vstd::string::*;
use crate::error::{OddSocketsError, Result, text_or};
use crate::json::{Json, JsonNumber, lemma_lookup_absent, lemma_lookup_found, JsonValue, Members, entries_view, items_view, lemma_array_view, members_new, push_member, text_value, object_value, copy_members};
use crate::protocol::{adapt_message, adapted_on_receipt, first_present, opt_json_text};
use crate::text::owned;
use crate::types::options::{SubscribeOptions, PublishOptions, HistoryOptions, metadata_view};
use crate::types::records::{Message, PresenceInfo};
use crate::types::time::{Timestamp, rfc3339_of};
use crate::types::utils::is_prefixed_id;

verus! {

/// A request on a channel: the event to emit with its payload, the event
/// that answers it, and how long to wait for the answer.
pub struct ChannelRequest {
    pub event: &'static str,
    pub payload: JsonValue,
    pub response_event: &'static str,
    pub timeout_secs: u64,
}

/// A JSON integer.
pub open spec fn num(n: nat) -> Json {
    Json::Number(JsonNumber::PosInt(n as u64))
}

/// An integer value.
pub fn number_value(n: u64) -> (r: JsonValue)
    ensures
        r@ == Json::Number(JsonNumber::PosInt(n)),
{
    JsonValue::Number(JsonNumber::PosInt(n))
}

/// `members` with `key: value` appended when `value` is present.
pub open spec fn push_if(members: Seq<(Seq<char>, Json)>, key: Seq<char>, value: Option<Json>) -> Seq<(Seq<char>, Json)> {
    match value {
        Some(v) => members.push((key, v)),
        None => members,
    }
}

/// The subscription options as sent to the worker.
pub open spec fn subscribe_options_json(o: SubscribeOptions) -> Json {
    Json::Object(push_if(
        seq![
            ("enablePresence"@, Json::Bool(o.enable_presence)),
            ("retainHistory"@, Json::Bool(o.retain_history)),
            ("maxHistory"@, Json::Number(JsonNumber::PosInt(100))),
        ],
        "filterExpression"@,
        match o.filter_expression {
            Some(f) => Some(Json::Text(f@)),
            None => None,
        },
    ))
}

/// Whether `r` requests `event` with `payload` and awaits `response_event`
/// for `timeout_secs` seconds.
pub open spec fn is_request(r: ChannelRequest, event: Seq<char>, payload: Json, response_event: Seq<char>, timeout_secs: u64) -> bool {
    r.event@ == event && r.payload@ == payload && r.response_event@ == response_event && r.timeout_secs == timeout_secs
}

/// The subscribe request for channel `name`.
pub fn subscribe_request(name: &str, options: &SubscribeOptions) -> (r: ChannelRequest)
    ensures
        is_request(
            r,
            "subscribe"@,
            Json::Object(seq![("channel"@, Json::Text(name@)), ("options"@, subscribe_options_json(*options))]),
            "subscribed"@,
            10,
        ),
        r.payload@.field("options"@) matches Some(opts) && opts.field_text("filterExpression"@)
            == match options.filter_expression {
                Some(f) => Some(f@),
                None => None::<Seq<char>>,
            },
{
    let mut opts = members_new();
    push_member(&mut opts, "enablePresence", JsonValue::Bool(options.enable_presence));
    push_member(&mut opts, "retainHistory", JsonValue::Bool(options.retain_history));
    push_member(&mut opts, "maxHistory", number_value(100));
    match &options.filter_expression {
        Some(f) => push_member(&mut opts, "filterExpression", text_value(f.as_str())),
        None => {},
    }
    proof {
        assert(entries_view(opts@) =~= subscribe_options_json(*options)->Object_0);
    }
    let mut payload = members_new();
    push_member(&mut payload, "channel", text_value(name));
    push_member(&mut payload, "options", object_value(opts));
    let payload = object_value(payload);
    proof {
        assert(payload@->Object_0 =~= seq![("channel"@, Json::Text(name@)), ("options"@, subscribe_options_json(*options))]);
    }
    let r = ChannelRequest { event: "subscribe", payload, response_event: "subscribed", timeout_secs: 10 };
    proof {
        lemma_subscribe_sends_options(name@, *options, r);
    }
    r
}

/// The unsubscribe request for channel `name`.
pub fn unsubscribe_request(name: &str) -> (r: ChannelRequest)
    ensures
        is_request(r, "unsubscribe"@, Json::Object(seq![("channel"@, Json::Text(name@))]), "unsubscribed"@, 5),
{
    let mut payload = members_new();
    push_member(&mut payload, "channel", text_value(name));
    let payload = object_value(payload);
    proof {
        assert(payload@->Object_0 =~= seq![("channel"@, Json::Text(name@))]);
    }
    ChannelRequest { event: "unsubscribe", payload, response_event: "unsubscribed", timeout_secs: 5 }
}

/// The publish options as sent to the worker.
pub open spec fn publish_options_json(o: PublishOptions) -> Json {
    Json::Object(push_if(
        push_if(
            seq![("storeInHistory"@, Json::Bool(o.store_in_history))],
            "ttl"@,
            match o.ttl {
                Some(t) => Some(Json::Number(JsonNumber::PosInt(t))),
                None => None,
            },
        ),
        "metadata"@,
        match metadata_view(o.metadata) {
            Some(m) => Some(Json::Object(m)),
            None => None,
        },
    ))
}

/// The publish request for `message` on channel `name`.
pub fn publish_request(name: &str, message: JsonValue, options: &PublishOptions) -> (r: ChannelRequest)
    ensures
        is_request(
            r,
            "publish"@,
            Json::Object(seq![
                ("channel"@, Json::Text(name@)),
                ("message"@, message@),
                ("options"@, publish_options_json(*options)),
            ]),
            "published"@,
            10,
        ),
{
    let ghost message_view = message@;
    let mut opts = members_new();
    push_member(&mut opts, "storeInHistory", JsonValue::Bool(options.store_in_history));
    match options.ttl {
        Some(t) => push_member(&mut opts, "ttl", number_value(t)),
        None => {},
    }
    match &options.metadata {
        Some(m) => push_member(&mut opts, "metadata", object_value(copy_members(m))),
        None => {},
    }
    proof {
        assert(entries_view(opts@) =~= publish_options_json(*options)->Object_0);
    }
    let mut payload = members_new();
    push_member(&mut payload, "channel", text_value(name));
    push_member(&mut payload, "message", message);
    push_member(&mut payload, "options", object_value(opts));
    let payload = object_value(payload);
    proof {
        assert(payload@->Object_0 =~= seq![
            ("channel"@, Json::Text(name@)),
            ("message"@, message_view),
            ("options"@, publish_options_json(*options)),
        ]);
    }
    ChannelRequest { event: "publish", payload, response_event: "published", timeout_secs: 10 }
}

/// The message ID that a publish response reports: `messageId`, else
/// `message_id`, when it is a string; empty otherwise.
pub open spec fn published_id_of(response: Json) -> Seq<char> {
    text_or(opt_json_text(first_present(response.field("messageId"@), response.field("message_id"@))), Seq::empty())
}

/// Reads the message ID from a publish response.
pub fn published_message_id(response: &JsonValue) -> (r: String)
    ensures
        r@ == published_id_of(response@),
        response@.field_text("messageId"@) matches Some(s) ==> r@ == s,
        response@.field("messageId"@) is None ==> r@ == text_or(response@.field_text("message_id"@), Seq::empty()),
{
    let v = match response.get("messageId") {
        Some(x) => Some(x),
        None => response.get("message_id"),
    };
    let r = match v {
        Some(x) => match x.as_str() {
            Some(s) => owned(s),
            None => String::new(),
        },
        None => String::new(),
    };
    proof {
        if opt_json_text(first_present(response@.field("messageId"@), response@.field("message_id"@))) is None {
            assert(r@ =~= Seq::<char>::empty());
        }
        lemma_published_id_prefers_message_id(response@, r@);
    }
    r
}

/// A time bound of a history query, when chrono can render it.
pub open spec fn bound_json(t: Option<Timestamp>) -> Option<Json> {
    match t {
        Some(t) => match rfc3339_of(t.secs, t.nanos) {
            Some(text) => Some(Json::Text(text)),
            None => None,
        },
        None => None,
    }
}

/// The history query for channel `name`: at most `limit` messages (50 by
/// default), within the optional time bounds.
pub open spec fn history_payload_of(name: Seq<char>, o: HistoryOptions) -> Json {
    Json::Object(push_if(
        push_if(
            seq![
                ("channel"@, Json::Text(name)),
                ("count"@, Json::Number(JsonNumber::PosInt(match o.limit {
                    Some(n) => n as u64,
                    None => 50,
                }))),
            ],
            "start"@,
            bound_json(o.start),
        ),
        "end"@,
        bound_json(o.end),
    ))
}

fn push_bound(m: &mut Members, key: &str, t: Option<Timestamp>)
    ensures
        entries_view(final(m)@) == push_if(entries_view(old(m)@), key@, bound_json(t)),
{
    match t {
        Some(t) => match t.to_rfc3339() {
            Some(text) => push_member(m, key, text_value(text.as_str())),
            None => {},
        },
        None => {},
    }
}

/// The history request for channel `name`.
pub fn history_request(name: &str, options: Option<HistoryOptions>) -> (r: ChannelRequest)
    ensures
        is_request(
            r,
            "get_history"@,
            history_payload_of(name@, match options {
                Some(o) => o,
                None => HistoryOptions { limit: None, start: None, end: None, reverse: false },
            }),
            "history"@,
            10,
        ),
        match options {
            Some(o) => match o.end {
                Some(t) => r.payload@.field_text("end"@) == rfc3339_of(t.secs, t.nanos),
                None => r.payload@.field("end"@) is None,
            },
            None => r.payload@.field("end"@) is None,
        },
        match options {
            Some(o) => match o.start {
                Some(t) => r.payload@.field_text("start"@) == rfc3339_of(t.secs, t.nanos),
                None => r.payload@.field("start"@) is None,
            },
            None => r.payload@.field("start"@) is None,
        },
{
    let o = match options {
        Some(o) => o,
        None => HistoryOptions::default(),
    };
    let count: u64 = match o.limit {
        Some(n) => n as u64,
        None => 50,
    };
    let mut m = members_new();
    push_member(&mut m, "channel", text_value(name));
    push_member(&mut m, "count", number_value(count));
    push_bound(&mut m, "start", o.start);
    push_bound(&mut m, "end", o.end);
    let payload = object_value(m);
    proof {
        assert(payload@->Object_0 =~= history_payload_of(name@, o)->Object_0);
        assert(payload@ == history_payload_of(name@, o));
        lemma_history_sends_bounds(name@, o, payload@);
    }
    ChannelRequest { event: "get_history", payload, response_event: "history", timeout_secs: 10 }
}

/// The envelopes a history response lists under `messages`.
pub open spec fn history_items(response: Json) -> Seq<Json> {
    match response.field("messages"@) {
        Some(Json::Array(items)) => items,
        _ => Seq::empty(),
    }
}

/// Reads the messages of a history response, each adapted from its worker
/// envelope; none when the response lists no `messages` array.
pub fn history_messages(response: &JsonValue) -> (r: Vec<Message>)
    ensures
        r@.len() == history_items(response@).len(),
        forall|i: int| 0 <= i < r@.len() ==> adapted_on_receipt(history_items(response@)[i], #[trigger] r@[i]),
{
    let mut out: Vec<Message> = Vec::new();
    let items = match response.get("messages") {
        Some(v) => v.as_array(),
        None => None,
    };
    match items {
        Some(items) => {
            let ghost hv = history_items(response@);
            proof {
                assert(hv =~= items_view(items@));
            }
            let mut i: usize = 0;
            while i < items.len()
                invariant
                    hv == items_view(items@),
                    i <= items@.len(),
                    out@.len() == i,
                    forall|j: int| 0 <= j < i ==> adapted_on_receipt(hv[j], #[trigger] out@[j]),
                decreases items@.len() - i,
            {
                let m = adapt_message(&items[i]);
                let ghost before = out@;
                out.push(m);
                proof {
                    assert(hv[i as int] == items@[i as int]@);
                    assert forall|j: int| 0 <= j < i + 1 implies adapted_on_receipt(hv[j], #[trigger] out@[j]) by {
                        if j < i {
                            assert(out@[j] == before[j]);
                        }
                    }
                }
                i = i + 1;
            }
        },
        None => {},
    }
    out
}

/// The presence request for channel `name`.
pub fn presence_request(name: &str) -> (r: ChannelRequest)
    ensures
        is_request(r, "get_presence"@, Json::Object(seq![("channel"@, Json::Text(name@))]), "presence"@, 5),
{
    let mut payload = members_new();
    push_member(&mut payload, "channel", text_value(name));
    let payload = object_value(payload);
    proof {
        assert(payload@->Object_0 =~= seq![("channel"@, Json::Text(name@))]);
    }
    ChannelRequest { event: "get_presence", payload, response_event: "presence", timeout_secs: 5 }
}

/// The user ID of an occupant record.
pub open spec fn occupant_id() -> spec_fn(Json) -> Option<Seq<char>> {
    |o: Json| o.field_text("userId"@)
}

/// The text of a value.
pub open spec fn text_of() -> spec_fn(Json) -> Option<Seq<char>> {
    |o: Json| o.text()
}

/// The users a presence response lists: the string `userId`s of its
/// `occupants` array, else the strings of its `users` array, else none.
pub open spec fn presence_users(response: Json) -> Seq<Seq<char>> {
    match response.field("occupants"@) {
        Some(Json::Array(occupants)) => occupants.filter_map(occupant_id()),
        _ => match response.field("users"@) {
            Some(Json::Array(users)) => users.filter_map(text_of()),
            _ => Seq::empty(),
        },
    }
}

/// The user count a presence response reports: `occupancy`, else `count`,
/// when it is a non-negative integer; else the number of users listed.
pub open spec fn presence_count(response: Json) -> usize {
    match first_present(response.field("occupancy"@), response.field("count"@)) {
        Some(v) => match v.uint() {
            Some(n) => n as usize,
            None => presence_users(response).len() as usize,
        },
        None => presence_users(response).len() as usize,
    }
}

/// The characters of each string.
pub open spec fn strings_view(v: Seq<String>) -> Seq<Seq<char>> {
    Seq::new(v.len(), |i: int| v[i]@)
}

fn collect_texts(items: &Vec<JsonValue>, by_user_id: bool) -> (r: Vec<String>)
    ensures
        strings_view(r@) == items_view(items@).filter_map(if by_user_id { occupant_id() } else { text_of() }),
{
    let ghost f = if by_user_id { occupant_id() } else { text_of() };
    let ghost s = items_view(items@);
    let mut out: Vec<String> = Vec::new();
    let mut i: usize = 0;
    while i < items.len()
        invariant
            f == if by_user_id { occupant_id() } else { text_of() },
            s == items_view(items@),
            i <= items@.len(),
            strings_view(out@) == s.take(i as int).filter_map(f),
        decreases items@.len() - i,
    {
        proof {
            s.lemma_filter_map_take_succ(f, i as int);
        }
        let t = if by_user_id {
            match items[i].get("userId") {
                Some(v) => v.as_str(),
                None => None,
            }
        } else {
            items[i].as_str()
        };
        let ghost before = out@;
        match t {
            Some(t) => {
                out.push(owned(t));
                proof {
                    assert(strings_view(out@) =~= strings_view(before) + seq![t@]);
                }
            },
            None => {},
        }
        i = i + 1;
    }
    proof {
        assert(s.take(items@.len() as int) =~= s);
    }
    out
}

/// Reads the users and the user count of a presence response.
pub fn presence_parts(response: &JsonValue) -> (r: (Vec<String>, usize))
    ensures
        strings_view(r.0@) == presence_users(response@),
        r.1 == presence_count(response@),
{
    let occupants = match response.get("occupants") {
        Some(v) => v.as_array(),
        None => None,
    };
    let users = match occupants {
        Some(items) => collect_texts(items, true),
        None => {
            let listed = match response.get("users") {
                Some(v) => v.as_array(),
                None => None,
            };
            match listed {
                Some(items) => collect_texts(items, false),
                None => {
                    let v: Vec<String> = Vec::new();
                    proof {
                        assert(strings_view(v@) =~= Seq::<Seq<char>>::empty());
                    }
                    v
                },
            }
        },
    };
    let reported = match response.get("occupancy") {
        Some(v) => Some(v),
        None => response.get("count"),
    };
    let count = match reported {
        Some(v) => match v.as_u64() {
            Some(n) => n as usize,
            None => users.len(),
        },
        None => users.len(),
    };
    (users, count)
}

/// The presence of channel `name` that a presence response reports,
/// stamped now.
pub fn presence_from_response(name: &str, response: &JsonValue) -> (r: PresenceInfo)
    ensures
        r.channel@ == name@,
        strings_view(r.users@) == presence_users(response@),
        r.count == presence_count(response@),
        r.timestamp.renderable(),
{
    let (users, count) = presence_parts(response);
    PresenceInfo { channel: owned(name), users, count, timestamp: Timestamp::now() }
}

} // verus!

verus! {

/// A publish response's `messageId` decides the message ID: when it is a
/// string, that string is the ID; when it holds anything else, the ID is
/// empty. Only a response without `messageId` is read for `message_id`.
pub proof fn lemma_published_id_prefers_message_id(response: Json, id: Seq<char>)
    requires
        id == published_id_of(response),
    ensures
        response.field_text("messageId"@) matches Some(s) ==> id == s,
        (response.field("messageId"@) is Some && response.field_text("messageId"@) is None) ==> id.len() == 0,
        response.field("messageId"@) is None ==> id == text_or(response.field_text("message_id"@), Seq::empty()),
{
}


/// The member names of the channel requests differ from one another.
proof fn lemma_request_names_differ()
    ensures
        "channel"@ != "options"@,
        "enablePresence"@ != "retainHistory"@,
        "enablePresence"@ != "maxHistory"@,
        "enablePresence"@ != "filterExpression"@,
        "retainHistory"@ != "maxHistory"@,
        "retainHistory"@ != "filterExpression"@,
        "maxHistory"@ != "filterExpression"@,
        "channel"@ != "count"@,
        "channel"@ != "start"@,
        "channel"@ != "end"@,
        "count"@ != "start"@,
        "count"@ != "end"@,
        "start"@ != "end"@,
{
    reveal_strlit("channel");
    reveal_strlit("options");
    reveal_strlit("enablePresence");
    reveal_strlit("retainHistory");
    reveal_strlit("maxHistory");
    reveal_strlit("filterExpression");
    reveal_strlit("count");
    reveal_strlit("start");
    reveal_strlit("end");
    assert("enablePresence"@[0] != "retainHistory"@[0]);
    assert("enablePresence"@[0] != "maxHistory"@[0]);
    assert("enablePresence"@[0] != "filterExpression"@[0]);
    assert("retainHistory"@[0] != "maxHistory"@[0]);
    assert("retainHistory"@[0] != "filterExpression"@[0]);
    assert("maxHistory"@[0] != "filterExpression"@[0]);
    assert("count"@[0] != "start"@[0]);
    assert("channel"@[0] != "options"@[0]);
    assert("channel"@[1] != "count"@[1]);
}

/// A subscription sends the channel and exactly the options it was made with:
/// presence, history, a history of 100 messages, and its filter expression
/// when it has one.
pub proof fn lemma_subscribe_sends_options(name: Seq<char>, options: SubscribeOptions, r: ChannelRequest)
    requires
        is_request(
            r,
            "subscribe"@,
            Json::Object(seq![("channel"@, Json::Text(name)), ("options"@, subscribe_options_json(options))]),
            "subscribed"@,
            10,
        ),
    ensures
        r.payload@.field("channel"@) == Some(Json::Text(name)),
        r.payload@.field("options"@) matches Some(opts)
            && opts.field("enablePresence"@) == Some(Json::Bool(options.enable_presence))
            && opts.field("retainHistory"@) == Some(Json::Bool(options.retain_history))
            && opts.field("maxHistory"@) == Some(Json::Number(JsonNumber::PosInt(100)))
            && opts.field_text("filterExpression"@) == match options.filter_expression {
                Some(f) => Some(f@),
                None => None::<Seq<char>>,
            }
            && (options.filter_expression is None ==> opts.field("filterExpression"@) is None),
{
    lemma_request_names_differ();
    let top = seq![("channel"@, Json::Text(name)), ("options"@, subscribe_options_json(options))];
    lemma_lookup_found(top, "channel"@, 0, 0);
    lemma_lookup_found(top, "options"@, 0, 1);
    let es = subscribe_options_json(options)->Object_0;
    lemma_lookup_found(es, "enablePresence"@, 0, 0);
    lemma_lookup_found(es, "retainHistory"@, 0, 1);
    lemma_lookup_found(es, "maxHistory"@, 0, 2);
    match options.filter_expression {
        Some(f) => lemma_lookup_found(es, "filterExpression"@, 0, 3),
        None => lemma_lookup_absent(es, "filterExpression"@, 0),
    }
}

/// A history query sends the channel, the number of messages asked for (50
/// unless a limit is given), and each time bound that it was given, as its
/// RFC 3339 text; a bound that was not given is not sent.
pub proof fn lemma_history_sends_bounds(name: Seq<char>, o: HistoryOptions, payload: Json)
    requires
        payload == history_payload_of(name, o),
    ensures
        payload.field("channel"@) == Some(Json::Text(name)),
        payload.field("count"@) == Some(Json::Number(JsonNumber::PosInt(match o.limit {
            Some(n) => n as u64,
            None => 50,
        }))),
        o.start matches Some(t) ==> payload.field_text("start"@) == rfc3339_of(t.secs, t.nanos),
        o.end matches Some(t) ==> payload.field_text("end"@) == rfc3339_of(t.secs, t.nanos),
        o.start is None ==> payload.field("start"@) is None,
        o.end is None ==> payload.field("end"@) is None,
{
    lemma_request_names_differ();
    let es = payload->Object_0;
    let base_len: int = if bound_json(o.start) is Some { 3 } else { 2 };
    assert(es.len() == base_len + if bound_json(o.end) is Some { 1int } else { 0int });
    lemma_lookup_found(es, "channel"@, 0, 0);
    lemma_lookup_found(es, "count"@, 0, 1);
    if bound_json(o.start) is Some {
        lemma_lookup_found(es, "start"@, 0, 2);
    } else {
        lemma_lookup_absent(es, "start"@, 0);
    }
    if bound_json(o.end) is Some {
        lemma_lookup_found(es, "end"@, 0, base_len);
    } else {
        lemma_lookup_absent(es, "end"@, 0);
    }
}


/// Mapping by a function that gives a value for every item keeps every item,
/// in order.
proof fn lemma_filter_map_total<A, B>(s: Seq<A>, f: spec_fn(A) -> Option<B>)
    requires
        forall|i: int| 0 <= i < s.len() ==> (#[trigger] f(s[i])) is Some,
    ensures
        s.filter_map(f).len() == s.len(),
        forall|i: int| 0 <= i < s.len() ==> Some(#[trigger] s.filter_map(f)[i]) == f(s[i]),
    decreases s.len(),
{
    if s.len() > 0 {
        let rest = s.drop_last();
        assert forall|i: int| 0 <= i < rest.len() implies (#[trigger] f(rest[i])) is Some by {
            assert(rest[i] == s[i]);
        }
        lemma_filter_map_total(rest, f);
        assert(f(s[s.len() - 1]) is Some);
        assert forall|i: int| 0 <= i < s.len() implies Some(#[trigger] s.filter_map(f)[i]) == f(s[i]) by {
            if i < s.len() - 1 {
                assert(rest[i] == s[i]);
            }
        }
    }
}

/// How a presence response is read. The count is `occupancy` when it is a
/// non-negative integer, else `count` when there is no `occupancy`, else the
/// number of users listed. The users are the `userId`s of the `occupants`,
/// in order, or, without an `occupants` array, the names in `users`.
pub proof fn lemma_presence_reading(response: Json, users: Seq<Seq<char>>, count: usize)
    requires
        users == presence_users(response),
        count == presence_count(response),
    ensures
        response.field_uint("occupancy"@) matches Some(n) ==> count == n as usize,
        response.field("occupancy"@) is None ==> (response.field_uint("count"@) matches Some(n) ==> count
            == n as usize),
        (response.field("occupancy"@) is None && response.field("count"@) is None) ==> count
            == users.len() as usize,
        response.field("occupants"@) matches Some(Json::Array(os)) ==> ((forall|i: int|
            0 <= i < os.len() ==> (#[trigger] os[i]).field_text("userId"@) is Some) ==> (users.len()
            == os.len() && forall|i: int| 0 <= i < os.len() ==> Some(#[trigger] users[i])
            == os[i].field_text("userId"@))),
        !(response.field("occupants"@) matches Some(Json::Array(_))) ==> (response.field("users"@) matches Some(Json::Array(us)) ==> ((forall|i: int|
            0 <= i < us.len() ==> (#[trigger] us[i]).text() is Some) ==> (users.len() == us.len()
            && forall|i: int| 0 <= i < us.len() ==> Some(#[trigger] users[i]) == us[i].text()))),
{
    match response.field("occupants"@) {
        Some(Json::Array(os)) => {
            if forall|i: int| 0 <= i < os.len() ==> (#[trigger] os[i]).field_text("userId"@) is Some {
                assert forall|i: int| 0 <= i < os.len() implies (#[trigger] occupant_id()(os[i])) is Some by {
                    assert(os[i].field_text("userId"@) is Some);
                }
                lemma_filter_map_total(os, occupant_id());
                assert forall|i: int| 0 <= i < os.len() implies Some(#[trigger] users[i]) == os[i].field_text("userId"@) by {
                    assert(Some(os.filter_map(occupant_id())[i]) == occupant_id()(os[i]));
                }
            }
        },
        _ => {
            match response.field("users"@) {
                Some(Json::Array(us)) => {
                    if forall|i: int| 0 <= i < us.len() ==> (#[trigger] us[i]).text() is Some {
                        assert forall|i: int| 0 <= i < us.len() implies (#[trigger] text_of()(us[i])) is Some by {
                            assert(us[i].text() is Some);
                        }
                        lemma_filter_map_total(us, text_of());
                        assert forall|i: int| 0 <= i < us.len() implies Some(#[trigger] users[i]) == us[i].text() by {
                            assert(Some(us.filter_map(text_of())[i]) == text_of()(us[i]));
                        }
                    }
                },
                _ => {},
            }
        },
    }
}

} // verus!
