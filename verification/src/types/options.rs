//! Options for subscribing, publishing and reading history.
use vstd::prelude::*;
use crate::json::{Json, JsonValue, Members, entries_view, members_new, push_member, text_value, copy_members};
use crate::types::time::Timestamp;

verus! {

/// Options for channel subscription.
#[derive(Debug, Clone, PartialEq, Eq)]
pub struct SubscribeOptions {
    /// Whether to enable presence tracking
    pub enable_presence: bool,
    /// Whether to retain message history
    pub retain_history: bool,
    /// Optional filter expression for messages
    pub filter_expression: Option<String>,
}

impl Default for SubscribeOptions {
    fn default() -> (r: Self)
        ensures
            r == (SubscribeOptions { enable_presence: false, retain_history: false, filter_expression: None }),
    {
        SubscribeOptions { enable_presence: false, retain_history: false, filter_expression: None }
    }
}

impl SubscribeOptions {
    /// Options with presence enabled.
    pub fn with_presence() -> (r: Self)
        ensures
            r == (SubscribeOptions { enable_presence: true, retain_history: false, filter_expression: None }),
    {
        SubscribeOptions { enable_presence: true, retain_history: false, filter_expression: None }
    }

    /// Options with history enabled.
    pub fn with_history() -> (r: Self)
        ensures
            r == (SubscribeOptions { enable_presence: false, retain_history: true, filter_expression: None }),
    {
        SubscribeOptions { enable_presence: false, retain_history: true, filter_expression: None }
    }

    /// Options with both presence and history enabled.
    pub fn with_presence_and_history() -> (r: Self)
        ensures
            r == (SubscribeOptions { enable_presence: true, retain_history: true, filter_expression: None }),
    {
        SubscribeOptions { enable_presence: true, retain_history: true, filter_expression: None }
    }

    /// Options for chat channels: presence and history.
    pub fn chat_channel() -> (r: Self)
        ensures
            r == (SubscribeOptions { enable_presence: true, retain_history: true, filter_expression: None }),
    {
        Self::with_presence_and_history()
    }

    /// Options for notification channels: neither presence nor history.
    pub fn notification_channel() -> (r: Self)
        ensures
            r == (SubscribeOptions { enable_presence: false, retain_history: false, filter_expression: None }),
    {
        Self::default()
    }

    /// Options for data channels: history.
    pub fn data_channel() -> (r: Self)
        ensures
            r == (SubscribeOptions { enable_presence: false, retain_history: true, filter_expression: None }),
    {
        Self::with_history()
    }
}

/// Options for message publishing.
#[derive(Debug, Clone, PartialEq)]
pub struct PublishOptions {
    /// Time-to-live in seconds
    pub ttl: Option<u64>,
    /// Optional metadata to attach to the message
    pub metadata: Option<Members>,
    /// Whether to store this message in history
    pub store_in_history: bool,
}

/// The view of optional metadata.
pub open spec fn metadata_view(m: Option<Members>) -> Option<Seq<(Seq<char>, Json)>> {
    match m {
        Some(es) => Some(entries_view(es@)),
        None => None,
    }
}

/// The model of publish options.
pub open spec fn publish_options_view(o: PublishOptions) -> (Option<u64>, Option<Seq<(Seq<char>, Json)>>, bool) {
    (o.ttl, metadata_view(o.metadata), o.store_in_history)
}

impl Default for PublishOptions {
    fn default() -> (r: Self)
        ensures
            r == (PublishOptions { ttl: None, metadata: None, store_in_history: false }),
    {
        PublishOptions { ttl: None, metadata: None, store_in_history: false }
    }
}

impl PublishOptions {
    /// Options with history storage enabled.
    pub fn with_history() -> (r: Self)
        ensures
            r == (PublishOptions { ttl: None, metadata: None, store_in_history: true }),
    {
        PublishOptions { ttl: None, metadata: None, store_in_history: true }
    }

    /// Options with a time-to-live of `seconds`.
    pub fn with_ttl(seconds: u64) -> (r: Self)
        ensures
            r == (PublishOptions { ttl: Some(seconds), metadata: None, store_in_history: false }),
    {
        PublishOptions { ttl: Some(seconds), metadata: None, store_in_history: false }
    }

    /// Options for chat messages: stored in history, tagged `type: chat`.
    pub fn chat_message() -> (r: Self)
        ensures
            publish_options_view(r) == (
                None::<u64>,
                Some(seq![("type"@, Json::Text("chat"@))]),
                true,
            ),
    {
        let mut metadata = members_new();
        push_member(&mut metadata, "type", text_value("chat"));
        PublishOptions { ttl: None, metadata: Some(metadata), store_in_history: true }
    }

    /// Options for system messages: stored in history, tagged `type: system`
    /// and `priority: high`.
    pub fn system_message() -> (r: Self)
        ensures
            publish_options_view(r) == (
                None::<u64>,
                Some(seq![("type"@, Json::Text("system"@)), ("priority"@, Json::Text("high"@))]),
                true,
            ),
    {
        let mut metadata = members_new();
        push_member(&mut metadata, "type", text_value("system"));
        push_member(&mut metadata, "priority", text_value("high"));
        PublishOptions { ttl: None, metadata: Some(metadata), store_in_history: true }
    }

    /// A copy of these options.
    pub fn duplicate(&self) -> (r: Self)
        ensures
            publish_options_view(r) == publish_options_view(*self),
    {
        let metadata = match &self.metadata {
            Some(m) => Some(copy_members(m)),
            None => None,
        };
        PublishOptions { ttl: self.ttl, metadata, store_in_history: self.store_in_history }
    }
}

/// Options for retrieving message history.
#[derive(Debug, Clone, Copy, PartialEq, Eq)]
pub struct HistoryOptions {
    /// Maximum number of messages to retrieve
    pub limit: Option<usize>,
    /// Start time for history retrieval
    pub start: Option<Timestamp>,
    /// End time for history retrieval
    pub end: Option<Timestamp>,
    /// Whether to return messages in reverse chronological order
    pub reverse: bool,
}

impl Default for HistoryOptions {
    fn default() -> (r: Self)
        ensures
            r == (HistoryOptions { limit: None, start: None, end: None, reverse: false }),
    {
        HistoryOptions { limit: None, start: None, end: None, reverse: false }
    }
}

/// `count.or(Some(default))`.
pub open spec fn limit_or(count: Option<usize>, default: usize) -> Option<usize> {
    match count {
        Some(n) => Some(n),
        None => Some(default),
    }
}

impl HistoryOptions {
    /// Options with a specific limit.
    pub fn limit(count: usize) -> (r: Self)
        ensures
            r == (HistoryOptions { limit: Some(count), start: None, end: None, reverse: false }),
    {
        HistoryOptions { limit: Some(count), start: None, end: None, reverse: false }
    }

    /// Options for the `count` most recent messages, newest first.
    pub fn recent(count: usize) -> (r: Self)
        ensures
            r == (HistoryOptions { limit: Some(count), start: None, end: None, reverse: true }),
    {
        HistoryOptions { limit: Some(count), start: None, end: None, reverse: true }
    }

    /// Options for the hour before `now`, newest first, at most `count`
    /// messages (100 by default).
    pub fn last_hour_from(count: Option<usize>, now: Timestamp) -> (r: Self)
        requires
            now.secs >= i64::MIN + 3600,
        ensures
            r == (HistoryOptions {
                limit: limit_or(count, 100),
                start: Some(Timestamp { secs: (now.secs - 3600) as i64, nanos: now.nanos }),
                end: None,
                reverse: true,
            }),
    {
        let limit = match count {
            Some(n) => Some(n),
            None => Some(100),
        };
        HistoryOptions { limit, start: Some(now.minus_secs(3600)), end: None, reverse: true }
    }

    /// Options for the last hour, newest first, at most `count` messages
    /// (100 by default).
    pub fn last_hour(count: Option<usize>) -> (r: Self)
        ensures
            r.limit == limit_or(count, 100),
            r.start matches Some(t) && t.secs >= -3600,
            r.end is None,
            r.reverse,
    {
        Self::last_hour_from(count, Timestamp::now())
    }

    /// Options for the day before `now`, newest first, at most `count`
    /// messages (1000 by default).
    pub fn last_day_from(count: Option<usize>, now: Timestamp) -> (r: Self)
        requires
            now.secs >= i64::MIN + 86400,
        ensures
            r == (HistoryOptions {
                limit: limit_or(count, 1000),
                start: Some(Timestamp { secs: (now.secs - 86400) as i64, nanos: now.nanos }),
                end: None,
                reverse: true,
            }),
    {
        let limit = match count {
            Some(n) => Some(n),
            None => Some(1000),
        };
        HistoryOptions { limit, start: Some(now.minus_secs(86400)), end: None, reverse: true }
    }

    /// Options for the last day, newest first, at most `count` messages
    /// (1000 by default).
    pub fn last_day(count: Option<usize>) -> (r: Self)
        ensures
            r.limit == limit_or(count, 1000),
            r.start matches Some(t) && t.secs >= -86400,
            r.end is None,
            r.reverse,
    {
        Self::last_day_from(count, Timestamp::now())
    }
}

} // verus!
