//! Messages, presence snapshots and publish results.
use vstd::prelude::*;
use crate::json::{Json, JsonValue, Members, entries_view, lookup_from, opt_view, map_get};
use crate::text::{owned, str_eq};
use crate::types::options::PublishOptions;
use crate::types::time::Timestamp;
use crate::types::utils::{generate_message_id, is_prefixed_id};

verus! {

/// A message in the OddSockets system.
#[derive(Debug, Clone, PartialEq)]
pub struct Message {
    /// Unique message identifier
    pub id: String,
    /// Channel the message was sent to
    pub channel: String,
    /// Message data (any JSON value)
    pub data: JsonValue,
    /// When the message was created
    pub timestamp: Timestamp,
    /// Optional user ID of the sender
    pub user_id: Option<String>,
    /// Optional metadata
    pub metadata: Option<Members>,
}

impl Message {
    /// A new message with a generated ID, stamped with the current time.
    pub fn new(channel: &str, data: JsonValue, user_id: Option<String>, metadata: Option<Members>) -> (r: Message)
        ensures
            is_prefixed_id(r.id@, "msg_"@),
            r.channel@ == channel@,
            r.data == data,
            r.timestamp.renderable(),
            r.user_id == user_id,
            r.metadata == metadata,
    {
        Message {
            id: generate_message_id(),
            channel: owned(channel),
            data,
            timestamp: Timestamp::now(),
            user_id,
            metadata,
        }
    }

    /// The metadata value stored under `key`.
    pub fn get_metadata(&self, key: &str) -> (r: Option<&JsonValue>)
        ensures
            opt_view(r) == match self.metadata {
                Some(m) => lookup_from(entries_view(m@), key@, 0),
                None => None,
            },
    {
        match &self.metadata {
            Some(m) => map_get(m, key),
            None => None,
        }
    }

    /// Whether this message carries non-empty metadata.
    pub fn has_metadata(&self) -> (r: bool)
        ensures
            r == (self.metadata matches Some(m) && m@.len() > 0),
    {
        match &self.metadata {
            Some(m) => m.len() > 0,
            None => false,
        }
    }

    /// Whether this message carries data (anything but null).
    pub fn has_data(&self) -> (r: bool)
        ensures
            r == !(self.data@ is Null),
    {
        !self.data.is_null()
    }
}

/// Presence information for a channel.
#[derive(Debug, Clone, PartialEq)]
pub struct PresenceInfo {
    /// Channel name
    pub channel: String,
    /// User IDs currently present
    pub users: Vec<String>,
    /// Total count of users present
    pub count: usize,
    /// When this presence info was created
    pub timestamp: Timestamp,
}

/// Whether `user` is among `users`.
pub open spec fn lists_user(users: Seq<String>, user: Seq<char>) -> bool {
    exists|i: int| 0 <= i < users.len() && (#[trigger] users[i])@ == user
}

impl PresenceInfo {
    /// Presence for `channel` with `users` present, counted, stamped now.
    pub fn new(channel: &str, users: Vec<String>) -> (r: PresenceInfo)
        ensures
            r.channel@ == channel@,
            r.users == users,
            r.count == users@.len(),
            r.timestamp.renderable(),
    {
        let count = users.len();
        PresenceInfo { channel: owned(channel), users, count, timestamp: Timestamp::now() }
    }

    /// Whether `user_id` is present.
    pub fn is_user_present(&self, user_id: &str) -> (r: bool)
        ensures
            r == lists_user(self.users@, user_id@),
    {
        let mut i: usize = 0;
        while i < self.users.len()
            invariant
                i <= self.users@.len(),
                forall|j: int| 0 <= j < i ==> (#[trigger] self.users@[j])@ != user_id@,
            decreases self.users@.len() - i,
        {
            if str_eq(self.users[i].as_str(), user_id) {
                return true;
            }
            i = i + 1;
        }
        false
    }

    /// Whether nobody is present: the count is zero or the list is empty.
    pub fn is_empty(&self) -> (r: bool)
        ensures
            r == (self.count == 0 || self.users@.len() == 0),
    {
        self.count == 0 || self.users.len() == 0
    }
}

/// The result of a publish operation.
#[derive(Debug, Clone, PartialEq)]
pub struct PublishResult {
    /// Identifier of the published message
    pub message_id: String,
    /// When the message was published
    pub timestamp: Timestamp,
    /// The channel the message was published to
    pub channel: String,
    /// Whether the publish was successful
    pub success: bool,
}

impl PublishResult {
    /// A successful publish result, stamped now.
    pub fn success(message_id: &str, channel: &str) -> (r: PublishResult)
        ensures
            r.message_id@ == message_id@,
            r.channel@ == channel@,
            r.success,
            r.timestamp.renderable(),
    {
        PublishResult {
            message_id: owned(message_id),
            timestamp: Timestamp::now(),
            channel: owned(channel),
            success: true,
        }
    }

    /// A failed publish result, stamped now.
    pub fn failure(message_id: &str, channel: &str) -> (r: PublishResult)
        ensures
            r.message_id@ == message_id@,
            r.channel@ == channel@,
            !r.success,
            r.timestamp.renderable(),
    {
        PublishResult {
            message_id: owned(message_id),
            timestamp: Timestamp::now(),
            channel: owned(channel),
            success: false,
        }
    }

    /// Returns true if the publish was successful.
    pub fn is_successful(&self) -> (r: bool)
        ensures
            r == self.success,
    {
        self.success
    }

    /// Returns true if the publish failed.
    pub fn is_failed(&self) -> (r: bool)
        ensures
            r == !self.success,
    {
        !self.success
    }
}

/// A message for bulk publishing.
#[derive(Debug, Clone, PartialEq)]
pub struct BulkMessage {
    /// The channel to publish to
    pub channel: String,
    /// The message data
    pub message: JsonValue,
    /// Optional publish options
    pub options: Option<PublishOptions>,
}

impl BulkMessage {
    /// Creates a new bulk message.
    pub fn new(channel: &str, message: JsonValue, options: Option<PublishOptions>) -> (r: BulkMessage)
        ensures
            r.channel@ == channel@,
            r.message == message,
            r.options == options,
    {
        BulkMessage { channel: owned(channel), message, options }
    }
}

/// The result of publishing one message of a batch.
#[derive(Debug, Clone, PartialEq)]
pub struct BulkResult {
    /// Whether this individual result was successful
    pub success: bool,
    /// The publish result if successful
    pub result: Option<PublishResult>,
    /// Error message if failed
    pub error: Option<String>,
}

impl BulkResult {
    /// A successful bulk result.
    pub fn success(result: PublishResult) -> (r: BulkResult)
        ensures
            r == (BulkResult { success: true, result: Some(result), error: None }),
    {
        BulkResult { success: true, result: Some(result), error: None }
    }

    /// A failed bulk result.
    pub fn failure(error: &str) -> (r: BulkResult)
        ensures
            !r.success,
            r.result is None,
            r.error matches Some(e) && e@ == error@,
    {
        BulkResult { success: false, result: None, error: Some(owned(error)) }
    }

    /// Returns true if this result was successful.
    pub fn is_successful(&self) -> (r: bool)
        ensures
            r == self.success,
    {
        self.success
    }

    /// Returns true if this result failed.
    pub fn is_failed(&self) -> (r: bool)
        ensures
            r == !self.success,
    {
        !self.success
    }

    /// The error message, or `default` when there is none.
    pub fn error_message<'a>(&'a self, default: &'a str) -> (r: &'a str)
        ensures
            r@ == match self.error {
                Some(e) => e@,
                None => default@,
            },
    {
        match &self.error {
            Some(e) => e.as_str(),
            None => default,
        }
    }
}

} // verus!
