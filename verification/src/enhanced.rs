//! The requests of the enhanced, Slack-like features: threads, reactions,
//! read receipts, channels, direct messages, notifications, presence,
//! message editing and search. Each request names the event to emit, its
//! parameters, and the event whose first occurrence answers it, if any.
use vstd::prelude::*;
use crate::json::{Json, JsonNumber, JsonValue, Members, entries_view, items_view, lemma_array_view, members_new, push_member, text_value, object_value};

verus! {

/// An enhanced-feature request.
pub struct EnhancedRequest {
    /// The event to emit.
    pub event: &'static str,
    /// Its parameters.
    pub params: JsonValue,
    /// The event that answers it, for requests that await an answer.
    pub reply_event: Option<&'static str>,
}

/// A list of strings as a JSON array.
pub open spec fn strings_json(v: Seq<String>) -> Seq<Json> {
    Seq::new(v.len(), |i: int| Json::Text(v[i]@))
}

/// `members` with the string member `key` appended when `value` is present.
pub open spec fn push_if_text(members: Seq<(Seq<char>, Json)>, key: Seq<char>, value: Option<&str>) -> Seq<(Seq<char>, Json)> {
    match value {
        Some(v) => members.push((key, Json::Text(v@))),
        None => members,
    }
}

/// A JSON array of strings.
pub fn strings_value(v: &Vec<String>) -> (r: JsonValue)
    ensures
        r@ == Json::Array(strings_json(v@)),
{
    let mut items: Vec<JsonValue> = Vec::new();
    let mut i: usize = 0;
    while i < v.len()
        invariant
            i <= v@.len(),
            items@.len() == i,
            forall|j: int| 0 <= j < i ==> (#[trigger] items@[j])@ == Json::Text(v@[j]@),
        decreases v@.len() - i,
    {
        items.push(text_value(v[i].as_str()));
        i = i + 1;
    }
    proof {
        lemma_array_view(items);
        assert(items_view(items@) =~= strings_json(v@));
    }
    JsonValue::Array(items)
}

/// An empty JSON array.
pub fn empty_array() -> (r: JsonValue)
    ensures
        r@ == Json::Array(Seq::empty()),
{
    let items: Vec<JsonValue> = Vec::new();
    proof {
        lemma_array_view(items);
        assert(items_view(items@) =~= Seq::<Json>::empty());
    }
    JsonValue::Array(items)
}

/// Replies in the thread of a message.
pub fn thread_reply(channel: &str, parent_message_id: &str, message: &str, user_id: &str, user_name: &str) -> (r: EnhancedRequest)
    ensures
        r.event@ == "thread_reply"@,
        r.params@ == Json::Object(seq![("channel"@, Json::Text(channel@)), ("parentMessageId"@, Json::Text(parent_message_id@)), ("message"@, Json::Text(message@)), ("userId"@, Json::Text(user_id@)), ("userName"@, Json::Text(user_name@))]),
        r.reply_event matches Some(e) && e@ == "thread_reply_success"@,
{
    let mut m = members_new();
    push_member(&mut m, "channel", text_value(channel));
    push_member(&mut m, "parentMessageId", text_value(parent_message_id));
    push_member(&mut m, "message", text_value(message));
    push_member(&mut m, "userId", text_value(user_id));
    push_member(&mut m, "userName", text_value(user_name));
    let params = object_value(m);
    proof {
        assert(params@->Object_0 =~= Json::Object(seq![("channel"@, Json::Text(channel@)), ("parentMessageId"@, Json::Text(parent_message_id@)), ("message"@, Json::Text(message@)), ("userId"@, Json::Text(user_id@)), ("userName"@, Json::Text(user_name@))])->Object_0);
    }
    EnhancedRequest { event: "thread_reply", params, reply_event: Some("thread_reply_success") }
}

/// Asks for a thread.
pub fn get_thread(thread_id: &str) -> (r: EnhancedRequest)
    ensures
        r.event@ == "get_thread"@,
        r.params@ == Json::Object(seq![("threadId"@, Json::Text(thread_id@))]),
        r.reply_event matches Some(e) && e@ == "thread_data"@,
{
    let mut m = members_new();
    push_member(&mut m, "threadId", text_value(thread_id));
    let params = object_value(m);
    proof {
        assert(params@->Object_0 =~= Json::Object(seq![("threadId"@, Json::Text(thread_id@))])->Object_0);
    }
    EnhancedRequest { event: "get_thread", params, reply_event: Some("thread_data") }
}

/// Subscribes a user to a thread.
pub fn subscribe_thread(thread_id: &str, user_id: &str) -> (r: EnhancedRequest)
    ensures
        r.event@ == "subscribe_thread"@,
        r.params@ == Json::Object(seq![("threadId"@, Json::Text(thread_id@)), ("userId"@, Json::Text(user_id@))]),
        r.reply_event matches Some(e) && e@ == "thread_subscribed"@,
{
    let mut m = members_new();
    push_member(&mut m, "threadId", text_value(thread_id));
    push_member(&mut m, "userId", text_value(user_id));
    let params = object_value(m);
    proof {
        assert(params@->Object_0 =~= Json::Object(seq![("threadId"@, Json::Text(thread_id@)), ("userId"@, Json::Text(user_id@))])->Object_0);
    }
    EnhancedRequest { event: "subscribe_thread", params, reply_event: Some("thread_subscribed") }
}

/// Marks a thread read for a user.
pub fn mark_thread_read(thread_id: &str, user_id: &str) -> (r: EnhancedRequest)
    ensures
        r.event@ == "mark_thread_read"@,
        r.params@ == Json::Object(seq![("threadId"@, Json::Text(thread_id@)), ("userId"@, Json::Text(user_id@))]),
        r.reply_event is None,
{
    let mut m = members_new();
    push_member(&mut m, "threadId", text_value(thread_id));
    push_member(&mut m, "userId", text_value(user_id));
    let params = object_value(m);
    proof {
        assert(params@->Object_0 =~= Json::Object(seq![("threadId"@, Json::Text(thread_id@)), ("userId"@, Json::Text(user_id@))])->Object_0);
    }
    EnhancedRequest { event: "mark_thread_read", params, reply_event: None }
}

/// Makes a user follow a thread.
pub fn follow_thread(thread_id: &str, user_id: &str) -> (r: EnhancedRequest)
    ensures
        r.event@ == "follow_thread"@,
        r.params@ == Json::Object(seq![("threadId"@, Json::Text(thread_id@)), ("userId"@, Json::Text(user_id@))]),
        r.reply_event is None,
{
    let mut m = members_new();
    push_member(&mut m, "threadId", text_value(thread_id));
    push_member(&mut m, "userId", text_value(user_id));
    let params = object_value(m);
    proof {
        assert(params@->Object_0 =~= Json::Object(seq![("threadId"@, Json::Text(thread_id@)), ("userId"@, Json::Text(user_id@))])->Object_0);
    }
    EnhancedRequest { event: "follow_thread", params, reply_event: None }
}

/// Makes a user stop following a thread.
pub fn unfollow_thread(thread_id: &str, user_id: &str) -> (r: EnhancedRequest)
    ensures
        r.event@ == "unfollow_thread"@,
        r.params@ == Json::Object(seq![("threadId"@, Json::Text(thread_id@)), ("userId"@, Json::Text(user_id@))]),
        r.reply_event is None,
{
    let mut m = members_new();
    push_member(&mut m, "threadId", text_value(thread_id));
    push_member(&mut m, "userId", text_value(user_id));
    let params = object_value(m);
    proof {
        assert(params@->Object_0 =~= Json::Object(seq![("threadId"@, Json::Text(thread_id@)), ("userId"@, Json::Text(user_id@))])->Object_0);
    }
    EnhancedRequest { event: "unfollow_thread", params, reply_event: None }
}

/// Adds a reaction to a message.
pub fn add_reaction(message_id: &str, channel: &str, emoji: &str, user_id: &str, user_name: &str) -> (r: EnhancedRequest)
    ensures
        r.event@ == "add_reaction"@,
        r.params@ == Json::Object(seq![("messageId"@, Json::Text(message_id@)), ("channel"@, Json::Text(channel@)), ("emoji"@, Json::Text(emoji@)), ("userId"@, Json::Text(user_id@)), ("userName"@, Json::Text(user_name@))]),
        r.reply_event is None,
{
    let mut m = members_new();
    push_member(&mut m, "messageId", text_value(message_id));
    push_member(&mut m, "channel", text_value(channel));
    push_member(&mut m, "emoji", text_value(emoji));
    push_member(&mut m, "userId", text_value(user_id));
    push_member(&mut m, "userName", text_value(user_name));
    let params = object_value(m);
    proof {
        assert(params@->Object_0 =~= Json::Object(seq![("messageId"@, Json::Text(message_id@)), ("channel"@, Json::Text(channel@)), ("emoji"@, Json::Text(emoji@)), ("userId"@, Json::Text(user_id@)), ("userName"@, Json::Text(user_name@))])->Object_0);
    }
    EnhancedRequest { event: "add_reaction", params, reply_event: None }
}

/// Removes a reaction from a message.
pub fn remove_reaction(message_id: &str, channel: &str, emoji: &str, user_id: &str) -> (r: EnhancedRequest)
    ensures
        r.event@ == "remove_reaction"@,
        r.params@ == Json::Object(seq![("messageId"@, Json::Text(message_id@)), ("channel"@, Json::Text(channel@)), ("emoji"@, Json::Text(emoji@)), ("userId"@, Json::Text(user_id@))]),
        r.reply_event is None,
{
    let mut m = members_new();
    push_member(&mut m, "messageId", text_value(message_id));
    push_member(&mut m, "channel", text_value(channel));
    push_member(&mut m, "emoji", text_value(emoji));
    push_member(&mut m, "userId", text_value(user_id));
    let params = object_value(m);
    proof {
        assert(params@->Object_0 =~= Json::Object(seq![("messageId"@, Json::Text(message_id@)), ("channel"@, Json::Text(channel@)), ("emoji"@, Json::Text(emoji@)), ("userId"@, Json::Text(user_id@))])->Object_0);
    }
    EnhancedRequest { event: "remove_reaction", params, reply_event: None }
}

/// Asks for the reactions to a message.
pub fn get_reactions(message_id: &str) -> (r: EnhancedRequest)
    ensures
        r.event@ == "get_reactions"@,
        r.params@ == Json::Object(seq![("messageId"@, Json::Text(message_id@))]),
        r.reply_event matches Some(e) && e@ == "message_reactions"@,
{
    let mut m = members_new();
    push_member(&mut m, "messageId", text_value(message_id));
    let params = object_value(m);
    proof {
        assert(params@->Object_0 =~= Json::Object(seq![("messageId"@, Json::Text(message_id@))])->Object_0);
    }
    EnhancedRequest { event: "get_reactions", params, reply_event: Some("message_reactions") }
}

/// Marks a message read for a user.
pub fn mark_read(message_id: &str, channel: &str, user_id: &str, user_name: &str) -> (r: EnhancedRequest)
    ensures
        r.event@ == "mark_read"@,
        r.params@ == Json::Object(seq![("messageId"@, Json::Text(message_id@)), ("channel"@, Json::Text(channel@)), ("userId"@, Json::Text(user_id@)), ("userName"@, Json::Text(user_name@))]),
        r.reply_event is None,
{
    let mut m = members_new();
    push_member(&mut m, "messageId", text_value(message_id));
    push_member(&mut m, "channel", text_value(channel));
    push_member(&mut m, "userId", text_value(user_id));
    push_member(&mut m, "userName", text_value(user_name));
    let params = object_value(m);
    proof {
        assert(params@->Object_0 =~= Json::Object(seq![("messageId"@, Json::Text(message_id@)), ("channel"@, Json::Text(channel@)), ("userId"@, Json::Text(user_id@)), ("userName"@, Json::Text(user_name@))])->Object_0);
    }
    EnhancedRequest { event: "mark_read", params, reply_event: None }
}

/// Asks for a user's unread counts in some channels.
pub fn get_unread_counts(user_id: &str, channels: Vec<String>) -> (r: EnhancedRequest)
    ensures
        r.event@ == "get_unread_counts"@,
        r.params@ == Json::Object(seq![("userId"@, Json::Text(user_id@)), ("channels"@, Json::Array(strings_json(channels@)))]),
        r.reply_event matches Some(e) && e@ == "unread_counts"@,
{
    let mut m = members_new();
    push_member(&mut m, "userId", text_value(user_id));
    push_member(&mut m, "channels", strings_value(&channels));
    let params = object_value(m);
    proof {
        assert(params@->Object_0 =~= Json::Object(seq![("userId"@, Json::Text(user_id@)), ("channels"@, Json::Array(strings_json(channels@)))])->Object_0);
    }
    EnhancedRequest { event: "get_unread_counts", params, reply_event: Some("unread_counts") }
}

/// Marks a whole channel read for a user.
pub fn mark_all_read(channel: &str, user_id: &str) -> (r: EnhancedRequest)
    ensures
        r.event@ == "mark_all_read"@,
        r.params@ == Json::Object(seq![("channel"@, Json::Text(channel@)), ("userId"@, Json::Text(user_id@))]),
        r.reply_event is None,
{
    let mut m = members_new();
    push_member(&mut m, "channel", text_value(channel));
    push_member(&mut m, "userId", text_value(user_id));
    let params = object_value(m);
    proof {
        assert(params@->Object_0 =~= Json::Object(seq![("channel"@, Json::Text(channel@)), ("userId"@, Json::Text(user_id@))])->Object_0);
    }
    EnhancedRequest { event: "mark_all_read", params, reply_event: None }
}

/// Creates a channel with no members.
pub fn create_channel(name: &str, channel_type: &str, description: &str, topic: &str, created_by: &str, created_by_name: &str) -> (r: EnhancedRequest)
    ensures
        r.event@ == "create_channel"@,
        r.params@ == Json::Object(seq![("name"@, Json::Text(name@)), ("type"@, Json::Text(channel_type@)), ("description"@, Json::Text(description@)), ("topic"@, Json::Text(topic@)), ("createdBy"@, Json::Text(created_by@)), ("createdByName"@, Json::Text(created_by_name@)), ("members"@, Json::Array(Seq::empty()))]),
        r.reply_event matches Some(e) && e@ == "channel_create_success"@,
{
    let mut m = members_new();
    push_member(&mut m, "name", text_value(name));
    push_member(&mut m, "type", text_value(channel_type));
    push_member(&mut m, "description", text_value(description));
    push_member(&mut m, "topic", text_value(topic));
    push_member(&mut m, "createdBy", text_value(created_by));
    push_member(&mut m, "createdByName", text_value(created_by_name));
    push_member(&mut m, "members", empty_array());
    let params = object_value(m);
    proof {
        assert(params@->Object_0 =~= Json::Object(seq![("name"@, Json::Text(name@)), ("type"@, Json::Text(channel_type@)), ("description"@, Json::Text(description@)), ("topic"@, Json::Text(topic@)), ("createdBy"@, Json::Text(created_by@)), ("createdByName"@, Json::Text(created_by_name@)), ("members"@, Json::Array(Seq::empty()))])->Object_0);
    }
    EnhancedRequest { event: "create_channel", params, reply_event: Some("channel_create_success") }
}

/// Updates the settings of a channel.
pub fn update_channel(channel_id: &str, updates: Members, user_id: &str) -> (r: EnhancedRequest)
    ensures
        r.event@ == "update_channel"@,
        r.params@ == Json::Object(seq![("channelId"@, Json::Text(channel_id@)), ("updates"@, Json::Object(entries_view(updates@))), ("userId"@, Json::Text(user_id@))]),
        r.reply_event is None,
{
    let ghost updates_view = entries_view(updates@);
    let mut m = members_new();
    push_member(&mut m, "channelId", text_value(channel_id));
    push_member(&mut m, "updates", object_value(updates));
    push_member(&mut m, "userId", text_value(user_id));
    let params = object_value(m);
    proof {
        assert(params@->Object_0 =~= Json::Object(seq![("channelId"@, Json::Text(channel_id@)), ("updates"@, Json::Object(updates_view)), ("userId"@, Json::Text(user_id@))])->Object_0);
    }
    EnhancedRequest { event: "update_channel", params, reply_event: None }
}

/// Archives a channel.
pub fn archive_channel(channel_id: &str, user_id: &str) -> (r: EnhancedRequest)
    ensures
        r.event@ == "archive_channel"@,
        r.params@ == Json::Object(seq![("channelId"@, Json::Text(channel_id@)), ("userId"@, Json::Text(user_id@))]),
        r.reply_event is None,
{
    let mut m = members_new();
    push_member(&mut m, "channelId", text_value(channel_id));
    push_member(&mut m, "userId", text_value(user_id));
    let params = object_value(m);
    proof {
        assert(params@->Object_0 =~= Json::Object(seq![("channelId"@, Json::Text(channel_id@)), ("userId"@, Json::Text(user_id@))])->Object_0);
    }
    EnhancedRequest { event: "archive_channel", params, reply_event: None }
}

/// Invites a user to a channel.
pub fn invite_to_channel(channel_id: &str, invited_user_id: &str, invited_user_name: &str, invited_by: &str) -> (r: EnhancedRequest)
    ensures
        r.event@ == "invite_to_channel"@,
        r.params@ == Json::Object(seq![("channelId"@, Json::Text(channel_id@)), ("invitedUserId"@, Json::Text(invited_user_id@)), ("invitedUserName"@, Json::Text(invited_user_name@)), ("invitedBy"@, Json::Text(invited_by@))]),
        r.reply_event is None,
{
    let mut m = members_new();
    push_member(&mut m, "channelId", text_value(channel_id));
    push_member(&mut m, "invitedUserId", text_value(invited_user_id));
    push_member(&mut m, "invitedUserName", text_value(invited_user_name));
    push_member(&mut m, "invitedBy", text_value(invited_by));
    let params = object_value(m);
    proof {
        assert(params@->Object_0 =~= Json::Object(seq![("channelId"@, Json::Text(channel_id@)), ("invitedUserId"@, Json::Text(invited_user_id@)), ("invitedUserName"@, Json::Text(invited_user_name@)), ("invitedBy"@, Json::Text(invited_by@))])->Object_0);
    }
    EnhancedRequest { event: "invite_to_channel", params, reply_event: None }
}

/// Removes a user from a channel.
pub fn remove_from_channel(channel_id: &str, removed_user_id: &str, removed_by: &str) -> (r: EnhancedRequest)
    ensures
        r.event@ == "remove_from_channel"@,
        r.params@ == Json::Object(seq![("channelId"@, Json::Text(channel_id@)), ("removedUserId"@, Json::Text(removed_user_id@)), ("removedBy"@, Json::Text(removed_by@))]),
        r.reply_event is None,
{
    let mut m = members_new();
    push_member(&mut m, "channelId", text_value(channel_id));
    push_member(&mut m, "removedUserId", text_value(removed_user_id));
    push_member(&mut m, "removedBy", text_value(removed_by));
    let params = object_value(m);
    proof {
        assert(params@->Object_0 =~= Json::Object(seq![("channelId"@, Json::Text(channel_id@)), ("removedUserId"@, Json::Text(removed_user_id@)), ("removedBy"@, Json::Text(removed_by@))])->Object_0);
    }
    EnhancedRequest { event: "remove_from_channel", params, reply_event: None }
}

/// Makes a user join a channel.
pub fn join_channel(channel_id: &str, user_id: &str, user_name: &str) -> (r: EnhancedRequest)
    ensures
        r.event@ == "join_channel"@,
        r.params@ == Json::Object(seq![("channelId"@, Json::Text(channel_id@)), ("userId"@, Json::Text(user_id@)), ("userName"@, Json::Text(user_name@))]),
        r.reply_event is None,
{
    let mut m = members_new();
    push_member(&mut m, "channelId", text_value(channel_id));
    push_member(&mut m, "userId", text_value(user_id));
    push_member(&mut m, "userName", text_value(user_name));
    let params = object_value(m);
    proof {
        assert(params@->Object_0 =~= Json::Object(seq![("channelId"@, Json::Text(channel_id@)), ("userId"@, Json::Text(user_id@)), ("userName"@, Json::Text(user_name@))])->Object_0);
    }
    EnhancedRequest { event: "join_channel", params, reply_event: None }
}

/// Makes a user leave a channel.
pub fn leave_channel(channel_id: &str, user_id: &str) -> (r: EnhancedRequest)
    ensures
        r.event@ == "leave_channel"@,
        r.params@ == Json::Object(seq![("channelId"@, Json::Text(channel_id@)), ("userId"@, Json::Text(user_id@))]),
        r.reply_event is None,
{
    let mut m = members_new();
    push_member(&mut m, "channelId", text_value(channel_id));
    push_member(&mut m, "userId", text_value(user_id));
    let params = object_value(m);
    proof {
        assert(params@->Object_0 =~= Json::Object(seq![("channelId"@, Json::Text(channel_id@)), ("userId"@, Json::Text(user_id@))])->Object_0);
    }
    EnhancedRequest { event: "leave_channel", params, reply_event: None }
}

/// Asks for the members of a channel.
pub fn get_channel_members(channel_id: &str) -> (r: EnhancedRequest)
    ensures
        r.event@ == "get_channel_members"@,
        r.params@ == Json::Object(seq![("channelId"@, Json::Text(channel_id@))]),
        r.reply_event matches Some(e) && e@ == "channel_members"@,
{
    let mut m = members_new();
    push_member(&mut m, "channelId", text_value(channel_id));
    let params = object_value(m);
    proof {
        assert(params@->Object_0 =~= Json::Object(seq![("channelId"@, Json::Text(channel_id@))])->Object_0);
    }
    EnhancedRequest { event: "get_channel_members", params, reply_event: Some("channel_members") }
}

/// Creates a direct-message conversation.
pub fn create_dm(user_ids: Vec<String>, dm_type: &str) -> (r: EnhancedRequest)
    ensures
        r.event@ == "create_dm"@,
        r.params@ == Json::Object(seq![("userIds"@, Json::Array(strings_json(user_ids@))), ("type"@, Json::Text(dm_type@))]),
        r.reply_event matches Some(e) && e@ == "dm_create_success"@,
{
    let mut m = members_new();
    push_member(&mut m, "userIds", strings_value(&user_ids));
    push_member(&mut m, "type", text_value(dm_type));
    let params = object_value(m);
    proof {
        assert(params@->Object_0 =~= Json::Object(seq![("userIds"@, Json::Array(strings_json(user_ids@))), ("type"@, Json::Text(dm_type@))])->Object_0);
    }
    EnhancedRequest { event: "create_dm", params, reply_event: Some("dm_create_success") }
}

/// Sends a direct message.
pub fn send_dm(conversation_id: &str, message: &str, user_id: &str, user_name: &str) -> (r: EnhancedRequest)
    ensures
        r.event@ == "send_dm"@,
        r.params@ == Json::Object(seq![("conversationId"@, Json::Text(conversation_id@)), ("message"@, Json::Text(message@)), ("userId"@, Json::Text(user_id@)), ("userName"@, Json::Text(user_name@))]),
        r.reply_event is None,
{
    let mut m = members_new();
    push_member(&mut m, "conversationId", text_value(conversation_id));
    push_member(&mut m, "message", text_value(message));
    push_member(&mut m, "userId", text_value(user_id));
    push_member(&mut m, "userName", text_value(user_name));
    let params = object_value(m);
    proof {
        assert(params@->Object_0 =~= Json::Object(seq![("conversationId"@, Json::Text(conversation_id@)), ("message"@, Json::Text(message@)), ("userId"@, Json::Text(user_id@)), ("userName"@, Json::Text(user_name@))])->Object_0);
    }
    EnhancedRequest { event: "send_dm", params, reply_event: None }
}

/// Asks for a user's direct-message conversations.
pub fn get_dm_conversations(user_id: &str, include_archived: bool) -> (r: EnhancedRequest)
    ensures
        r.event@ == "get_dm_conversations"@,
        r.params@ == Json::Object(seq![("userId"@, Json::Text(user_id@)), ("includeArchived"@, Json::Bool(include_archived))]),
        r.reply_event matches Some(e) && e@ == "dm_conversations"@,
{
    let mut m = members_new();
    push_member(&mut m, "userId", text_value(user_id));
    push_member(&mut m, "includeArchived", JsonValue::Bool(include_archived));
    let params = object_value(m);
    proof {
        assert(params@->Object_0 =~= Json::Object(seq![("userId"@, Json::Text(user_id@)), ("includeArchived"@, Json::Bool(include_archived))])->Object_0);
    }
    EnhancedRequest { event: "get_dm_conversations", params, reply_event: Some("dm_conversations") }
}

/// Subscribes a user to notifications.
pub fn subscribe_notifications(user_id: &str) -> (r: EnhancedRequest)
    ensures
        r.event@ == "subscribe_notifications"@,
        r.params@ == Json::Object(seq![("userId"@, Json::Text(user_id@))]),
        r.reply_event is None,
{
    let mut m = members_new();
    push_member(&mut m, "userId", text_value(user_id));
    let params = object_value(m);
    proof {
        assert(params@->Object_0 =~= Json::Object(seq![("userId"@, Json::Text(user_id@))])->Object_0);
    }
    EnhancedRequest { event: "subscribe_notifications", params, reply_event: None }
}

/// Marks a notification read.
pub fn mark_notification_read(notification_id: &str, user_id: &str) -> (r: EnhancedRequest)
    ensures
        r.event@ == "mark_notification_read"@,
        r.params@ == Json::Object(seq![("notificationId"@, Json::Text(notification_id@)), ("userId"@, Json::Text(user_id@))]),
        r.reply_event is None,
{
    let mut m = members_new();
    push_member(&mut m, "notificationId", text_value(notification_id));
    push_member(&mut m, "userId", text_value(user_id));
    let params = object_value(m);
    proof {
        assert(params@->Object_0 =~= Json::Object(seq![("notificationId"@, Json::Text(notification_id@)), ("userId"@, Json::Text(user_id@))])->Object_0);
    }
    EnhancedRequest { event: "mark_notification_read", params, reply_event: None }
}

/// Marks all of a user's notifications read.
pub fn mark_all_notifications_read(user_id: &str) -> (r: EnhancedRequest)
    ensures
        r.event@ == "mark_all_notifications_read"@,
        r.params@ == Json::Object(seq![("userId"@, Json::Text(user_id@))]),
        r.reply_event is None,
{
    let mut m = members_new();
    push_member(&mut m, "userId", text_value(user_id));
    let params = object_value(m);
    proof {
        assert(params@->Object_0 =~= Json::Object(seq![("userId"@, Json::Text(user_id@))])->Object_0);
    }
    EnhancedRequest { event: "mark_all_notifications_read", params, reply_event: None }
}

/// Clears a user's notifications.
pub fn clear_notifications(user_id: &str) -> (r: EnhancedRequest)
    ensures
        r.event@ == "clear_notifications"@,
        r.params@ == Json::Object(seq![("userId"@, Json::Text(user_id@))]),
        r.reply_event is None,
{
    let mut m = members_new();
    push_member(&mut m, "userId", text_value(user_id));
    let params = object_value(m);
    proof {
        assert(params@->Object_0 =~= Json::Object(seq![("userId"@, Json::Text(user_id@))])->Object_0);
    }
    EnhancedRequest { event: "clear_notifications", params, reply_event: None }
}

/// Asks for a user's notifications, optionally of one status.
pub fn get_notifications(user_id: &str, limit: u32, status: Option<&str>) -> (r: EnhancedRequest)
    ensures
        r.event@ == "get_notifications"@,
        r.params@ == Json::Object(push_if_text(seq![("userId"@, Json::Text(user_id@)), ("limit"@, Json::Number(JsonNumber::PosInt(limit as u64)))], "status"@, status)),
        r.reply_event matches Some(e) && e@ == "notifications_data"@,
{
    let mut m = members_new();
    push_member(&mut m, "userId", text_value(user_id));
    push_member(&mut m, "limit", JsonValue::Number(JsonNumber::PosInt(limit as u64)));
    match status {
        Some(v) => push_member(&mut m, "status", text_value(v)),
        None => {},
    }
    let params = object_value(m);
    proof {
        assert(params@->Object_0 =~= Json::Object(push_if_text(seq![("userId"@, Json::Text(user_id@)), ("limit"@, Json::Number(JsonNumber::PosInt(limit as u64)))], "status"@, status))->Object_0);
    }
    EnhancedRequest { event: "get_notifications", params, reply_event: Some("notifications_data") }
}

/// Sets a user's status.
pub fn set_status(user_id: &str, status: &str) -> (r: EnhancedRequest)
    ensures
        r.event@ == "set_status"@,
        r.params@ == Json::Object(seq![("userId"@, Json::Text(user_id@)), ("status"@, Json::Text(status@))]),
        r.reply_event is None,
{
    let mut m = members_new();
    push_member(&mut m, "userId", text_value(user_id));
    push_member(&mut m, "status", text_value(status));
    let params = object_value(m);
    proof {
        assert(params@->Object_0 =~= Json::Object(seq![("userId"@, Json::Text(user_id@)), ("status"@, Json::Text(status@))])->Object_0);
    }
    EnhancedRequest { event: "set_status", params, reply_event: None }
}

/// Sets a user's custom status, optionally until a time.
pub fn set_custom_status(user_id: &str, emoji: &str, text: &str, expires_at: Option<&str>) -> (r: EnhancedRequest)
    ensures
        r.event@ == "set_custom_status"@,
        r.params@ == Json::Object(push_if_text(seq![("userId"@, Json::Text(user_id@)), ("emoji"@, Json::Text(emoji@)), ("text"@, Json::Text(text@))], "expiresAt"@, expires_at)),
        r.reply_event is None,
{
    let mut m = members_new();
    push_member(&mut m, "userId", text_value(user_id));
    push_member(&mut m, "emoji", text_value(emoji));
    push_member(&mut m, "text", text_value(text));
    match expires_at {
        Some(v) => push_member(&mut m, "expiresAt", text_value(v)),
        None => {},
    }
    let params = object_value(m);
    proof {
        assert(params@->Object_0 =~= Json::Object(push_if_text(seq![("userId"@, Json::Text(user_id@)), ("emoji"@, Json::Text(emoji@)), ("text"@, Json::Text(text@))], "expiresAt"@, expires_at))->Object_0);
    }
    EnhancedRequest { event: "set_custom_status", params, reply_event: None }
}

/// Clears a user's custom status.
pub fn clear_custom_status(user_id: &str) -> (r: EnhancedRequest)
    ensures
        r.event@ == "clear_custom_status"@,
        r.params@ == Json::Object(seq![("userId"@, Json::Text(user_id@))]),
        r.reply_event is None,
{
    let mut m = members_new();
    push_member(&mut m, "userId", text_value(user_id));
    let params = object_value(m);
    proof {
        assert(params@->Object_0 =~= Json::Object(seq![("userId"@, Json::Text(user_id@))])->Object_0);
    }
    EnhancedRequest { event: "clear_custom_status", params, reply_event: None }
}

/// Turns do-not-disturb on for a user, optionally until a time.
pub fn set_dnd(user_id: &str, until: Option<&str>) -> (r: EnhancedRequest)
    ensures
        r.event@ == "set_dnd"@,
        r.params@ == Json::Object(push_if_text(seq![("userId"@, Json::Text(user_id@))], "until"@, until)),
        r.reply_event is None,
{
    let mut m = members_new();
    push_member(&mut m, "userId", text_value(user_id));
    match until {
        Some(v) => push_member(&mut m, "until", text_value(v)),
        None => {},
    }
    let params = object_value(m);
    proof {
        assert(params@->Object_0 =~= Json::Object(push_if_text(seq![("userId"@, Json::Text(user_id@))], "until"@, until))->Object_0);
    }
    EnhancedRequest { event: "set_dnd", params, reply_event: None }
}

/// Turns do-not-disturb off for a user.
pub fn clear_dnd(user_id: &str) -> (r: EnhancedRequest)
    ensures
        r.event@ == "clear_dnd"@,
        r.params@ == Json::Object(seq![("userId"@, Json::Text(user_id@))]),
        r.reply_event is None,
{
    let mut m = members_new();
    push_member(&mut m, "userId", text_value(user_id));
    let params = object_value(m);
    proof {
        assert(params@->Object_0 =~= Json::Object(seq![("userId"@, Json::Text(user_id@))])->Object_0);
    }
    EnhancedRequest { event: "clear_dnd", params, reply_event: None }
}

/// Announces that a user started typing in a channel.
pub fn start_typing(user_id: &str, channel: &str) -> (r: EnhancedRequest)
    ensures
        r.event@ == "start_typing"@,
        r.params@ == Json::Object(seq![("userId"@, Json::Text(user_id@)), ("channel"@, Json::Text(channel@))]),
        r.reply_event is None,
{
    let mut m = members_new();
    push_member(&mut m, "userId", text_value(user_id));
    push_member(&mut m, "channel", text_value(channel));
    let params = object_value(m);
    proof {
        assert(params@->Object_0 =~= Json::Object(seq![("userId"@, Json::Text(user_id@)), ("channel"@, Json::Text(channel@))])->Object_0);
    }
    EnhancedRequest { event: "start_typing", params, reply_event: None }
}

/// Announces that a user stopped typing in a channel.
pub fn stop_typing(user_id: &str, channel: &str) -> (r: EnhancedRequest)
    ensures
        r.event@ == "stop_typing"@,
        r.params@ == Json::Object(seq![("userId"@, Json::Text(user_id@)), ("channel"@, Json::Text(channel@))]),
        r.reply_event is None,
{
    let mut m = members_new();
    push_member(&mut m, "userId", text_value(user_id));
    push_member(&mut m, "channel", text_value(channel));
    let params = object_value(m);
    proof {
        assert(params@->Object_0 =~= Json::Object(seq![("userId"@, Json::Text(user_id@)), ("channel"@, Json::Text(channel@))])->Object_0);
    }
    EnhancedRequest { event: "stop_typing", params, reply_event: None }
}

/// Asks for the presence of some users.
pub fn get_user_presence(user_ids: Vec<String>) -> (r: EnhancedRequest)
    ensures
        r.event@ == "get_user_presence"@,
        r.params@ == Json::Object(seq![("userIds"@, Json::Array(strings_json(user_ids@)))]),
        r.reply_event matches Some(e) && e@ == "user_presence_data"@,
{
    let mut m = members_new();
    push_member(&mut m, "userIds", strings_value(&user_ids));
    let params = object_value(m);
    proof {
        assert(params@->Object_0 =~= Json::Object(seq![("userIds"@, Json::Array(strings_json(user_ids@)))])->Object_0);
    }
    EnhancedRequest { event: "get_user_presence", params, reply_event: Some("user_presence_data") }
}

/// Replaces the content of a message.
pub fn edit_message(message_id: &str, channel: &str, new_content: &str, user_id: &str) -> (r: EnhancedRequest)
    ensures
        r.event@ == "edit_message"@,
        r.params@ == Json::Object(seq![("messageId"@, Json::Text(message_id@)), ("channel"@, Json::Text(channel@)), ("newContent"@, Json::Text(new_content@)), ("userId"@, Json::Text(user_id@))]),
        r.reply_event is None,
{
    let mut m = members_new();
    push_member(&mut m, "messageId", text_value(message_id));
    push_member(&mut m, "channel", text_value(channel));
    push_member(&mut m, "newContent", text_value(new_content));
    push_member(&mut m, "userId", text_value(user_id));
    let params = object_value(m);
    proof {
        assert(params@->Object_0 =~= Json::Object(seq![("messageId"@, Json::Text(message_id@)), ("channel"@, Json::Text(channel@)), ("newContent"@, Json::Text(new_content@)), ("userId"@, Json::Text(user_id@))])->Object_0);
    }
    EnhancedRequest { event: "edit_message", params, reply_event: None }
}

/// Deletes a message.
pub fn delete_message(message_id: &str, channel: &str, user_id: &str) -> (r: EnhancedRequest)
    ensures
        r.event@ == "delete_message"@,
        r.params@ == Json::Object(seq![("messageId"@, Json::Text(message_id@)), ("channel"@, Json::Text(channel@)), ("userId"@, Json::Text(user_id@))]),
        r.reply_event is None,
{
    let mut m = members_new();
    push_member(&mut m, "messageId", text_value(message_id));
    push_member(&mut m, "channel", text_value(channel));
    push_member(&mut m, "userId", text_value(user_id));
    let params = object_value(m);
    proof {
        assert(params@->Object_0 =~= Json::Object(seq![("messageId"@, Json::Text(message_id@)), ("channel"@, Json::Text(channel@)), ("userId"@, Json::Text(user_id@))])->Object_0);
    }
    EnhancedRequest { event: "delete_message", params, reply_event: None }
}

/// Pins a message.
pub fn pin_message(message_id: &str, channel: &str, user_id: &str) -> (r: EnhancedRequest)
    ensures
        r.event@ == "pin_message"@,
        r.params@ == Json::Object(seq![("messageId"@, Json::Text(message_id@)), ("channel"@, Json::Text(channel@)), ("userId"@, Json::Text(user_id@))]),
        r.reply_event is None,
{
    let mut m = members_new();
    push_member(&mut m, "messageId", text_value(message_id));
    push_member(&mut m, "channel", text_value(channel));
    push_member(&mut m, "userId", text_value(user_id));
    let params = object_value(m);
    proof {
        assert(params@->Object_0 =~= Json::Object(seq![("messageId"@, Json::Text(message_id@)), ("channel"@, Json::Text(channel@)), ("userId"@, Json::Text(user_id@))])->Object_0);
    }
    EnhancedRequest { event: "pin_message", params, reply_event: None }
}

/// Unpins a message.
pub fn unpin_message(message_id: &str, channel: &str, user_id: &str) -> (r: EnhancedRequest)
    ensures
        r.event@ == "unpin_message"@,
        r.params@ == Json::Object(seq![("messageId"@, Json::Text(message_id@)), ("channel"@, Json::Text(channel@)), ("userId"@, Json::Text(user_id@))]),
        r.reply_event is None,
{
    let mut m = members_new();
    push_member(&mut m, "messageId", text_value(message_id));
    push_member(&mut m, "channel", text_value(channel));
    push_member(&mut m, "userId", text_value(user_id));
    let params = object_value(m);
    proof {
        assert(params@->Object_0 =~= Json::Object(seq![("messageId"@, Json::Text(message_id@)), ("channel"@, Json::Text(channel@)), ("userId"@, Json::Text(user_id@))])->Object_0);
    }
    EnhancedRequest { event: "unpin_message", params, reply_event: None }
}

/// Asks for the pinned messages of a channel.
pub fn get_pinned_messages(channel: &str) -> (r: EnhancedRequest)
    ensures
        r.event@ == "get_pinned_messages"@,
        r.params@ == Json::Object(seq![("channel"@, Json::Text(channel@))]),
        r.reply_event matches Some(e) && e@ == "pinned_messages"@,
{
    let mut m = members_new();
    push_member(&mut m, "channel", text_value(channel));
    let params = object_value(m);
    proof {
        assert(params@->Object_0 =~= Json::Object(seq![("channel"@, Json::Text(channel@))])->Object_0);
    }
    EnhancedRequest { event: "get_pinned_messages", params, reply_event: Some("pinned_messages") }
}

/// Searches messages.
pub fn search_messages(query: &str, user_id: &str, limit: u32) -> (r: EnhancedRequest)
    ensures
        r.event@ == "search_messages"@,
        r.params@ == Json::Object(seq![("query"@, Json::Text(query@)), ("userId"@, Json::Text(user_id@)), ("limit"@, Json::Number(JsonNumber::PosInt(limit as u64)))]),
        r.reply_event matches Some(e) && e@ == "search_results"@,
{
    let mut m = members_new();
    push_member(&mut m, "query", text_value(query));
    push_member(&mut m, "userId", text_value(user_id));
    push_member(&mut m, "limit", JsonValue::Number(JsonNumber::PosInt(limit as u64)));
    let params = object_value(m);
    proof {
        assert(params@->Object_0 =~= Json::Object(seq![("query"@, Json::Text(query@)), ("userId"@, Json::Text(user_id@)), ("limit"@, Json::Number(JsonNumber::PosInt(limit as u64)))])->Object_0);
    }
    EnhancedRequest { event: "search_messages", params, reply_event: Some("search_results") }
}

/// Filters messages by the given criteria, sent as they are.
pub fn filter_messages(filters: Members) -> (r: EnhancedRequest)
    ensures
        r.event@ == "filter_messages"@,
        r.params@ == Json::Object(entries_view(filters@)),
        r.reply_event matches Some(e) && e@ == "filter_results"@,
{
    let ghost filters_view = entries_view(filters@);
    let params = object_value(filters);
    EnhancedRequest { event: "filter_messages", params, reply_event: Some("filter_results") }
}

/// Searches the messages of a channel.
pub fn search_in_channel(channel: &str, query: &str, limit: u32) -> (r: EnhancedRequest)
    ensures
        r.event@ == "search_in_channel"@,
        r.params@ == Json::Object(seq![("channel"@, Json::Text(channel@)), ("query"@, Json::Text(query@)), ("limit"@, Json::Number(JsonNumber::PosInt(limit as u64)))]),
        r.reply_event matches Some(e) && e@ == "channel_search_results"@,
{
    let mut m = members_new();
    push_member(&mut m, "channel", text_value(channel));
    push_member(&mut m, "query", text_value(query));
    push_member(&mut m, "limit", JsonValue::Number(JsonNumber::PosInt(limit as u64)));
    let params = object_value(m);
    proof {
        assert(params@->Object_0 =~= Json::Object(seq![("channel"@, Json::Text(channel@)), ("query"@, Json::Text(query@)), ("limit"@, Json::Number(JsonNumber::PosInt(limit as u64)))])->Object_0);
    }
    EnhancedRequest { event: "search_in_channel", params, reply_event: Some("channel_search_results") }
}

/// Searches a user's messages, optionally for a query.
pub fn search_by_user(user_id: &str, limit: u32, query: Option<&str>) -> (r: EnhancedRequest)
    ensures
        r.event@ == "search_by_user"@,
        r.params@ == Json::Object(push_if_text(seq![("userId"@, Json::Text(user_id@)), ("limit"@, Json::Number(JsonNumber::PosInt(limit as u64)))], "query"@, query)),
        r.reply_event matches Some(e) && e@ == "user_search_results"@,
{
    let mut m = members_new();
    push_member(&mut m, "userId", text_value(user_id));
    push_member(&mut m, "limit", JsonValue::Number(JsonNumber::PosInt(limit as u64)));
    match query {
        Some(v) => push_member(&mut m, "query", text_value(v)),
        None => {},
    }
    let params = object_value(m);
    proof {
        assert(params@->Object_0 =~= Json::Object(push_if_text(seq![("userId"@, Json::Text(user_id@)), ("limit"@, Json::Number(JsonNumber::PosInt(limit as u64)))], "query"@, query))->Object_0);
    }
    EnhancedRequest { event: "search_by_user", params, reply_event: Some("user_search_results") }
}

} // verus!
