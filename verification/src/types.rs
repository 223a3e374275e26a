//! Core types and data structures: connection states, events, client
//! configuration, messages, presence, publish results and request options.
pub mod constants;
pub mod error_codes;
pub mod time;
pub mod duration;
pub mod config;
pub mod records;
pub mod options;
pub mod utils;
pub mod message_types;

use vstd::prelude::*;
use crate::text::owned;

pub use time::Timestamp;
pub use duration::Duration;
pub use config::{OddSocketsConfig, OddSocketsConfigBuilder};
pub use records::{Message, PresenceInfo, PublishResult, BulkMessage, BulkResult};
pub use options::{SubscribeOptions, PublishOptions, HistoryOptions};
pub use utils::generate_message_id;

verus! {

/// The connection state of the client.
#[derive(Debug, Clone, Copy, PartialEq, Eq, Hash, Structural)]
pub enum ConnectionState {
    /// Client is disconnected
    Disconnected,
    /// Client is attempting to connect
    Connecting,
    /// Client is connected and ready
    Connected,
    /// Client is attempting to reconnect
    Reconnecting,
    /// Connection failed
    Failed,
}

impl ConnectionState {
    /// Returns true if the client is connected.
    pub fn is_connected(self) -> (r: bool)
        ensures
            r == (self == ConnectionState::Connected),
    {
        match self {
            ConnectionState::Connected => true,
            _ => false,
        }
    }

    /// Returns true if the client is connecting or reconnecting.
    pub fn is_connecting(self) -> (r: bool)
        ensures
            r == (self == ConnectionState::Connecting || self == ConnectionState::Reconnecting),
    {
        match self {
            ConnectionState::Connecting | ConnectionState::Reconnecting => true,
            _ => false,
        }
    }

    /// Returns true if the client is disconnected or failed.
    pub fn is_disconnected(self) -> (r: bool)
        ensures
            r == (self == ConnectionState::Disconnected || self == ConnectionState::Failed),
    {
        match self {
            ConnectionState::Disconnected | ConnectionState::Failed => true,
            _ => false,
        }
    }

    /// The display name of the state.
    pub fn display_text(self) -> (r: String)
        ensures
            r@ == match self {
                ConnectionState::Disconnected => "Disconnected"@,
                ConnectionState::Connecting => "Connecting"@,
                ConnectionState::Connected => "Connected"@,
                ConnectionState::Reconnecting => "Reconnecting"@,
                ConnectionState::Failed => "Failed"@,
            },
    {
        match self {
            ConnectionState::Disconnected => owned("Disconnected"),
            ConnectionState::Connecting => owned("Connecting"),
            ConnectionState::Connected => owned("Connected"),
            ConnectionState::Reconnecting => owned("Reconnecting"),
            ConnectionState::Failed => owned("Failed"),
        }
    }
}

/// Every state is exactly one of connected, connecting or disconnected.
pub proof fn lemma_state_classes_partition(s: ConnectionState)
    ensures
        (s == ConnectionState::Connected) as int + (s == ConnectionState::Connecting || s
            == ConnectionState::Reconnecting) as int + (s == ConnectionState::Disconnected || s
            == ConnectionState::Failed) as int == 1,
{
}

/// The events the client emits.
#[derive(Debug, Clone, Copy, PartialEq, Eq, Hash, Structural)]
pub enum EventType {
    /// Client connected successfully
    Connected,
    /// Client disconnected
    Disconnected,
    /// Client reconnected after a disconnection
    Reconnected,
    /// An error occurred
    Error,
    /// A message was received
    Message,
    /// Presence information updated
    Presence,
    /// Worker was assigned
    WorkerAssigned,
    /// Maximum reconnection attempts reached
    MaxReconnectAttemptsReached,
}

impl EventType {
    /// Returns true if this is a connection-related event.
    pub fn is_connection_event(self) -> (r: bool)
        ensures
            r == (self == EventType::Connected || self == EventType::Disconnected || self
                == EventType::Reconnected || self == EventType::WorkerAssigned || self
                == EventType::MaxReconnectAttemptsReached),
    {
        match self {
            EventType::Connected
            | EventType::Disconnected
            | EventType::Reconnected
            | EventType::WorkerAssigned
            | EventType::MaxReconnectAttemptsReached => true,
            _ => false,
        }
    }

    /// Returns true if this is a message-related event.
    pub fn is_message_event(self) -> (r: bool)
        ensures
            r == (self == EventType::Message || self == EventType::Presence),
    {
        match self {
            EventType::Message | EventType::Presence => true,
            _ => false,
        }
    }

    /// The display name of the event.
    pub fn display_text(self) -> (r: String)
        ensures
            r@ == match self {
                EventType::Connected => "Connected"@,
                EventType::Disconnected => "Disconnected"@,
                EventType::Reconnected => "Reconnected"@,
                EventType::Error => "Error"@,
                EventType::Message => "Message"@,
                EventType::Presence => "Presence"@,
                EventType::WorkerAssigned => "Worker Assigned"@,
                EventType::MaxReconnectAttemptsReached => "Max Reconnect Attempts Reached"@,
            },
    {
        match self {
            EventType::Connected => owned("Connected"),
            EventType::Disconnected => owned("Disconnected"),
            EventType::Reconnected => owned("Reconnected"),
            EventType::Error => owned("Error"),
            EventType::Message => owned("Message"),
            EventType::Presence => owned("Presence"),
            EventType::WorkerAssigned => owned("Worker Assigned"),
            EventType::MaxReconnectAttemptsReached => owned("Max Reconnect Attempts Reached"),
        }
    }
}

/// No event is both about the connection and about messages.
pub proof fn lemma_event_classes_disjoint(e: EventType)
    ensures
        !(e == EventType::Connected || e == EventType::Disconnected || e == EventType::Reconnected
            || e == EventType::WorkerAssigned || e == EventType::MaxReconnectAttemptsReached)
            || !(e == EventType::Message || e == EventType::Presence),
{
}

} // verus!
