//! OddSockets SDK library for the OddSockets real-time messaging platform:
//! client configuration and its validation, error classification with
//! recovery advice, message and presence records, message size limits,
//! manager discovery, the Engine.IO / Socket.IO wire protocol, the channel
//! and enhanced-feature requests, and the connection life cycle.
pub mod text;
pub mod json;
pub mod error;
pub mod types;
pub mod message_size_validator;
pub mod manager_discovery;
pub mod protocol;
pub mod session;
pub mod requests;
pub mod enhanced;
pub mod prelude;

pub use error::{OddSocketsError, OddSocketsResultExt, Result, WebSocketFailure};
pub use json::{JsonNumber, JsonValue, Members};
pub use types::{
    constants, error_codes, message_types, utils, BulkMessage, BulkResult, ConnectionState,
    Duration, EventType, HistoryOptions, Message, OddSocketsConfig, OddSocketsConfigBuilder,
    PresenceInfo, PublishOptions, PublishResult, SubscribeOptions, Timestamp,
};
pub use manager_discovery::ManagerDiscovery;
