//! The most commonly used types, for a single `use` statement.
pub use crate::error::{OddSocketsError, OddSocketsResultExt, Result};
pub use crate::json::{JsonNumber, JsonValue};
pub use crate::types::{
    message_types, utils, BulkMessage, BulkResult, ConnectionState, Duration, EventType,
    HistoryOptions, Message, OddSocketsConfig, OddSocketsConfigBuilder, PresenceInfo,
    PublishOptions, PublishResult, SubscribeOptions, Timestamp,
};
