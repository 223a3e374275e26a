//! Error codes used throughout the SDK.
use vstd::prelude::*;

verus! {

pub const INVALID_API_KEY: &'static str = "INVALID_API_KEY";
pub const CONNECTION_FAILED: &'static str = "CONNECTION_FAILED";
pub const AUTHENTICATION_FAILED: &'static str = "AUTHENTICATION_FAILED";
pub const CHANNEL_ACCESS_DENIED: &'static str = "CHANNEL_ACCESS_DENIED";
pub const MESSAGE_DELIVERY_FAILED: &'static str = "MESSAGE_DELIVERY_FAILED";
pub const INVALID_CONFIGURATION: &'static str = "INVALID_CONFIGURATION";
pub const WORKER_ASSIGNMENT_FAILED: &'static str = "WORKER_ASSIGNMENT_FAILED";
pub const MAX_RECONNECT_ATTEMPTS_REACHED: &'static str = "MAX_RECONNECT_ATTEMPTS_REACHED";
pub const OPERATION_TIMEOUT: &'static str = "OPERATION_TIMEOUT";
pub const INVALID_CHANNEL_NAME: &'static str = "INVALID_CHANNEL_NAME";
pub const WEBSOCKET_ERROR: &'static str = "WEBSOCKET_ERROR";

} // verus!
