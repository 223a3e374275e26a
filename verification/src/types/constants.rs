//! SDK version and metadata constants.
use vstd::prelude::*;

verus! {

pub const SDK_VERSION: &'static str = "0.1.0-beta.1";
pub const SDK_NAME: &'static str = "OddSockets-Rust-SDK";
pub const USER_AGENT: &'static str = "OddSockets-Rust-SDK/0.1.0-beta.1";
pub const DEFAULT_MANAGER_URL: &'static str = "https://manager1.oddsockets.tyga.network";
pub const DEFAULT_TIMEOUT_SECS: u64 = 10;
pub const DEFAULT_HEARTBEAT_INTERVAL_SECS: u64 = 30;
pub const DEFAULT_RECONNECT_ATTEMPTS: u32 = 5;
pub const MAX_MESSAGE_HISTORY_SIZE: usize = 100;

} // verus!
