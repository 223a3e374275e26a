//! Error types: codes, recoverability, reconnection policy, recovery
//! suggestions and decoding of worker error reports.
use vstd::prelude::*;
use vstd::string::*;
use crate::json::{Json, JsonValue, lookup_from, entries_view, map_get};
use crate::text::{owned, decimal, decimal_text, str_eq};
use crate::types::error_codes;

verus! {

/// Main error type of the SDK.
#[derive(Debug, Clone, PartialEq)]
pub enum OddSocketsError {
    /// Invalid or missing API key
    InvalidApiKey { message: String },
    /// Connection to OddSockets failed
    ConnectionFailed { message: String },
    /// Authentication failed
    AuthenticationFailed { message: String },
    /// Access to a channel was denied
    ChannelAccessDenied { channel: String, message: String },
    /// Message delivery failed
    MessageDeliveryFailed { message: String, message_id: Option<String>, channel: Option<String> },
    /// Invalid configuration
    InvalidConfiguration { message: String },
    /// Worker assignment failed
    WorkerAssignmentFailed { message: String },
    /// Maximum reconnection attempts reached
    MaxReconnectAttemptsReached { attempts: u32 },
    /// Operation timed out
    OperationTimeout { operation: String, timeout_secs: u64 },
    /// Invalid channel name
    InvalidChannelName { channel_name: String, message: String },
    /// WebSocket error
    WebSocketError { message: String, close_code: Option<u16>, close_reason: Option<String> },
    /// HTTP request error
    HttpError { message: String, status: Option<u16> },
    /// JSON serialization/deserialization error
    JsonError { message: String },
    /// IO error
    IoError { message: String },
    /// Message exceeds size limit
    MessageTooLarge { size_kb: usize, max_size_kb: usize, message: String },
    /// The client is not connected
    NotConnected,
    /// A request got no answer in time
    Timeout,
    /// Generic error for unknown conditions
    Unknown { message: String },
}

/// Result type alias for OddSockets operations.
pub type Result<T> = core::result::Result<T, OddSocketsError>;

/// The error code of an error.
pub open spec fn code_of(e: OddSocketsError) -> Seq<char> {
    match e {
        OddSocketsError::InvalidApiKey { .. } => error_codes::INVALID_API_KEY@,
        OddSocketsError::ConnectionFailed { .. } => error_codes::CONNECTION_FAILED@,
        OddSocketsError::AuthenticationFailed { .. } => error_codes::AUTHENTICATION_FAILED@,
        OddSocketsError::ChannelAccessDenied { .. } => error_codes::CHANNEL_ACCESS_DENIED@,
        OddSocketsError::MessageDeliveryFailed { .. } => error_codes::MESSAGE_DELIVERY_FAILED@,
        OddSocketsError::InvalidConfiguration { .. } => error_codes::INVALID_CONFIGURATION@,
        OddSocketsError::WorkerAssignmentFailed { .. } => error_codes::WORKER_ASSIGNMENT_FAILED@,
        OddSocketsError::MaxReconnectAttemptsReached { .. } => error_codes::MAX_RECONNECT_ATTEMPTS_REACHED@,
        OddSocketsError::OperationTimeout { .. } => error_codes::OPERATION_TIMEOUT@,
        OddSocketsError::InvalidChannelName { .. } => error_codes::INVALID_CHANNEL_NAME@,
        OddSocketsError::WebSocketError { .. } => error_codes::WEBSOCKET_ERROR@,
        OddSocketsError::HttpError { .. } => "HTTP_ERROR"@,
        OddSocketsError::JsonError { .. } => "JSON_ERROR"@,
        OddSocketsError::IoError { .. } => "IO_ERROR"@,
        OddSocketsError::MessageTooLarge { .. } => "MESSAGE_TOO_LARGE"@,
        OddSocketsError::NotConnected => "NOT_CONNECTED"@,
        OddSocketsError::Timeout => "TIMEOUT"@,
        OddSocketsError::Unknown { .. } => "UNKNOWN_ERROR"@,
    }
}

/// Whether the condition may clear up by itself, so that retrying can help.
pub open spec fn recoverable(e: OddSocketsError) -> bool {
    match e {
        OddSocketsError::InvalidApiKey { .. } => false,
        OddSocketsError::ConnectionFailed { .. } => true,
        OddSocketsError::AuthenticationFailed { .. } => false,
        OddSocketsError::ChannelAccessDenied { .. } => false,
        OddSocketsError::MessageDeliveryFailed { .. } => true,
        OddSocketsError::InvalidConfiguration { .. } => false,
        OddSocketsError::WorkerAssignmentFailed { .. } => true,
        OddSocketsError::MaxReconnectAttemptsReached { .. } => false,
        OddSocketsError::OperationTimeout { .. } => true,
        OddSocketsError::InvalidChannelName { .. } => false,
        OddSocketsError::WebSocketError { close_code, .. } => !(close_code == Some(1002u16)
            || close_code == Some(1003u16)),
        OddSocketsError::HttpError { status, .. } => !(status == Some(401u16) || status == Some(
            403u16,
        ) || status == Some(404u16)),
        OddSocketsError::JsonError { .. } => false,
        OddSocketsError::IoError { .. } => true,
        OddSocketsError::MessageTooLarge { .. } => false,
        OddSocketsError::NotConnected => true,
        OddSocketsError::Timeout => true,
        OddSocketsError::Unknown { .. } => false,
    }
}

/// Whether the error calls for a reconnection attempt.
pub open spec fn reconnect_advised(e: OddSocketsError) -> bool {
    match e {
        OddSocketsError::ConnectionFailed { .. } => true,
        OddSocketsError::WorkerAssignmentFailed { .. } => true,
        OddSocketsError::WebSocketError { .. } => recoverable(e),
        OddSocketsError::HttpError { .. } => recoverable(e),
        OddSocketsError::IoError { .. } => true,
        _ => false,
    }
}

impl OddSocketsError {
    /// Returns the error code for this error.
    pub fn error_code(&self) -> (r: &'static str)
        ensures
            r@ == code_of(*self),
    {
        match self {
            OddSocketsError::InvalidApiKey { .. } => error_codes::INVALID_API_KEY,
            OddSocketsError::ConnectionFailed { .. } => error_codes::CONNECTION_FAILED,
            OddSocketsError::AuthenticationFailed { .. } => error_codes::AUTHENTICATION_FAILED,
            OddSocketsError::ChannelAccessDenied { .. } => error_codes::CHANNEL_ACCESS_DENIED,
            OddSocketsError::MessageDeliveryFailed { .. } => error_codes::MESSAGE_DELIVERY_FAILED,
            OddSocketsError::InvalidConfiguration { .. } => error_codes::INVALID_CONFIGURATION,
            OddSocketsError::WorkerAssignmentFailed { .. } => error_codes::WORKER_ASSIGNMENT_FAILED,
            OddSocketsError::MaxReconnectAttemptsReached {
                ..
            } => error_codes::MAX_RECONNECT_ATTEMPTS_REACHED,
            OddSocketsError::OperationTimeout { .. } => error_codes::OPERATION_TIMEOUT,
            OddSocketsError::InvalidChannelName { .. } => error_codes::INVALID_CHANNEL_NAME,
            OddSocketsError::WebSocketError { .. } => error_codes::WEBSOCKET_ERROR,
            OddSocketsError::HttpError { .. } => "HTTP_ERROR",
            OddSocketsError::JsonError { .. } => "JSON_ERROR",
            OddSocketsError::IoError { .. } => "IO_ERROR",
            OddSocketsError::MessageTooLarge { .. } => "MESSAGE_TOO_LARGE",
            OddSocketsError::NotConnected => "NOT_CONNECTED",
            OddSocketsError::Timeout => "TIMEOUT",
            OddSocketsError::Unknown { .. } => "UNKNOWN_ERROR",
        }
    }

    /// Returns whether this error is recoverable.
    pub fn is_recoverable(&self) -> (r: bool)
        ensures
            r == recoverable(*self),
            *self matches OddSocketsError::HttpError { status, .. } ==> (r == !(status == Some(401u16)
                || status == Some(403u16) || status == Some(404u16))),
            *self matches OddSocketsError::WebSocketError { close_code, .. } ==> (r == !(close_code
                == Some(1002u16) || close_code == Some(1003u16))),
    {
        match self {
            OddSocketsError::InvalidApiKey { .. } => false,
            OddSocketsError::ConnectionFailed { .. } => true,
            OddSocketsError::AuthenticationFailed { .. } => false,
            OddSocketsError::ChannelAccessDenied { .. } => false,
            OddSocketsError::MessageDeliveryFailed { .. } => true,
            OddSocketsError::InvalidConfiguration { .. } => false,
            OddSocketsError::WorkerAssignmentFailed { .. } => true,
            OddSocketsError::MaxReconnectAttemptsReached { .. } => false,
            OddSocketsError::OperationTimeout { .. } => true,
            OddSocketsError::InvalidChannelName { .. } => false,
            OddSocketsError::WebSocketError { close_code, .. } => {
                // Protocol and data errors are permanent.
                match close_code {
                    Some(1002) | Some(1003) => false,
                    _ => true,
                }
            },
            OddSocketsError::HttpError { status, .. } => {
                // Authorization and not-found errors are permanent; the rest may pass.
                match status {
                    Some(401) | Some(403) | Some(404) => false,
                    _ => true,
                }
            },
            OddSocketsError::JsonError { .. } => false,
            OddSocketsError::IoError { .. } => true,
            OddSocketsError::MessageTooLarge { .. } => false,
            OddSocketsError::NotConnected => true,
            OddSocketsError::Timeout => true,
            OddSocketsError::Unknown { .. } => false,
        }
    }

    /// Returns whether this error should trigger a reconnection attempt.
    pub fn should_reconnect(&self) -> (r: bool)
        ensures
            r == reconnect_advised(*self),
            *self matches OddSocketsError::HttpError { status, .. } ==> (r == !(status == Some(401u16)
                || status == Some(403u16) || status == Some(404u16))),
    {
        match self {
            OddSocketsError::ConnectionFailed { .. } => true,
            OddSocketsError::WorkerAssignmentFailed { .. } => true,
            OddSocketsError::WebSocketError { .. } => self.is_recoverable(),
            OddSocketsError::HttpError { .. } => self.is_recoverable(),
            OddSocketsError::IoError { .. } => true,
            _ => false,
        }
    }
}

/// An HTTP error for an unauthorized (401), forbidden (403) or missing (404)
/// resource is permanent: it is not recoverable and advises no reconnection,
/// whatever its message. Every other HTTP error, a server error or one with
/// no status among them, may clear up and advises reconnecting.
pub proof fn lemma_http_error_classes(message: String, status: Option<u16>)
    ensures
        (status == Some(401u16) || status == Some(403u16) || status == Some(404u16)) ==> {
            &&& !recoverable(OddSocketsError::HttpError { message, status })
            &&& !reconnect_advised(OddSocketsError::HttpError { message, status })
        },
        !(status == Some(401u16) || status == Some(403u16) || status == Some(404u16)) ==> {
            &&& recoverable(OddSocketsError::HttpError { message, status })
            &&& reconnect_advised(OddSocketsError::HttpError { message, status })
        },
{
}

/// A WebSocket error closed for a protocol (1002) or data (1003) fault is
/// permanent; any other WebSocket error may clear up and advises reconnecting.
pub proof fn lemma_websocket_error_classes(message: String, close_code: Option<u16>, close_reason: Option<String>)
    ensures
        (close_code == Some(1002u16) || close_code == Some(1003u16)) ==> {
            &&& !recoverable(OddSocketsError::WebSocketError { message, close_code, close_reason })
            &&& !reconnect_advised(OddSocketsError::WebSocketError { message, close_code, close_reason })
        },
        !(close_code == Some(1002u16) || close_code == Some(1003u16)) ==> {
            &&& recoverable(OddSocketsError::WebSocketError { message, close_code, close_reason })
            &&& reconnect_advised(OddSocketsError::WebSocketError { message, close_code, close_reason })
        },
{
}

/// Errors caused by what the caller supplied (credentials, configuration,
/// channel names, data, message size) or that end the retrying are permanent:
/// not recoverable and no reason to reconnect. Failures of the connection,
/// of delivery, of assignment, of time and of I/O may clear up; those of the
/// connection, of assignment and of I/O advise reconnecting.
pub proof fn lemma_error_classes(e: OddSocketsError)
    ensures
        (e is InvalidApiKey || e is AuthenticationFailed || e is ChannelAccessDenied
            || e is InvalidConfiguration || e is InvalidChannelName || e is JsonError
            || e is MessageTooLarge || e is MaxReconnectAttemptsReached || e is Unknown) ==> {
            &&& !recoverable(e)
            &&& !reconnect_advised(e)
        },
        (e is ConnectionFailed || e is MessageDeliveryFailed || e is WorkerAssignmentFailed
            || e is OperationTimeout || e is IoError || e is NotConnected || e is Timeout)
            ==> recoverable(e),
        (e is ConnectionFailed || e is WorkerAssignmentFailed || e is IoError) ==> reconnect_advised(e),
        (e is MessageDeliveryFailed || e is OperationTimeout || e is NotConnected || e is Timeout)
            ==> !reconnect_advised(e),
{
}

/// A reconnection is only ever advised for an error that may clear up.
pub proof fn lemma_reconnect_implies_recoverable(e: OddSocketsError)
    ensures
        reconnect_advised(e) ==> recoverable(e),
{
}


/// The recovery suggestions offered for an error, in order.
pub open spec fn suggestions_for(e: OddSocketsError) -> Seq<&'static str> {
    match e {
        OddSocketsError::InvalidApiKey { .. } => seq![
            "Verify your API key is correct",
            "Check that your API key starts with 'ak_'",
            "Ensure your API key has not expired",
            "Contact support if the issue persists",
        ],
        OddSocketsError::ConnectionFailed { .. } => seq![
            "Check your internet connection",
            "Verify the manager URL is correct",
            "Try again in a few moments",
            "Check if OddSockets service is operational",
        ],
        OddSocketsError::AuthenticationFailed { .. } => seq![
            "Verify your API key is valid",
            "Check your account status",
            "Ensure your subscription is active",
            "Contact support for assistance",
        ],
        OddSocketsError::ChannelAccessDenied { .. } => seq![
            "Check channel permissions in your dashboard",
            "Verify the channel name is correct",
            "Ensure your API key has access to this channel",
            "Contact your administrator for access",
        ],
        OddSocketsError::MessageDeliveryFailed { .. } => seq![
            "Check your connection status",
            "Verify the channel exists and is accessible",
            "Try resending the message",
            "Check message size limits",
        ],
        OddSocketsError::InvalidConfiguration { .. } => seq![
            "Review your configuration parameters",
            "Check the documentation for valid values",
            "Ensure all required fields are provided",
            "Validate URL formats and timeouts",
        ],
        OddSocketsError::WorkerAssignmentFailed { .. } => seq![
            "Wait a moment and try reconnecting",
            "Check OddSockets service status",
            "Verify your subscription limits",
            "Contact support if the issue persists",
        ],
        OddSocketsError::MaxReconnectAttemptsReached { .. } => seq![
            "Check your internet connection",
            "Verify OddSockets service is operational",
            "Try connecting again later",
            "Consider increasing reconnection attempts in configuration",
        ],
        OddSocketsError::OperationTimeout { .. } => seq![
            "Check your internet connection speed",
            "Try increasing the timeout in configuration",
            "Retry the operation",
            "Check if the service is experiencing high load",
        ],
        OddSocketsError::InvalidChannelName { .. } => seq![
            "Channel names must be non-empty strings",
            "Avoid special characters in channel names",
            "Use alphanumeric characters, hyphens, and underscores",
            "Check the documentation for naming conventions",
        ],
        OddSocketsError::WebSocketError { close_code, .. } => {
            let base = seq![
                "Check your internet connection",
                "Verify the WebSocket endpoint is accessible",
                "Try reconnecting in a few moments",
            ];
            if close_code == Some(1006u16) {
                seq!["Connection was closed abnormally - check network"] + base
            } else if close_code == Some(1011u16) {
                seq!["Server error - try again later"] + base
            } else if close_code == Some(1012u16) {
                seq!["Service is restarting - wait and reconnect"] + base
            } else {
                base
            }
        },
        OddSocketsError::HttpError { .. } => seq![
            "Check your internet connection",
            "Verify the server endpoint is accessible",
            "Try the request again",
            "Check if the service is experiencing issues",
        ],
        OddSocketsError::JsonError { .. } => seq![
            "Check the data format being sent",
            "Ensure JSON is properly formatted",
            "Verify data types match expected schema",
            "Contact support if the issue persists",
        ],
        OddSocketsError::IoError { .. } => seq![
            "Check your internet connection",
            "Verify file permissions if applicable",
            "Try the operation again",
            "Check available disk space",
        ],
        OddSocketsError::MessageTooLarge { .. } => seq![
            "Reduce the message size to under 32KB",
            "Split large messages into smaller chunks",
            "Use message compression if applicable",
            "Consider using file uploads for large content",
        ],
        OddSocketsError::NotConnected => seq![
            "Call connect() before using the client",
            "Check your internet connection",
            "Try again in a few moments",
        ],
        OddSocketsError::Timeout => seq![
            "Check your internet connection speed",
            "Retry the operation",
            "Check if the service is experiencing high load",
        ],
        OddSocketsError::Unknown { .. } => seq![
            "Check the error message for specific details",
            "Verify your configuration and API key",
            "Try the operation again",
            "Contact support if the issue persists",
        ],
    }
}

impl OddSocketsError {
    /// Returns recovery suggestions for this error.
    pub fn recovery_suggestions(&self) -> (r: Vec<&'static str>)
        ensures
            r@ == suggestions_for(*self),
    {
        match self {
            OddSocketsError::InvalidApiKey { .. } => vec![
                "Verify your API key is correct",
                "Check that your API key starts with 'ak_'",
                "Ensure your API key has not expired",
                "Contact support if the issue persists",
            ],
            OddSocketsError::ConnectionFailed { .. } => vec![
                "Check your internet connection",
                "Verify the manager URL is correct",
                "Try again in a few moments",
                "Check if OddSockets service is operational",
            ],
            OddSocketsError::AuthenticationFailed { .. } => vec![
                "Verify your API key is valid",
                "Check your account status",
                "Ensure your subscription is active",
                "Contact support for assistance",
            ],
            OddSocketsError::ChannelAccessDenied { .. } => vec![
                "Check channel permissions in your dashboard",
                "Verify the channel name is correct",
                "Ensure your API key has access to this channel",
                "Contact your administrator for access",
            ],
            OddSocketsError::MessageDeliveryFailed { .. } => vec![
                "Check your connection status",
                "Verify the channel exists and is accessible",
                "Try resending the message",
                "Check message size limits",
            ],
            OddSocketsError::InvalidConfiguration { .. } => vec![
                "Review your configuration parameters",
                "Check the documentation for valid values",
                "Ensure all required fields are provided",
                "Validate URL formats and timeouts",
            ],
            OddSocketsError::WorkerAssignmentFailed { .. } => vec![
                "Wait a moment and try reconnecting",
                "Check OddSockets service status",
                "Verify your subscription limits",
                "Contact support if the issue persists",
            ],
            OddSocketsError::MaxReconnectAttemptsReached { .. } => vec![
                "Check your internet connection",
                "Verify OddSockets service is operational",
                "Try connecting again later",
                "Consider increasing reconnection attempts in configuration",
            ],
            OddSocketsError::OperationTimeout { .. } => vec![
                "Check your internet connection speed",
                "Try increasing the timeout in configuration",
                "Retry the operation",
                "Check if the service is experiencing high load",
            ],
            OddSocketsError::InvalidChannelName { .. } => vec![
                "Channel names must be non-empty strings",
                "Avoid special characters in channel names",
                "Use alphanumeric characters, hyphens, and underscores",
                "Check the documentation for naming conventions",
            ],
            OddSocketsError::WebSocketError { close_code, .. } => {
                let mut suggestions = vec![
                    "Check your internet connection",
                    "Verify the WebSocket endpoint is accessible",
                    "Try reconnecting in a few moments",
                ];
                match close_code {
                    Some(1006) => suggestions.insert(
                        0,
                        "Connection was closed abnormally - check network",
                    ),
                    Some(1011) => suggestions.insert(0, "Server error - try again later"),
                    Some(1012) => suggestions.insert(0, "Service is restarting - wait and reconnect"),
                    _ => {},
                }
                proof {
                    assert(suggestions@ =~= suggestions_for(*self));
                }
                suggestions
            },
            OddSocketsError::HttpError { .. } => vec![
                "Check your internet connection",
                "Verify the server endpoint is accessible",
                "Try the request again",
                "Check if the service is experiencing issues",
            ],
            OddSocketsError::JsonError { .. } => vec![
                "Check the data format being sent",
                "Ensure JSON is properly formatted",
                "Verify data types match expected schema",
                "Contact support if the issue persists",
            ],
            OddSocketsError::IoError { .. } => vec![
                "Check your internet connection",
                "Verify file permissions if applicable",
                "Try the operation again",
                "Check available disk space",
            ],
            OddSocketsError::MessageTooLarge { .. } => vec![
                "Reduce the message size to under 32KB",
                "Split large messages into smaller chunks",
                "Use message compression if applicable",
                "Consider using file uploads for large content",
            ],
            OddSocketsError::NotConnected => vec![
                "Call connect() before using the client",
                "Check your internet connection",
                "Try again in a few moments",
            ],
            OddSocketsError::Timeout => vec![
                "Check your internet connection speed",
                "Retry the operation",
                "Check if the service is experiencing high load",
            ],
            OddSocketsError::Unknown { .. } => vec![
                "Check the error message for specific details",
                "Verify your configuration and API key",
                "Try the operation again",
                "Contact support if the issue persists",
            ],
        }
    }
}

/// Every error comes with at least three recovery suggestions.
pub proof fn lemma_suggestions_nonempty(e: OddSocketsError)
    ensures
        suggestions_for(e).len() >= 3,
{
}


/// The human-readable message of an error.
pub open spec fn display_of(e: OddSocketsError) -> Seq<char> {
    match e {
        OddSocketsError::InvalidApiKey { message } => "Invalid API key: "@ + message@,
        OddSocketsError::ConnectionFailed { message } => "Connection failed: "@ + message@,
        OddSocketsError::AuthenticationFailed { message } => "Authentication failed: "@ + message@,
        OddSocketsError::ChannelAccessDenied { channel, message } => "Channel access denied for '"@
            + channel@ + "': "@ + message@,
        OddSocketsError::MessageDeliveryFailed { message, .. } => "Message delivery failed: "@
            + message@,
        OddSocketsError::InvalidConfiguration { message } => "Invalid configuration: "@ + message@,
        OddSocketsError::WorkerAssignmentFailed { message } => "Worker assignment failed: "@
            + message@,
        OddSocketsError::MaxReconnectAttemptsReached { attempts } =>
            "Maximum reconnection attempts ("@ + decimal(attempts as nat) + ") reached"@,
        OddSocketsError::OperationTimeout { operation, timeout_secs } => "Operation '"@
            + operation@ + "' timed out after "@ + decimal(timeout_secs as nat) + " seconds"@,
        OddSocketsError::InvalidChannelName { channel_name, message } => "Invalid channel name '"@
            + channel_name@ + "': "@ + message@,
        OddSocketsError::WebSocketError { message, .. } => "WebSocket error: "@ + message@,
        OddSocketsError::HttpError { message, .. } => "HTTP request failed: "@ + message@,
        OddSocketsError::JsonError { message } => "JSON error: "@ + message@,
        OddSocketsError::IoError { message } => "IO error: "@ + message@,
        OddSocketsError::MessageTooLarge { message, .. } => "Message too large: "@ + message@,
        OddSocketsError::NotConnected => "Not connected"@,
        OddSocketsError::Timeout => "Operation timed out"@,
        OddSocketsError::Unknown { message } => "Unknown error: "@ + message@,
    }
}

impl OddSocketsError {
    /// The human-readable message of this error (what `to_string()` shows).
    pub fn display_text(&self) -> (r: String)
        ensures
            r@ == display_of(*self),
    {
        match self {
            OddSocketsError::InvalidApiKey { message } => owned("Invalid API key: ").concat(
                message.as_str(),
            ),
            OddSocketsError::ConnectionFailed { message } => owned("Connection failed: ").concat(
                message.as_str(),
            ),
            OddSocketsError::AuthenticationFailed { message } => owned(
                "Authentication failed: ",
            ).concat(message.as_str()),
            OddSocketsError::ChannelAccessDenied { channel, message } => owned(
                "Channel access denied for '",
            ).concat(channel.as_str()).concat("': ").concat(message.as_str()),
            OddSocketsError::MessageDeliveryFailed { message, .. } => owned(
                "Message delivery failed: ",
            ).concat(message.as_str()),
            OddSocketsError::InvalidConfiguration { message } => owned(
                "Invalid configuration: ",
            ).concat(message.as_str()),
            OddSocketsError::WorkerAssignmentFailed { message } => owned(
                "Worker assignment failed: ",
            ).concat(message.as_str()),
            OddSocketsError::MaxReconnectAttemptsReached { attempts } => {
                let n = decimal_text(*attempts as u64);
                owned("Maximum reconnection attempts (").concat(n.as_str()).concat(") reached")
            },
            OddSocketsError::OperationTimeout { operation, timeout_secs } => {
                let n = decimal_text(*timeout_secs);
                owned("Operation '").concat(operation.as_str()).concat("' timed out after ").concat(
                    n.as_str(),
                ).concat(" seconds")
            },
            OddSocketsError::InvalidChannelName { channel_name, message } => owned(
                "Invalid channel name '",
            ).concat(channel_name.as_str()).concat("': ").concat(message.as_str()),
            OddSocketsError::WebSocketError { message, .. } => owned("WebSocket error: ").concat(
                message.as_str(),
            ),
            OddSocketsError::HttpError { message, .. } => owned("HTTP request failed: ").concat(
                message.as_str(),
            ),
            OddSocketsError::JsonError { message } => owned("JSON error: ").concat(
                message.as_str(),
            ),
            OddSocketsError::IoError { message } => owned("IO error: ").concat(message.as_str()),
            OddSocketsError::MessageTooLarge { message, .. } => owned("Message too large: ").concat(
                message.as_str(),
            ),
            OddSocketsError::NotConnected => owned("Not connected"),
            OddSocketsError::Timeout => owned("Operation timed out"),
            OddSocketsError::Unknown { message } => owned("Unknown error: ").concat(
                message.as_str(),
            ),
        }
    }
}

/// The view of an optional string.
pub open spec fn opt_text(s: Option<String>) -> Option<Seq<char>> {
    match s {
        Some(t) => Some(t@),
        None => None,
    }
}

/// The view of optional error details (the members of a JSON object).
pub open spec fn details_view(details: Option<Vec<(String, JsonValue)>>) -> Option<
    Seq<(Seq<char>, Json)>,
> {
    match details {
        Some(d) => Some(entries_view(d@)),
        None => None,
    }
}

/// The detail stored under `key`, if it is a string.
pub open spec fn detail_text(details: Option<Seq<(Seq<char>, Json)>>, key: Seq<char>) -> Option<
    Seq<char>,
> {
    match details {
        Some(es) => match lookup_from(es, key, 0) {
            Some(v) => v.text(),
            None => None,
        },
        None => None,
    }
}

/// The detail stored under `key`, if it is a non-negative integer.
pub open spec fn detail_uint(details: Option<Seq<(Seq<char>, Json)>>, key: Seq<char>) -> Option<
    u64,
> {
    match details {
        Some(es) => match lookup_from(es, key, 0) {
            Some(v) => v.uint(),
            None => None,
        },
        None => None,
    }
}

/// `o.unwrap_or(d)` on texts.
pub open spec fn text_or(o: Option<Seq<char>>, d: Seq<char>) -> Seq<char> {
    match o {
        Some(t) => t,
        None => d,
    }
}

/// `o.unwrap_or(d)` on integers.
pub open spec fn uint_or(o: Option<u64>, d: u64) -> u64 {
    match o {
        Some(n) => n,
        None => d,
    }
}

/// Whether `code` is one of the codes in `error_codes`.
pub open spec fn is_known_code(code: Seq<char>) -> bool {
    ||| code == error_codes::INVALID_API_KEY@
    ||| code == error_codes::CONNECTION_FAILED@
    ||| code == error_codes::AUTHENTICATION_FAILED@
    ||| code == error_codes::CHANNEL_ACCESS_DENIED@
    ||| code == error_codes::MESSAGE_DELIVERY_FAILED@
    ||| code == error_codes::INVALID_CONFIGURATION@
    ||| code == error_codes::WORKER_ASSIGNMENT_FAILED@
    ||| code == error_codes::MAX_RECONNECT_ATTEMPTS_REACHED@
    ||| code == error_codes::OPERATION_TIMEOUT@
    ||| code == error_codes::INVALID_CHANNEL_NAME@
    ||| code == error_codes::WEBSOCKET_ERROR@
}

/// The error that a worker report with `code`, `message` and `details` decodes to.
pub open spec fn decodes_to(
    code: Seq<char>,
    message: String,
    details: Option<Seq<(Seq<char>, Json)>>,
    r: OddSocketsError,
) -> bool {
    if code == error_codes::INVALID_API_KEY@ {
        r == OddSocketsError::InvalidApiKey { message }
    } else if code == error_codes::CONNECTION_FAILED@ {
        r == OddSocketsError::ConnectionFailed { message }
    } else if code == error_codes::AUTHENTICATION_FAILED@ {
        r == OddSocketsError::AuthenticationFailed { message }
    } else if code == error_codes::CHANNEL_ACCESS_DENIED@ {
        &&& r matches OddSocketsError::ChannelAccessDenied { channel, message: m }
        &&& m == message
        &&& channel@ == text_or(detail_text(details, "channel"@), "unknown"@)
    } else if code == error_codes::MESSAGE_DELIVERY_FAILED@ {
        &&& r matches OddSocketsError::MessageDeliveryFailed { message: m, message_id, channel }
        &&& m == message
        &&& opt_text(message_id) == detail_text(details, "messageId"@)
        &&& opt_text(channel) == detail_text(details, "channel"@)
    } else if code == error_codes::INVALID_CONFIGURATION@ {
        r == OddSocketsError::InvalidConfiguration { message }
    } else if code == error_codes::WORKER_ASSIGNMENT_FAILED@ {
        r == OddSocketsError::WorkerAssignmentFailed { message }
    } else if code == error_codes::MAX_RECONNECT_ATTEMPTS_REACHED@ {
        r == OddSocketsError::MaxReconnectAttemptsReached {
            attempts: uint_or(detail_uint(details, "attempts"@), 0) as u32,
        }
    } else if code == error_codes::OPERATION_TIMEOUT@ {
        &&& r matches OddSocketsError::OperationTimeout { operation, timeout_secs }
        &&& operation@ == text_or(detail_text(details, "operation"@), "unknown"@)
        &&& timeout_secs == uint_or(detail_uint(details, "timeout"@), 0)
    } else if code == error_codes::INVALID_CHANNEL_NAME@ {
        &&& r matches OddSocketsError::InvalidChannelName { channel_name, message: m }
        &&& m == message
        &&& channel_name@ == text_or(detail_text(details, "channelName"@), "unknown"@)
    } else if code == error_codes::WEBSOCKET_ERROR@ {
        &&& r matches OddSocketsError::WebSocketError { message: m, close_code, close_reason }
        &&& m == message
        &&& close_code == match detail_uint(details, "closeCode"@) {
            Some(c) => Some(c as u16),
            None => None::<u16>,
        }
        &&& opt_text(close_reason) == detail_text(details, "closeReason"@)
    } else {
        r == OddSocketsError::Unknown { message }
    }
}

/// The string detail stored under `key`, copied.
fn detail_string(details: &Option<Vec<(String, JsonValue)>>, key: &str) -> (r: Option<String>)
    ensures
        opt_text(r) == detail_text(details_view(*details), key@),
{
    match details {
        Some(d) => match map_get(d, key) {
            Some(v) => match v.as_str() {
                Some(s) => Some(owned(s)),
                None => None,
            },
            None => None,
        },
        None => None,
    }
}

/// The integer detail stored under `key`.
fn detail_u64(details: &Option<Vec<(String, JsonValue)>>, key: &str) -> (r: Option<u64>)
    ensures
        r == detail_uint(details_view(*details), key@),
{
    match details {
        Some(d) => match map_get(d, key) {
            Some(v) => v.as_u64(),
            None => None,
        },
        None => None,
    }
}

impl OddSocketsError {
    /// Creates an error from an error code, a message and optional details.
    pub fn from_error_code(
        code: &str,
        message: String,
        details: Option<Vec<(String, JsonValue)>>,
    ) -> (r: OddSocketsError)
        ensures
            decodes_to(code@, message, details_view(details), r),
            code_of(r) == if is_known_code(code@) {
                code@
            } else {
                "UNKNOWN_ERROR"@
            },
    {
        if str_eq(code, error_codes::INVALID_API_KEY) {
            OddSocketsError::InvalidApiKey { message }
        } else if str_eq(code, error_codes::CONNECTION_FAILED) {
            OddSocketsError::ConnectionFailed { message }
        } else if str_eq(code, error_codes::AUTHENTICATION_FAILED) {
            OddSocketsError::AuthenticationFailed { message }
        } else if str_eq(code, error_codes::CHANNEL_ACCESS_DENIED) {
            let channel = match detail_string(&details, "channel") {
                Some(c) => c,
                None => owned("unknown"),
            };
            OddSocketsError::ChannelAccessDenied { channel, message }
        } else if str_eq(code, error_codes::MESSAGE_DELIVERY_FAILED) {
            let message_id = detail_string(&details, "messageId");
            let channel = detail_string(&details, "channel");
            OddSocketsError::MessageDeliveryFailed { message, message_id, channel }
        } else if str_eq(code, error_codes::INVALID_CONFIGURATION) {
            OddSocketsError::InvalidConfiguration { message }
        } else if str_eq(code, error_codes::WORKER_ASSIGNMENT_FAILED) {
            OddSocketsError::WorkerAssignmentFailed { message }
        } else if str_eq(code, error_codes::MAX_RECONNECT_ATTEMPTS_REACHED) {
            let attempts = match detail_u64(&details, "attempts") {
                Some(n) => n,
                None => 0,
            };
            OddSocketsError::MaxReconnectAttemptsReached { attempts: attempts as u32 }
        } else if str_eq(code, error_codes::OPERATION_TIMEOUT) {
            let operation = match detail_string(&details, "operation") {
                Some(o) => o,
                None => owned("unknown"),
            };
            let timeout_secs = match detail_u64(&details, "timeout") {
                Some(n) => n,
                None => 0,
            };
            OddSocketsError::OperationTimeout { operation, timeout_secs }
        } else if str_eq(code, error_codes::INVALID_CHANNEL_NAME) {
            let channel_name = match detail_string(&details, "channelName") {
                Some(c) => c,
                None => owned("unknown"),
            };
            OddSocketsError::InvalidChannelName { channel_name, message }
        } else if str_eq(code, error_codes::WEBSOCKET_ERROR) {
            let close_code = match detail_u64(&details, "closeCode") {
                Some(c) => Some(c as u16),
                None => None,
            };
            let close_reason = detail_string(&details, "closeReason");
            OddSocketsError::WebSocketError { message, close_code, close_reason }
        } else {
            OddSocketsError::Unknown { message }
        }
    }
}

/// Decoding the code of an error gives back an error with that code, for every
/// code that `error_codes` lists.
pub proof fn lemma_code_round_trip(e: OddSocketsError, message: String, r: OddSocketsError, details: Option<Seq<(Seq<char>, Json)>>)
    requires
        is_known_code(code_of(e)),
        decodes_to(code_of(e), message, details, r),
    ensures
        code_of(r) == code_of(e),
{
}


/// The kinds of WebSocket transport failure that the error mapping tells apart.
#[derive(Debug, Clone, PartialEq)]
pub enum WebSocketFailure {
    /// The connection closed normally.
    ConnectionClosed,
    /// The connection was used after it had closed.
    AlreadyClosed,
    /// A protocol violation, with its description.
    Protocol(String),
    /// A UTF-8 coding error.
    Utf8,
    /// Any other transport failure.
    Other,
}

impl OddSocketsError {
    /// The error for a WebSocket transport failure of kind `kind`, whose
    /// rendering is `message`: closes and protocol faults carry a close code
    /// and reason.
    pub fn from_websocket_failure(kind: WebSocketFailure, message: String) -> (r: OddSocketsError)
        ensures
            r matches OddSocketsError::WebSocketError { message: m, close_code, close_reason }
                && m == message
                && match kind {
                    WebSocketFailure::ConnectionClosed => close_code == Some(1000u16)
                        && opt_text(close_reason) == Some("Connection closed"@),
                    WebSocketFailure::AlreadyClosed => close_code == Some(1001u16)
                        && opt_text(close_reason) == Some("Already closed"@),
                    WebSocketFailure::Protocol(detail) => close_code == Some(1002u16)
                        && close_reason == Some(detail),
                    WebSocketFailure::Utf8 => close_code == Some(1003u16)
                        && opt_text(close_reason) == Some("UTF-8 error"@),
                    WebSocketFailure::Other => close_code is None && close_reason is None,
                },
    {
        let (close_code, close_reason) = match kind {
            WebSocketFailure::ConnectionClosed => (Some(1000u16), Some(owned("Connection closed"))),
            WebSocketFailure::AlreadyClosed => (Some(1001u16), Some(owned("Already closed"))),
            WebSocketFailure::Protocol(detail) => (Some(1002u16), Some(detail)),
            WebSocketFailure::Utf8 => (Some(1003u16), Some(owned("UTF-8 error"))),
            WebSocketFailure::Other => (None, None),
        };
        OddSocketsError::WebSocketError { message, close_code, close_reason }
    }

    /// The error for a manager or worker URL that does not parse; `detail`
    /// is the parser's description.
    pub fn from_url_failure(detail: &str) -> (r: OddSocketsError)
        ensures
            r matches OddSocketsError::InvalidConfiguration { message } && message@ == "Invalid URL: "@
                + detail@,
    {
        OddSocketsError::InvalidConfiguration { message: owned("Invalid URL: ").concat(detail) }
    }
}

/// Mapping of a failed result's error text onto an SDK error.
pub trait OddSocketsResultExt<T>: Sized {
    /// Maps an error to `Unknown`, prefixed with `context`.
    fn with_context(self, context: &str) -> Result<T>;

    /// Maps an error to a connection failure.
    fn as_connection_error(self) -> Result<T>;

    /// Maps an error to a message delivery failure.
    fn as_delivery_error(self, channel: Option<String>, message_id: Option<String>) -> Result<T>;
}

impl<T> OddSocketsResultExt<T> for core::result::Result<T, String> {
    fn with_context(self, context: &str) -> (r: Result<T>)
        ensures
            match self {
                Ok(v) => r == Ok::<T, OddSocketsError>(v),
                Err(e) => r matches Err(OddSocketsError::Unknown { message }) && message@
                    == context@ + ": "@ + e@,
            },
    {
        match self {
            Ok(v) => Ok(v),
            Err(e) => Err(
                OddSocketsError::Unknown {
                    message: owned(context).concat(": ").concat(e.as_str()),
                },
            ),
        }
    }

    fn as_connection_error(self) -> (r: Result<T>)
        ensures
            match self {
                Ok(v) => r == Ok::<T, OddSocketsError>(v),
                Err(e) => r == Err::<T, OddSocketsError>(
                    OddSocketsError::ConnectionFailed { message: e },
                ),
            },
    {
        match self {
            Ok(v) => Ok(v),
            Err(e) => Err(OddSocketsError::ConnectionFailed { message: e }),
        }
    }

    fn as_delivery_error(self, channel: Option<String>, message_id: Option<String>) -> (r: Result<
        T,
    >)
        ensures
            match self {
                Ok(v) => r == Ok::<T, OddSocketsError>(v),
                Err(e) => r == Err::<T, OddSocketsError>(
                    OddSocketsError::MessageDeliveryFailed { message: e, message_id, channel },
                ),
            },
    {
        match self {
            Ok(v) => Ok(v),
            Err(e) => Err(OddSocketsError::MessageDeliveryFailed { message: e, channel, message_id }),
        }
    }
}

} // verus!
