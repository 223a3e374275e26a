//! The client's connection life cycle as a state machine, the choice of the
//! client's identity, the worker assignment exchange and the outcome of
//! bulk publishing.
use vstd::prelude::*;
use vstd::string::*;
use crate::error::{OddSocketsError, Result, display_of, opt_text};
use crate::json::{Json, JsonValue};
use crate::protocol::{build_ws_url, ws_base, ENGINE_IO_PATH};
use crate::text::{owned, concat2, decimal, decimal_text, trimmed_end};
use crate::types::ConnectionState;
use crate::types::duration::Duration;
use crate::types::records::{BulkResult, PublishResult};
use crate::types::utils::{generate_user_id, is_prefixed_id};

verus! {

/// What happens during a connection attempt, or to an established connection.
#[derive(Debug, Clone, PartialEq)]
pub enum ConnectEvent {
    /// `connect()` was called.
    Requested,
    /// The manager assigned no worker.
    AssignmentFailed(OddSocketsError),
    /// The manager assigned the worker at this URL.
    WorkerAssigned(String),
    /// The WebSocket to the worker could not be opened; the transport's
    /// description of why.
    SocketFailed(String),
    /// The WebSocket to the worker is open.
    SocketOpened,
    /// The worker acknowledged the Socket.IO CONNECT.
    HandshakeAccepted,
    /// The handshake failed with this error.
    HandshakeFailed(OddSocketsError),
    /// The handshake did not complete in time.
    HandshakeTimedOut,
    /// `disconnect()` was called, or the socket closed.
    Closed,
}

/// What the client does next.
#[derive(Debug, PartialEq)]
pub enum ConnectAction {
    /// Ask the manager for a worker.
    RequestAssignment,
    /// Open a WebSocket to this URL.
    OpenSocket(String),
    /// Wait for the Socket.IO handshake.
    AwaitHandshake,
    /// `connect()` returns this.
    Finish(Result<()>),
    /// Nothing.
    Idle,
}

/// The error of a WebSocket to the worker that could not be opened.
pub open spec fn socket_failed_text(detail: Seq<char>) -> Seq<char> {
    "WebSocket connect to worker failed: "@ + detail
}

/// Whether `(next, action)` is the step taken in `state` on `event`.
pub open spec fn step_of(state: ConnectionState, event: ConnectEvent, next: ConnectionState, action: ConnectAction) -> bool {
    match event {
        ConnectEvent::Requested => if state == ConnectionState::Connected || state == ConnectionState::Connecting {
            next == state && action == ConnectAction::Finish(Ok(()))
        } else {
            next == ConnectionState::Connecting && action == ConnectAction::RequestAssignment
        },
        ConnectEvent::AssignmentFailed(e) => next == ConnectionState::Disconnected && action
            == ConnectAction::Finish(Err(e)),
        ConnectEvent::WorkerAssigned(url) => match ws_base(url@) {
            Some(base) => next == state && (action matches ConnectAction::OpenSocket(ws) && ws@
                == trimmed_end(base, '/') + ENGINE_IO_PATH@),
            None => next == state && (action matches ConnectAction::Finish(Err(OddSocketsError::InvalidConfiguration { message }))
                && message@ == "Unsupported worker URL scheme: "@ + url@),
        },
        ConnectEvent::SocketFailed(detail) => next == ConnectionState::Disconnected && (action matches ConnectAction::Finish(Err(OddSocketsError::ConnectionFailed { message }))
            && message@ == socket_failed_text(detail@)),
        ConnectEvent::SocketOpened => next == state && action == ConnectAction::AwaitHandshake,
        ConnectEvent::HandshakeAccepted => next == ConnectionState::Connected && action
            == ConnectAction::Finish(Ok(())),
        ConnectEvent::HandshakeFailed(e) => next == ConnectionState::Disconnected && action
            == ConnectAction::Finish(Err(e)),
        ConnectEvent::HandshakeTimedOut => next == ConnectionState::Disconnected && (action matches ConnectAction::Finish(Err(OddSocketsError::ConnectionFailed { message }))
            && message@ == "Timed out waiting for Socket.IO handshake"@),
        ConnectEvent::Closed => next == ConnectionState::Disconnected && action == ConnectAction::Idle,
    }
}

/// The next state and action of the connection on `event`.
pub fn connect_step(state: ConnectionState, event: ConnectEvent) -> (r: (ConnectionState, ConnectAction))
    ensures
        step_of(state, event, r.0, r.1),
{
    match event {
        ConnectEvent::Requested => {
            if state.is_connected() || state == ConnectionState::Connecting {
                (state, ConnectAction::Finish(Ok(())))
            } else {
                (ConnectionState::Connecting, ConnectAction::RequestAssignment)
            }
        },
        ConnectEvent::AssignmentFailed(e) => (ConnectionState::Disconnected, ConnectAction::Finish(Err(e))),
        ConnectEvent::WorkerAssigned(url) => match build_ws_url(url.as_str()) {
            Ok(ws) => (state, ConnectAction::OpenSocket(ws)),
            Err(e) => (state, ConnectAction::Finish(Err(e))),
        },
        ConnectEvent::SocketFailed(detail) => (
            ConnectionState::Disconnected,
            ConnectAction::Finish(
                Err(
                    OddSocketsError::ConnectionFailed {
                        message: concat2("WebSocket connect to worker failed: ", detail.as_str()),
                    },
                ),
            ),
        ),
        ConnectEvent::SocketOpened => (state, ConnectAction::AwaitHandshake),
        ConnectEvent::HandshakeAccepted => (ConnectionState::Connected, ConnectAction::Finish(Ok(()))),
        ConnectEvent::HandshakeFailed(e) => (ConnectionState::Disconnected, ConnectAction::Finish(Err(e))),
        ConnectEvent::HandshakeTimedOut => (
            ConnectionState::Disconnected,
            ConnectAction::Finish(
                Err(
                    OddSocketsError::ConnectionFailed {
                        message: owned("Timed out waiting for Socket.IO handshake"),
                    },
                ),
            ),
        ),
        ConnectEvent::Closed => (ConnectionState::Disconnected, ConnectAction::Idle),
    }
}

/// Connecting twice is harmless: a connect request on a connected or
/// connecting client changes nothing and succeeds at once.
pub proof fn lemma_connect_idempotent(state: ConnectionState, next: ConnectionState, action: ConnectAction)
    requires
        state == ConnectionState::Connected || state == ConnectionState::Connecting,
        step_of(state, ConnectEvent::Requested, next, action),
    ensures
        next == state,
        action == ConnectAction::Finish(Ok(())),
{
}

/// The client becomes connected only when the worker accepts the handshake,
/// and every failure of a connection attempt but an unusable worker URL
/// leaves it disconnected with the attempt failed.
pub proof fn lemma_connected_only_by_handshake(state: ConnectionState, event: ConnectEvent, next: ConnectionState, action: ConnectAction)
    requires
        state != ConnectionState::Connected,
        step_of(state, event, next, action),
    ensures
        next == ConnectionState::Connected <==> event == ConnectEvent::HandshakeAccepted,
        (event is AssignmentFailed || event is SocketFailed || event is HandshakeFailed
            || event is HandshakeTimedOut) ==> next == ConnectionState::Disconnected && (action matches ConnectAction::Finish(Err(_))),
{
}

/// Closing always leaves the client disconnected.
pub proof fn lemma_close_disconnects(state: ConnectionState, next: ConnectionState, action: ConnectAction)
    requires
        step_of(state, ConnectEvent::Closed, next, action),
    ensures
        next == ConnectionState::Disconnected,
        next.is_disconnected_spec(),
{
}

impl ConnectionState {
    /// Whether the state counts as disconnected.
    pub open spec fn is_disconnected_spec(self) -> bool {
        self == ConnectionState::Disconnected || self == ConnectionState::Failed
    }
}

/// How long to wait for the Socket.IO handshake: the configured timeout,
/// but never less than 15 seconds.
pub fn handshake_timeout(timeout: Duration) -> (r: Duration)
    ensures
        if timeout.secs_of() >= 15 {
            r == timeout
        } else {
            r.secs_of() == 15 && r.nanos_of() == 0
        },
{
    if timeout.as_secs() >= 15 {
        timeout
    } else {
        Duration::from_secs(15)
    }
}

/// The identifier the client presents: the configured user ID, else a
/// generated `user_` ID.
pub fn client_identifier(user_id: &Option<String>) -> (r: String)
    ensures
        match user_id {
            Some(u) => r@ == u@,
            None => is_prefixed_id(r@, "user_"@),
        },
{
    match user_id {
        Some(u) => u.clone(),
        None => generate_user_id(),
    }
}

/// The user ID the client authenticates as: the configured one, else the
/// client's identifier.
pub fn effective_user_id(user_id: &Option<String>, identifier: &str) -> (r: String)
    ensures
        r@ == match user_id {
            Some(u) => u@,
            None => identifier@,
        },
{
    match user_id {
        Some(u) => u.clone(),
        None => owned(identifier),
    }
}

/// The manager endpoint that selects a worker.
pub fn select_worker_endpoint(manager_url: &str) -> (r: String)
    ensures
        r@ == manager_url@ + "/api/cluster/select-worker"@,
{
    concat2(manager_url, "/api/cluster/select-worker")
}

/// Whether an HTTP status is a success (2xx).
pub fn is_success_status(status: u16) -> (r: bool)
    ensures
        r == (200 <= status && status < 300),
{
    200 <= status && status < 300
}

/// The error for a manager that answered with a non-success status.
pub fn assignment_status_error(status: u16) -> (r: OddSocketsError)
    ensures
        r matches OddSocketsError::WorkerAssignmentFailed { message } && message@
            == "Manager returned HTTP "@ + decimal(status as nat),
{
    OddSocketsError::WorkerAssignmentFailed {
        message: concat2("Manager returned HTTP ", decimal_text(status as u64).as_str()),
    }
}

/// Reads a worker assignment: the worker's URL (required) and ID (optional).
pub fn read_worker_assignment(body: &JsonValue) -> (r: Result<(String, Option<String>)>)
    ensures
        match body@.field_text("url"@) {
            Some(url) => r matches Ok((u, id)) && u@ == url && opt_text(id) == body@.field_text(
                "workerId"@,
            ),
            None => r matches Err(OddSocketsError::WorkerAssignmentFailed { message }) && message@
                == "Invalid worker assignment response (no url)"@,
        },
{
    let url = match body.get("url") {
        Some(v) => v.as_str(),
        None => None,
    };
    match url {
        Some(u) => {
            let id = match body.get("workerId") {
                Some(v) => match v.as_str() {
                    Some(s) => Some(owned(s)),
                    None => None,
                },
                None => None,
            };
            Ok((owned(u), id))
        },
        None => Err(
            OddSocketsError::WorkerAssignmentFailed {
                message: owned("Invalid worker assignment response (no url)"),
            },
        ),
    }
}

/// Whether `b` records the outcome `o` of publishing one message of a batch.
pub open spec fn records_outcome(o: Result<PublishResult>, b: BulkResult) -> bool {
    match o {
        Ok(p) => b == BulkResult::success_spec(p),
        Err(e) => !b.success && b.result is None && opt_text(b.error) == Some(display_of(e)),
    }
}

impl BulkResult {
    /// The successful result recording `p`.
    pub open spec fn success_spec(p: PublishResult) -> BulkResult {
        BulkResult { success: true, result: Some(p), error: None }
    }
}

/// The bulk results of a batch of publish outcomes, one per outcome, in order.
pub fn collect_bulk_results(outcomes: Vec<Result<PublishResult>>) -> (r: Vec<BulkResult>)
    ensures
        r@.len() == outcomes@.len(),
        forall|i: int| 0 <= i < r@.len() ==> records_outcome(outcomes@[i], #[trigger] r@[i]),
{
    let mut out: Vec<BulkResult> = Vec::new();
    let ghost all = outcomes@;
    for o in it: outcomes.into_iter()
        invariant
            it.seq() == all,
            out@.len() == it.index(),
            forall|i: int| 0 <= i < out@.len() ==> records_outcome(all[i], #[trigger] out@[i]),
    {
        let b = match o {
            Ok(p) => BulkResult::success(p),
            Err(e) => BulkResult::failure(e.display_text().as_str()),
        };
        out.push(b);
    }
    out
}

} // verus!
