use vstd::prelude::*;

use crate::board::PlayerPosition;
use crate::game_events::{OpenSession, SessionErrorReceived, SessionUpdateReceived};

verus! {

/// Change of the connection to the server.
#[derive(Clone, Copy, Debug, PartialEq, Eq, Structural)]
pub enum ConnectionEvent {
    Connected,
    Disconnected,
}

/// The client's connection flag after a status report of the health watcher; `None` stands for
/// a report that could not be received, which counts as not serving. An event is sent when the
/// flag changes.
pub fn connection_status_update(connected: bool, update: Option<bool>) -> (r: (
    bool,
    Option<ConnectionEvent>,
))
    ensures
        r.0 == (update == Some(true)),
        r.1 == if connected && !r.0 {
            Some(ConnectionEvent::Disconnected)
        } else if !connected && r.0 {
            Some(ConnectionEvent::Connected)
        } else {
            None
        },
{
    let updated_status = match update {
        Some(status) => status,
        None => false,
    };
    let event = if connected && !updated_status {
        Some(ConnectionEvent::Disconnected)
    } else if !connected && updated_status {
        Some(ConnectionEvent::Connected)
    } else {
        None
    };
    (updated_status, event)
}

/// When the task of a game session is finished the session is closed; an active game opens its
/// session again after a delay.
pub fn session_finished(session: u64, active: bool) -> (r: Option<OpenSession>)
    ensures
        r == if active {
            Some(OpenSession { game: session, delayed: true })
        } else {
            None
        },
{
    if active {
        Some(OpenSession::new_delayed(session))
    } else {
        None
    }
}

/// How a game session starts opening.
#[derive(Clone, Copy, Debug, PartialEq, Eq, Structural)]
pub enum SessionOpening {
    /// Wait for the reconnect timer before connecting.
    Reconnect,
    /// Connect at once.
    Connect,
}

/// A delayed [`OpenSession`] waits for the reconnect timer; another connects at once.
pub fn session_opening(event: &OpenSession) -> (r: SessionOpening)
    ensures
        r == if event.delayed {
            SessionOpening::Reconnect
        } else {
            SessionOpening::Connect
        },
{
    if event.delayed {
        SessionOpening::Reconnect
    } else {
        SessionOpening::Connect
    }
}

/// An action can be handed to a game session only when the game has a session and no other
/// send is in flight; otherwise [`SessionActionSendFailed`] is sent.
pub fn can_send_action(has_session: bool, send_in_flight: bool) -> (r: bool)
    ensures
        r == (has_session && !send_in_flight),
{
    has_session && !send_in_flight
}

/// Event for what a receive task of a game session got.
#[derive(Clone, Debug, PartialEq, Eq)]
pub enum SessionReceiveEvent<T, E> {
    Update(SessionUpdateReceived<T>),
    Error(SessionErrorReceived<E>),
}

/// What a receive task of a game session got: `None` when the update channel was closed,
/// else the update (the player and its action) or the error that the server sent. A closed
/// channel sends no event.
pub fn session_receive_event<T, E>(
    session: u64,
    received: Option<Result<(PlayerPosition, T), E>>,
) -> (r: Option<SessionReceiveEvent<T, E>>)
    ensures
        r == match received {
            Some(Ok((player, action))) => Some(
                SessionReceiveEvent::Update(
                    SessionUpdateReceived { session_entity: session, player, action },
                ),
            ),
            Some(Err(error)) => Some(
                SessionReceiveEvent::Error(SessionErrorReceived { session_entity: session, error }),
            ),
            None => None,
        },
{
    match received {
        Some(Ok((player, action))) => Some(
            SessionReceiveEvent::Update(SessionUpdateReceived::new(session, player, action)),
        ),
        Some(Err(error)) => Some(
            SessionReceiveEvent::Error(SessionErrorReceived::new(session, error)),
        ),
        None => None,
    }
}

/// Where the watcher of the server's health service stands.
#[derive(Clone, Copy, Debug, PartialEq, Eq, Structural)]
pub enum WatcherState {
    /// A watch request was sent and its answer is awaited.
    Requesting,
    /// The watch stream is open and its next report is awaited.
    Streaming,
    /// The watcher waits for the retry interval before it asks again.
    Waiting,
    /// The server has no health service: the watcher is finished.
    Stopped,
}

/// What the health service answered, or that the retry interval passed.
#[derive(Clone, Copy, Debug, PartialEq, Eq, Structural)]
pub enum WatcherEvent {
    /// The watch request was answered with a stream.
    WatchAccepted,
    /// The watch request failed; `unimplemented` when the server has no health service.
    WatchRefused { unimplemented: bool },
    /// A report of the stream: whether the server is serving, `None` for a failed report.
    StatusReceived(Option<bool>),
    /// The stream ended.
    StreamEnded,
    /// The retry interval passed.
    RetryElapsed,
}

/// What the watcher does next.
#[derive(Clone, Copy, Debug, PartialEq, Eq, Structural)]
pub enum WatcherAction {
    /// Send a watch request.
    RequestWatch,
    /// Read the next report of the stream.
    ReadStream,
    /// Wait for the retry interval.
    WaitRetry,
    /// Finish the watcher.
    Stop,
    /// Nothing: the event does not belong to this state.
    Nothing,
}

/// One step of the connection watcher: its next state, the connection status it reports to
/// the client (if any), and what it does next.
pub open spec fn spec_watcher_step(state: WatcherState, event: WatcherEvent) -> (
    WatcherState,
    Option<bool>,
    WatcherAction,
) {
    match (state, event) {
        (WatcherState::Requesting, WatcherEvent::WatchAccepted) => (
            WatcherState::Streaming,
            None,
            WatcherAction::ReadStream,
        ),
        (WatcherState::Requesting, WatcherEvent::WatchRefused { unimplemented }) => if unimplemented {
            (WatcherState::Stopped, None, WatcherAction::Stop)
        } else {
            (WatcherState::Waiting, Some(false), WatcherAction::WaitRetry)
        },
        (WatcherState::Streaming, WatcherEvent::StatusReceived(report)) => (
            WatcherState::Streaming,
            Some(report == Some(true)),
            WatcherAction::ReadStream,
        ),
        (WatcherState::Streaming, WatcherEvent::StreamEnded) => (
            WatcherState::Waiting,
            None,
            WatcherAction::WaitRetry,
        ),
        (WatcherState::Waiting, WatcherEvent::RetryElapsed) => (
            WatcherState::Requesting,
            None,
            WatcherAction::RequestWatch,
        ),
        _ => (state, None, WatcherAction::Nothing),
    }
}

/// The connection watcher: it asks the health service to watch the server; each report of the
/// stream is sent to the client (serving or not, a failed report counting as not serving); a
/// failed request reports "not serving" and is retried after an interval, as is an ended
/// stream; a server without health service finishes the watcher.
pub fn watcher_step(state: WatcherState, event: WatcherEvent) -> (r: (
    WatcherState,
    Option<bool>,
    WatcherAction,
))
    ensures
        r == spec_watcher_step(state, event),
{
    match (state, event) {
        (WatcherState::Requesting, WatcherEvent::WatchAccepted) => (
            WatcherState::Streaming,
            None,
            WatcherAction::ReadStream,
        ),
        (WatcherState::Requesting, WatcherEvent::WatchRefused { unimplemented }) => {
            if unimplemented {
                (WatcherState::Stopped, None, WatcherAction::Stop)
            } else {
                (WatcherState::Waiting, Some(false), WatcherAction::WaitRetry)
            }
        },
        (WatcherState::Streaming, WatcherEvent::StatusReceived(report)) => {
            let serving = match report {
                Some(s) => s,
                None => false,
            };
            (WatcherState::Streaming, Some(serving), WatcherAction::ReadStream)
        },
        (WatcherState::Streaming, WatcherEvent::StreamEnded) => (
            WatcherState::Waiting,
            None,
            WatcherAction::WaitRetry,
        ),
        (WatcherState::Waiting, WatcherEvent::RetryElapsed) => (
            WatcherState::Requesting,
            None,
            WatcherAction::RequestWatch,
        ),
        _ => (state, None, WatcherAction::Nothing),
    }
}

/// A stopped watcher stays stopped and reports nothing, whatever happens.
pub proof fn law_watcher_stops_for_good(event: WatcherEvent)
    ensures
        spec_watcher_step(WatcherState::Stopped, event) == (
            WatcherState::Stopped,
            None::<bool>,
            WatcherAction::Nothing,
        ),
{
}

/// Only a server without health service finishes the watcher: no other step leads a running
/// watcher to the stopped state.
pub proof fn law_watcher_stops_only_without_health_service(
    state: WatcherState,
    event: WatcherEvent,
)
    requires
        state != WatcherState::Stopped,
        spec_watcher_step(state, event).0 == WatcherState::Stopped,
    ensures
        state == WatcherState::Requesting,
        event == (WatcherEvent::WatchRefused { unimplemented: true }),
{
}

/// When the stream of reports ends, or a watch request fails for another reason, the watcher
/// waits for the retry interval and then asks the health service again.
pub proof fn law_watcher_retries(unimplemented: bool)
    ensures
        ({
            let (s1, _, a1) = spec_watcher_step(WatcherState::Streaming, WatcherEvent::StreamEnded);
            &&& s1 == WatcherState::Waiting
            &&& a1 == WatcherAction::WaitRetry
            &&& spec_watcher_step(s1, WatcherEvent::RetryElapsed) == (
                WatcherState::Requesting,
                None::<bool>,
                WatcherAction::RequestWatch,
            )
        }),
        !unimplemented ==> ({
            let (s1, report, a1) = spec_watcher_step(
                WatcherState::Requesting,
                WatcherEvent::WatchRefused { unimplemented },
            );
            &&& s1 == WatcherState::Waiting
            &&& report == Some(false)
            &&& a1 == WatcherAction::WaitRetry
        }),
{
}

/// Every report read from the stream reaches the client: serving exactly when the report says
/// so, a failed report counting as not serving; the watcher goes on reading.
pub proof fn law_watcher_passes_reports_on(report: Option<bool>)
    ensures
        spec_watcher_step(WatcherState::Streaming, WatcherEvent::StatusReceived(report)) == (
            WatcherState::Streaming,
            Some(report == Some(true)),
            WatcherAction::ReadStream,
        ),
{
}

} // verus!
