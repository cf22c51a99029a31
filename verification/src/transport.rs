//! The transport connector: how a connection is to be opened for a session,
//! and the life cycle of a connection under the reconnect policy.
//!
//! The connection itself is opened, read and closed by the driver. What is
//! decided here is what to open it with, and what each thing that happens to
//! it means for its state.

use vstd::prelude::*;
use vstd::string::StringExecFns;
use crate::endpoint::{endpoint_of, socket_url};
use crate::error::{ClientFault, FoundryClientError};
use crate::text::join2;

verus! {

/// The backoff before each reconnect attempt, in milliseconds: lower and
/// upper bound alike.
pub const RECONNECT_DELAY_MS: u64 = 500;

/// How many reconnect attempts follow one unexpected disconnect.
pub const MAX_RECONNECT_ATTEMPTS: u8 = 10;

/// How long a connection that was just opened is left to settle, in
/// milliseconds: the server joins it to its room without saying when.
pub const SETTLE_DELAY_MS: u64 = 2000;

/// The wire sub-transports that a connection may use.
#[derive(Debug, Clone, Copy, PartialEq, Eq, Structural)]
pub enum TransportKind {
    /// Whatever the two sides negotiate.
    Any,
    /// The persistent full-duplex one, without negotiation.
    Websocket,
    /// Polling first, then an upgrade.
    WebsocketUpgrade,
    Polling,
}

/// When and how often a connection is opened again.
#[derive(Debug, Clone, Copy, PartialEq, Eq, Structural)]
pub struct ReconnectPolicy {
    /// Reconnect after the transport fails.
    pub reconnect: bool,
    /// Reconnect after the server disconnects.
    pub reconnect_on_disconnect: bool,
    pub delay_min_ms: u64,
    pub delay_max_ms: u64,
    pub max_attempts: u8,
}

impl ReconnectPolicy {
    /// The policy of every connection: reconnect on any unexpected
    /// disconnect, after exactly [`RECONNECT_DELAY_MS`], at most
    /// [`MAX_RECONNECT_ATTEMPTS`] times.
    pub open spec fn standard_spec() -> ReconnectPolicy {
        ReconnectPolicy {
            reconnect: true,
            reconnect_on_disconnect: true,
            delay_min_ms: RECONNECT_DELAY_MS,
            delay_max_ms: RECONNECT_DELAY_MS,
            max_attempts: MAX_RECONNECT_ATTEMPTS,
        }
    }

    /// The policy of every connection.
    #[verifier::when_used_as_spec(standard_spec)]
    pub fn standard() -> (policy: ReconnectPolicy)
        ensures
            policy == Self::standard_spec(),
    {
        ReconnectPolicy {
            reconnect: true,
            reconnect_on_disconnect: true,
            delay_min_ms: RECONNECT_DELAY_MS,
            delay_max_ms: RECONNECT_DELAY_MS,
            max_attempts: MAX_RECONNECT_ATTEMPTS,
        }
    }
}

/// Everything the driver needs to open a connection.
#[derive(Debug, PartialEq, Eq)]
pub struct ConnectPlan {
    /// The endpoint, session included.
    pub url: String,
    /// The name of the header sent with the opening request.
    pub header_name: String,
    /// That header's value.
    pub header_value: String,
    pub transport: TransportKind,
    pub policy: ReconnectPolicy,
}

/// The mathematical value of a [`ConnectPlan`].
pub struct ConnectPlanView {
    pub url: Seq<char>,
    pub header_name: Seq<char>,
    pub header_value: Seq<char>,
    pub transport: TransportKind,
    pub policy: ReconnectPolicy,
}

impl View for ConnectPlan {
    type V = ConnectPlanView;

    open spec fn view(&self) -> ConnectPlanView {
        ConnectPlanView {
            url: self.url@,
            header_name: self.header_name@,
            header_value: self.header_value@,
            transport: self.transport,
            policy: self.policy,
        }
    }
}

/// The value of the cookie header that carries a session.
pub open spec fn cookie_of(session: Seq<char>) -> Seq<char> {
    "session="@ + session
}

/// The plan for an endpoint and a session: the session as a cookie header,
/// the persistent sub-transport alone, and the standard reconnect policy.
pub open spec fn plan_for(url: Seq<char>, session: Seq<char>) -> ConnectPlanView {
    ConnectPlanView {
        url: url,
        header_name: "Cookie"@,
        header_value: cookie_of(session),
        transport: TransportKind::Websocket,
        policy: ReconnectPolicy::standard(),
    }
}

/// The plan for a base URL and a session, or the fault of the base URL.
pub open spec fn plan_of(host: Seq<char>, session: Seq<char>) -> Result<
    ConnectPlanView,
    ClientFault,
> {
    match endpoint_of(host, session) {
        Ok(url) => Ok(plan_for(url, session)),
        Err(fault) => Err(fault),
    }
}

/// The value of the cookie header that carries `session`.
pub fn cookie_header(session: &str) -> (value: String)
    ensures
        value@ == cookie_of(session@),
{
    join2("session=", session)
}

impl ConnectPlan {
    /// The plan for opening a connection at `url` under `session`.
    pub fn for_endpoint(url: String, session: &str) -> (plan: ConnectPlan)
        ensures
            plan@ == plan_for(url@, session@),
    {
        ConnectPlan {
            url,
            header_name: String::from_str("Cookie"),
            header_value: cookie_header(session),
            transport: TransportKind::Websocket,
            policy: ReconnectPolicy::standard(),
        }
    }

    /// The plan for opening a connection to the server at `host` under
    /// `session`; the fault where `host` is no usable base URL.
    pub fn new(host: &str, session: &str) -> (plan: Result<ConnectPlan, FoundryClientError>)
        ensures
            match plan {
                Ok(plan) => plan_of(host@, session@) == Ok::<ConnectPlanView, ClientFault>(plan@),
                Err(fault) => plan_of(host@, session@) == Err::<ConnectPlanView, ClientFault>(
                    fault@,
                ),
            },
    {
        match socket_url(host, session) {
            Ok(url) => Ok(ConnectPlan::for_endpoint(url, session)),
            Err(fault) => Err(fault),
        }
    }
}

/// Where a connection stands in its life.
#[derive(Debug, Clone, Copy, PartialEq, Eq, Structural)]
pub enum ConnectionState {
    /// Not opened yet.
    Idle,
    /// The first opening is under way.
    Connecting,
    Open,
    /// Lost unexpectedly; `failed` reconnect attempts have failed so far, and
    /// the backoff before the next one runs.
    Disconnected { failed: u8 },
    /// Reconnect attempt number `attempt` is under way.
    Reconnecting { attempt: u8 },
    /// Closed for good: on request, or because opening or reconnecting failed.
    Closed,
}

/// What can happen to a connection.
#[derive(Debug, Clone, Copy, PartialEq, Eq, Structural)]
pub enum TransportEvent {
    /// The owner asks for the connection to be opened.
    ConnectRequested,
    /// The opening under way succeeded.
    Opened,
    /// The opening under way failed.
    OpenFailed,
    /// The open connection was lost, without a request to close it.
    Dropped,
    /// The backoff has run out.
    RetryDue,
    /// The owner asks for the connection to be closed.
    CloseRequested,
}

/// What the driver is to do after an event.
#[derive(Debug, Clone, Copy, PartialEq, Eq, Structural)]
pub enum TransportAction {
    Nothing,
    /// Open the transport, and report `Opened` or `OpenFailed`.
    OpenTransport,
    /// Report `RetryDue` after `delay_ms` milliseconds.
    ScheduleRetry { delay_ms: u64 },
    /// Tear the transport down.
    TearDown,
}

impl ConnectionState {
    /// The counters stay within the policy's bound.
    pub open spec fn well_formed(self) -> bool {
        match self {
            ConnectionState::Disconnected { failed } => failed < MAX_RECONNECT_ATTEMPTS,
            ConnectionState::Reconnecting { attempt } => 1 <= attempt <= MAX_RECONNECT_ATTEMPTS,
            _ => true,
        }
    }

    /// The state after `event`.
    pub open spec fn next(self, event: TransportEvent) -> ConnectionState {
        match (self, event) {
            (ConnectionState::Idle, TransportEvent::ConnectRequested) => ConnectionState::Connecting,
            (ConnectionState::Idle, TransportEvent::CloseRequested) => ConnectionState::Closed,
            (ConnectionState::Connecting, TransportEvent::Opened) => ConnectionState::Open,
            (ConnectionState::Connecting, TransportEvent::OpenFailed) => ConnectionState::Closed,
            (ConnectionState::Connecting, TransportEvent::CloseRequested) => ConnectionState::Closed,
            (ConnectionState::Open, TransportEvent::Dropped) => ConnectionState::Disconnected {
                failed: 0,
            },
            (ConnectionState::Open, TransportEvent::CloseRequested) => ConnectionState::Closed,
            (ConnectionState::Disconnected { failed }, TransportEvent::RetryDue) => if failed
                < MAX_RECONNECT_ATTEMPTS {
                ConnectionState::Reconnecting { attempt: (failed + 1) as u8 }
            } else {
                ConnectionState::Closed
            },
            (ConnectionState::Disconnected { .. }, TransportEvent::CloseRequested) =>
                ConnectionState::Closed,
            (ConnectionState::Reconnecting { .. }, TransportEvent::Opened) => ConnectionState::Open,
            (ConnectionState::Reconnecting { attempt }, TransportEvent::OpenFailed) => if attempt
                < MAX_RECONNECT_ATTEMPTS {
                ConnectionState::Disconnected { failed: attempt }
            } else {
                ConnectionState::Closed
            },
            (ConnectionState::Reconnecting { .. }, TransportEvent::CloseRequested) =>
                ConnectionState::Closed,
            (state, _) => state,
        }
    }

    /// What the driver is to do after `event`.
    pub open spec fn reaction(self, event: TransportEvent) -> TransportAction {
        match (self, event) {
            (ConnectionState::Idle, TransportEvent::ConnectRequested) => TransportAction::OpenTransport,
            (ConnectionState::Connecting, TransportEvent::CloseRequested) => TransportAction::TearDown,
            (ConnectionState::Open, TransportEvent::Dropped) => TransportAction::ScheduleRetry {
                delay_ms: RECONNECT_DELAY_MS,
            },
            (ConnectionState::Open, TransportEvent::CloseRequested) => TransportAction::TearDown,
            (ConnectionState::Disconnected { failed }, TransportEvent::RetryDue) => if failed
                < MAX_RECONNECT_ATTEMPTS {
                TransportAction::OpenTransport
            } else {
                TransportAction::Nothing
            },
            (ConnectionState::Disconnected { .. }, TransportEvent::CloseRequested) =>
                TransportAction::TearDown,
            (ConnectionState::Reconnecting { attempt }, TransportEvent::OpenFailed) => if attempt
                < MAX_RECONNECT_ATTEMPTS {
                TransportAction::ScheduleRetry { delay_ms: RECONNECT_DELAY_MS }
            } else {
                TransportAction::Nothing
            },
            (ConnectionState::Reconnecting { .. }, TransportEvent::CloseRequested) =>
                TransportAction::TearDown,
            (_, _) => TransportAction::Nothing,
        }
    }

    /// Whether events can be emitted on a connection in this state.
    pub open spec fn accepts_calls(self) -> bool {
        self is Open
    }

    /// Whether events can be emitted on a connection in this state.
    #[verifier::when_used_as_spec(accepts_calls)]
    pub fn is_open(self) -> (open: bool)
        ensures
            open == self.accepts_calls(),
    {
        match self {
            ConnectionState::Open => true,
            _ => false,
        }
    }

    /// Takes one event: the state after it, and what the driver is to do.
    pub fn on_event(self, event: TransportEvent) -> (outcome: (ConnectionState, TransportAction))
        ensures
            outcome.0 == self.next(event),
            outcome.1 == self.reaction(event),
            self.well_formed() ==> outcome.0.well_formed(),
    {
        match (self, event) {
            (ConnectionState::Idle, TransportEvent::ConnectRequested) => (
                ConnectionState::Connecting,
                TransportAction::OpenTransport,
            ),
            (ConnectionState::Idle, TransportEvent::CloseRequested) => (
                ConnectionState::Closed,
                TransportAction::Nothing,
            ),
            (ConnectionState::Connecting, TransportEvent::Opened) => (
                ConnectionState::Open,
                TransportAction::Nothing,
            ),
            (ConnectionState::Connecting, TransportEvent::OpenFailed) => (
                ConnectionState::Closed,
                TransportAction::Nothing,
            ),
            (ConnectionState::Open, TransportEvent::Dropped) => (
                ConnectionState::Disconnected { failed: 0 },
                TransportAction::ScheduleRetry { delay_ms: RECONNECT_DELAY_MS },
            ),
            (ConnectionState::Disconnected { failed }, TransportEvent::RetryDue) => {
                if failed < MAX_RECONNECT_ATTEMPTS {
                    (
                        ConnectionState::Reconnecting { attempt: failed + 1 },
                        TransportAction::OpenTransport,
                    )
                } else {
                    (ConnectionState::Closed, TransportAction::Nothing)
                }
            },
            (ConnectionState::Reconnecting { .. }, TransportEvent::Opened) => (
                ConnectionState::Open,
                TransportAction::Nothing,
            ),
            (ConnectionState::Reconnecting { attempt }, TransportEvent::OpenFailed) => {
                if attempt < MAX_RECONNECT_ATTEMPTS {
                    (
                        ConnectionState::Disconnected { failed: attempt },
                        TransportAction::ScheduleRetry { delay_ms: RECONNECT_DELAY_MS },
                    )
                } else {
                    (ConnectionState::Closed, TransportAction::Nothing)
                }
            },
            (ConnectionState::Connecting, TransportEvent::CloseRequested)
            | (ConnectionState::Open, TransportEvent::CloseRequested)
            | (ConnectionState::Disconnected { .. }, TransportEvent::CloseRequested)
            | (ConnectionState::Reconnecting { .. }, TransportEvent::CloseRequested) => (
                ConnectionState::Closed,
                TransportAction::TearDown,
            ),
            (state, _) => (state, TransportAction::Nothing),
        }
    }
}

/// One connection: which instance it is, and where it stands.
#[derive(Debug, Clone, Copy, PartialEq, Eq, Structural)]
pub struct Connection {
    /// Tells this instance from every other one opened in the same run.
    pub id: u64,
    pub state: ConnectionState,
}

/// The state that follows an unexpected loss of an open connection and then
/// `failures` reconnect attempts in a row that all fail.
pub open spec fn after_failures(failures: nat) -> ConnectionState
    decreases failures,
{
    if failures == 0 {
        ConnectionState::Open.next(TransportEvent::Dropped)
    } else {
        after_failures((failures - 1) as nat).next(TransportEvent::RetryDue).next(
            TransportEvent::OpenFailed,
        )
    }
}

/// Every transition keeps the counters within the policy's bound.
pub proof fn law_well_formed_is_kept(state: ConnectionState, event: TransportEvent)
    requires
        state.well_formed(),
    ensures
        state.next(event).well_formed(),
{
}

/// A forced disconnect takes an open connection to `Disconnected`, the end of
/// the backoff takes it on to `Reconnecting`, and a successful opening takes
/// it back to `Open`: after any number of failed attempts below the bound.
/// The attempt that then runs is numbered one more than those that failed,
/// and so is never beyond the bound.
pub proof fn law_reconnect_reopens(failures: nat)
    requires
        failures < MAX_RECONNECT_ATTEMPTS,
    ensures
        after_failures(failures) == (ConnectionState::Disconnected { failed: failures as u8 }),
        after_failures(failures).next(TransportEvent::RetryDue) == (ConnectionState::Reconnecting {
            attempt: (failures + 1) as u8,
        }),
        after_failures(failures).next(TransportEvent::RetryDue).next(TransportEvent::Opened)
            == ConnectionState::Open,
    decreases failures,
{
    if failures > 0 {
        law_reconnect_reopens((failures - 1) as nat);
    }
}

/// Once as many attempts have failed as the policy allows, the connection is
/// closed, and stays so however many more failures are reported.
pub proof fn law_reconnect_gives_up(failures: nat)
    requires
        failures >= MAX_RECONNECT_ATTEMPTS,
    ensures
        after_failures(failures) == ConnectionState::Closed,
    decreases failures,
{
    if failures == MAX_RECONNECT_ATTEMPTS {
        law_reconnect_reopens((failures - 1) as nat);
    } else {
        law_reconnect_gives_up((failures - 1) as nat);
    }
}

/// From an unexpected loss until an opening succeeds, the connection takes no
/// calls: not while it waits or reconnects, and not once it has given up.
pub proof fn law_no_calls_until_reopened(failures: nat)
    ensures
        !after_failures(failures).accepts_calls(),
        !after_failures(failures).next(TransportEvent::RetryDue).accepts_calls(),
{
    if failures < MAX_RECONNECT_ATTEMPTS {
        law_reconnect_reopens(failures);
    } else {
        law_reconnect_gives_up(failures);
    }
}

/// Every backoff is exactly [`RECONNECT_DELAY_MS`] long, and one is scheduled
/// only after an unexpected loss or a failed reconnect attempt.
pub proof fn law_backoff_is_fixed(state: ConnectionState, event: TransportEvent)
    ensures
        state.reaction(event) matches TransportAction::ScheduleRetry { delay_ms } ==> {
            &&& delay_ms == RECONNECT_DELAY_MS
            &&& state.next(event) is Disconnected
            &&& event is Dropped || event is OpenFailed
        },
{
}

/// A request to close closes the connection whatever its state, and never
/// leads to a reconnect.
pub proof fn law_close_is_final(state: ConnectionState, later: TransportEvent)
    ensures
        state.next(TransportEvent::CloseRequested) == ConnectionState::Closed,
        !(state.reaction(TransportEvent::CloseRequested) is ScheduleRetry),
        !(state.reaction(TransportEvent::CloseRequested) is OpenTransport),
        ConnectionState::Closed.next(later) == ConnectionState::Closed,
        ConnectionState::Closed.reaction(later) == TransportAction::Nothing,
        !ConnectionState::Closed.accepts_calls(),
{
}

} // verus!
