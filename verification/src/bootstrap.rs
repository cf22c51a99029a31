//! The bootstrap pipeline: the strictly ordered sequence of stages that ends
//! in one client handle.
//!
//! The pipeline is a state machine. The driver reports what its I/O came to;
//! the pipeline records it and says what is to be done next. Any failure
//! aborts the whole run with one tagged error: a run is never resumed, only
//! started again.

use vstd::prelude::*;
use vstd::string::StringExecFns;
use crate::connection::{
    failed_init,
    missing_socket,
    needs_http,
    BuilderView,
    ClientView,
    FoundryClient,
    FoundryClientBuilder,
};
use crate::error::{ClientFault, FoundryClientError};
use crate::payload::{Payload, PayloadValue};
use crate::roster::{identity_from_reply, roster_event};
use crate::rpc::BOOTSTRAP_CALL_TIMEOUT_MS;
use crate::session::{
    is_success,
    join_endpoint,
    join_url,
    login_verdict,
    session_in,
    Cookie,
    CookieView,
    LoginRequest,
    LoginRequestView,
};
use crate::transport::{
    cookie_of,
    plan_of,
    ConnectPlan,
    ConnectPlanView,
    Connection,
    ConnectionState,
    SETTLE_DELAY_MS,
};

verus! {

/// The stages of a bootstrap, in the order in which they are passed.
#[derive(Debug, Clone, Copy, PartialEq, Eq, Structural)]
pub enum Stage {
    Start,
    /// The HTTP context is being built.
    BuildingHttp,
    /// The join endpoint is being asked for a session.
    AcquiringSession,
    /// The first connection is being opened, under the bare session.
    ConnectingPreAuth,
    /// The first connection is left to settle.
    SettlingPreAuth,
    /// The roster is being asked for over the first connection.
    FetchingRoster,
    /// The login is being posted.
    SubmittingLogin,
    /// The first connection is being closed.
    ClosingPreAuth,
    /// The second connection is being opened, under the session that is now
    /// logged in.
    ConnectingPostAuth,
    /// The second connection is left to settle.
    SettlingPostAuth,
    /// The client has been handed over.
    Done,
    /// The run was aborted.
    Failed,
}

/// One run of the bootstrap.
#[derive(Debug, PartialEq, Eq)]
pub struct Bootstrap {
    /// The server's base URL.
    pub host: String,
    /// The display name to log in as.
    pub username: String,
    pub password: String,
    pub stage: Stage,
    pub builder: FoundryClientBuilder,
    /// The id of the first connection, once it has been opened.
    pub pre_auth: Option<u64>,
}

/// The mathematical value of a [`Bootstrap`].
pub struct BootstrapView {
    pub host: Seq<char>,
    pub username: Seq<char>,
    pub password: Seq<char>,
    pub stage: Stage,
    pub builder: BuilderView,
    pub pre_auth: Option<u64>,
}

impl View for Bootstrap {
    type V = BootstrapView;

    open spec fn view(&self) -> BootstrapView {
        BootstrapView {
            host: self.host@,
            username: self.username@,
            password: self.password@,
            stage: self.stage,
            builder: self.builder@,
            pre_auth: self.pre_auth,
        }
    }
}

/// What the driver reports to the pipeline.
#[derive(Debug, PartialEq, Eq)]
pub enum BootEvent {
    /// The run is to start.
    Begin,
    /// The HTTP context has been built.
    HttpReady,
    /// The join endpoint answered the request for a session, setting these
    /// cookies.
    JoinAnswered(Vec<Cookie>),
    /// The join endpoint could not be reached for a session; carries the
    /// reason.
    JoinUnreachable(String),
    /// The connection planned last is open.
    SocketOpened,
    /// The connection planned last could not be opened; carries the reason.
    SocketFailed(String),
    /// The settle delay has passed.
    Settled,
    /// The call made last returned: an acknowledgement, or nothing after its
    /// timeout.
    CallReturned(Option<Payload>),
    /// The call made last failed on the transport; carries the reason.
    CallFailed(String),
    /// The login was answered with this status.
    LoginAnswered(u16),
    /// The join endpoint could not be reached for the login; carries the
    /// reason.
    LoginUnreachable(String),
    /// The connection to be closed is closed.
    SocketClosed,
}

/// The mathematical value of a [`BootEvent`].
pub enum BootEventView {
    Begin,
    HttpReady,
    JoinAnswered(Seq<CookieView>),
    JoinUnreachable(Seq<char>),
    SocketOpened,
    SocketFailed(Seq<char>),
    Settled,
    CallReturned(Option<PayloadValue>),
    CallFailed(Seq<char>),
    LoginAnswered(u16),
    LoginUnreachable(Seq<char>),
    SocketClosed,
}

impl View for BootEvent {
    type V = BootEventView;

    open spec fn view(&self) -> BootEventView {
        match self {
            BootEvent::Begin => BootEventView::Begin,
            BootEvent::HttpReady => BootEventView::HttpReady,
            BootEvent::JoinAnswered(cookies) => BootEventView::JoinAnswered(cookies.deep_view()),
            BootEvent::JoinUnreachable(why) => BootEventView::JoinUnreachable(why@),
            BootEvent::SocketOpened => BootEventView::SocketOpened,
            BootEvent::SocketFailed(why) => BootEventView::SocketFailed(why@),
            BootEvent::Settled => BootEventView::Settled,
            BootEvent::CallReturned(reply) => BootEventView::CallReturned(reply.deep_view()),
            BootEvent::CallFailed(why) => BootEventView::CallFailed(why@),
            BootEvent::LoginAnswered(status) => BootEventView::LoginAnswered(*status),
            BootEvent::LoginUnreachable(why) => BootEventView::LoginUnreachable(why@),
            BootEvent::SocketClosed => BootEventView::SocketClosed,
        }
    }
}

/// What the pipeline asks of the driver.
#[derive(Debug, PartialEq, Eq)]
pub enum BootAction {
    /// Build an HTTP context with a persistent cookie store, and report
    /// `HttpReady`.
    BuildHttp,
    /// Send a GET to `url`, and report `JoinAnswered` or `JoinUnreachable`.
    GetJoin { url: String },
    /// Open a connection as planned, and report `SocketOpened` or
    /// `SocketFailed`.
    OpenSocket(ConnectPlan),
    /// Report `Settled` after `delay_ms` milliseconds.
    Settle { delay_ms: u64 },
    /// Call `event` with `payload` on the open connection, with this
    /// timeout, and report `CallReturned` or `CallFailed`.
    Call { event: String, payload: Payload, timeout_ms: u64 },
    /// Post the login, and report `LoginAnswered` or `LoginUnreachable`.
    PostLogin(LoginRequest),
    /// Close the connection with this id, and report `SocketClosed`.
    CloseSocket { id: u64 },
    /// Hand this client to the caller: the run is done.
    Finish(FoundryClient),
    /// Fail with this error: the run is over.
    Abort(FoundryClientError),
    /// Nothing: the run was over already.
    Nothing,
}

/// The mathematical value of a [`BootAction`].
pub enum BootActionView {
    BuildHttp,
    GetJoin { url: Seq<char> },
    OpenSocket(ConnectPlanView),
    Settle { delay_ms: u64 },
    Call { event: Seq<char>, payload: PayloadValue, timeout_ms: u64 },
    PostLogin(LoginRequestView),
    CloseSocket { id: u64 },
    Finish(ClientView),
    Abort(ClientFault),
    Nothing,
}

impl View for BootAction {
    type V = BootActionView;

    open spec fn view(&self) -> BootActionView {
        match self {
            BootAction::BuildHttp => BootActionView::BuildHttp,
            BootAction::GetJoin { url } => BootActionView::GetJoin { url: url@ },
            BootAction::OpenSocket(plan) => BootActionView::OpenSocket(plan@),
            BootAction::Settle { delay_ms } => BootActionView::Settle { delay_ms: *delay_ms },
            BootAction::Call { event, payload, timeout_ms } => BootActionView::Call {
                event: event@,
                payload: payload@,
                timeout_ms: *timeout_ms,
            },
            BootAction::PostLogin(request) => BootActionView::PostLogin(request@),
            BootAction::CloseSocket { id } => BootActionView::CloseSocket { id: *id },
            BootAction::Finish(client) => BootActionView::Finish(client@),
            BootAction::Abort(fault) => BootActionView::Abort(fault@),
            BootAction::Nothing => BootActionView::Nothing,
        }
    }
}

/// The message of the fault that a report gives which the stage at hand does
/// not await.
pub open spec fn out_of_order() -> Seq<char> {
    "Reported out of order"@
}

impl BootstrapView {
    /// A run that has not started.
    pub open spec fn fresh(host: Seq<char>, username: Seq<char>, password: Seq<char>)
        -> BootstrapView {
        BootstrapView {
            host: host,
            username: username,
            password: password,
            stage: Stage::Start,
            builder: BuilderView::empty(),
            pre_auth: None,
        }
    }

    /// The run aborted with `fault`: it holds nothing any more.
    pub open spec fn abort(self, fault: ClientFault) -> (BootstrapView, BootActionView) {
        (
            BootstrapView { stage: Stage::Failed, builder: BuilderView::empty(), ..self },
            BootActionView::Abort(fault),
        )
    }

    /// The run at `stage`, about to open a connection under the session
    /// that `builder` holds, or aborted where none can be planned.
    pub open spec fn connect(self, builder: BuilderView, stage: Stage) -> (
        BootstrapView,
        BootActionView,
    ) {
        match builder.establish_socket(self.host) {
            Err(fault) => self.abort(fault),
            Ok(plan) => (
                BootstrapView { stage: stage, builder: builder, ..self },
                BootActionView::OpenSocket(plan),
            ),
        }
    }

    /// The run once the connection planned last is open, left to settle at
    /// `stage`.
    pub open spec fn settle(self, stage: Stage) -> (BootstrapView, BootActionView) {
        match self.builder.adopt_socket() {
            Err(fault) => self.abort(fault),
            Ok(builder) => (
                BootstrapView {
                    stage: stage,
                    builder: builder,
                    pre_auth: if self.pre_auth is None {
                        Some(builder.socket->Some_0.id)
                    } else {
                        self.pre_auth
                    },
                    ..self
                },
                BootActionView::Settle { delay_ms: SETTLE_DELAY_MS },
            ),
        }
    }

    /// The run once the roster request has returned `reply`.
    pub open spec fn identify(self, reply: Option<PayloadValue>) -> (
        BootstrapView,
        BootActionView,
    ) {
        match self.builder.acquire_user_id(self.username, reply) {
            Err(fault) => self.abort(fault),
            Ok(builder) => match builder.login(self.host, self.password) {
                None => self.abort(failed_init(needs_http())),
                Some(request) => (
                    BootstrapView { stage: Stage::SubmittingLogin, builder: builder, ..self },
                    BootActionView::PostLogin(request),
                ),
            },
        }
    }

    /// The run once the login was answered with `status`.
    pub open spec fn logged_in(self, status: u16) -> (BootstrapView, BootActionView) {
        if !is_success(status) {
            self.abort(ClientFault::AuthError(status))
        } else {
            match self.builder.socket {
                None => self.abort(failed_init(missing_socket())),
                Some(connection) => (
                    BootstrapView { stage: Stage::ClosingPreAuth, ..self },
                    BootActionView::CloseSocket { id: connection.id },
                ),
            }
        }
    }

    /// The run once the second connection has settled.
    pub open spec fn finish(self) -> (BootstrapView, BootActionView) {
        match self.builder.try_build() {
            Err(fault) => self.abort(fault),
            Ok(client) => (
                BootstrapView { stage: Stage::Done, builder: BuilderView::empty(), ..self },
                BootActionView::Finish(client),
            ),
        }
    }

    /// The run after `event`, and what the driver is to do next.
    ///
    /// Each stage awaits the outcome of what it asked for. Any other report
    /// aborts the run, as does every failure; a run that is over stays as it
    /// is.
    pub open spec fn step(self, event: BootEventView) -> (BootstrapView, BootActionView) {
        match (self.stage, event) {
            (Stage::Done, _) | (Stage::Failed, _) => (self, BootActionView::Nothing),
            (Stage::Start, BootEventView::Begin) => (
                BootstrapView { stage: Stage::BuildingHttp, ..self },
                BootActionView::BuildHttp,
            ),
            (Stage::BuildingHttp, BootEventView::HttpReady) => (
                BootstrapView {
                    stage: Stage::AcquiringSession,
                    builder: self.builder.build_client(),
                    ..self
                },
                BootActionView::GetJoin { url: join_endpoint(self.host) },
            ),
            (Stage::AcquiringSession, BootEventView::JoinUnreachable(why)) => self.abort(
                ClientFault::JoinError(why),
            ),
            (Stage::AcquiringSession, BootEventView::JoinAnswered(cookies)) => {
                match self.builder.establish_session(cookies) {
                    Err(fault) => self.abort(fault),
                    Ok(builder) => self.connect(builder, Stage::ConnectingPreAuth),
                }
            },
            (Stage::ConnectingPreAuth, BootEventView::SocketFailed(why)) => self.abort(
                ClientFault::SocketError(why),
            ),
            (Stage::ConnectingPreAuth, BootEventView::SocketOpened) => self.settle(
                Stage::SettlingPreAuth,
            ),
            (Stage::SettlingPreAuth, BootEventView::Settled) => (
                BootstrapView { stage: Stage::FetchingRoster, ..self },
                BootActionView::Call {
                    event: roster_event(),
                    payload: PayloadValue::Text(Seq::empty()),
                    timeout_ms: BOOTSTRAP_CALL_TIMEOUT_MS,
                },
            ),
            (Stage::FetchingRoster, BootEventView::CallFailed(why)) => self.abort(
                ClientFault::SocketError(why),
            ),
            (Stage::FetchingRoster, BootEventView::CallReturned(reply)) => self.identify(reply),
            (Stage::SubmittingLogin, BootEventView::LoginUnreachable(why)) => self.abort(
                ClientFault::JoinError(why),
            ),
            (Stage::SubmittingLogin, BootEventView::LoginAnswered(status)) => self.logged_in(
                status,
            ),
            (Stage::ClosingPreAuth, BootEventView::SocketClosed) => self.connect(
                self.builder.release_socket(),
                Stage::ConnectingPostAuth,
            ),
            (Stage::ConnectingPostAuth, BootEventView::SocketFailed(why)) => self.abort(
                ClientFault::SocketError(why),
            ),
            (Stage::ConnectingPostAuth, BootEventView::SocketOpened) => self.settle(
                Stage::SettlingPostAuth,
            ),
            (Stage::SettlingPostAuth, BootEventView::Settled) => self.finish(),
            (_, _) => self.abort(failed_init(out_of_order())),
        }
    }

    /// What holds of every run at every stage: which parts the builder holds,
    /// and which connections have been opened.
    pub open spec fn well_formed(self) -> bool {
        let b = self.builder;
        &&& b.well_formed()
        &&& match self.stage {
            Stage::Start | Stage::BuildingHttp => b == BuilderView::empty() && self.pre_auth is None,
            Stage::AcquiringSession => b == BuilderView::empty().build_client() && self.pre_auth
                is None,
            Stage::ConnectingPreAuth => {
                &&& b.http_client
                &&& b.session_id is Some
                &&& b.socket is None
                &&& b.user_id is None
                &&& b.opened == 0
                &&& self.pre_auth is None
            },
            Stage::SettlingPreAuth | Stage::FetchingRoster => {
                &&& b.http_client
                &&& b.session_id is Some
                &&& b.socket == Some(Connection { id: 1, state: ConnectionState::Open })
                &&& b.user_id is None
                &&& b.opened == 1
                &&& self.pre_auth == Some(1u64)
            },
            Stage::SubmittingLogin | Stage::ClosingPreAuth => {
                &&& b.http_client
                &&& b.session_id is Some
                &&& b.socket == Some(Connection { id: 1, state: ConnectionState::Open })
                &&& b.user_id is Some
                &&& b.opened == 1
                &&& self.pre_auth == Some(1u64)
            },
            Stage::ConnectingPostAuth => {
                &&& b.http_client
                &&& b.session_id is Some
                &&& b.socket is None
                &&& b.user_id is Some
                &&& b.opened == 1
                &&& self.pre_auth == Some(1u64)
            },
            Stage::SettlingPostAuth => {
                &&& b.http_client
                &&& b.session_id is Some
                &&& b.socket == Some(Connection { id: 2, state: ConnectionState::Open })
                &&& b.user_id is Some
                &&& b.opened == 2
                &&& self.pre_auth == Some(1u64)
            },
            Stage::Done | Stage::Failed => b == BuilderView::empty(),
        }
    }
}

fn init_fault(what: &str) -> (fault: FoundryClientError)
    ensures
        fault@ == failed_init(what@),
{
    FoundryClientError::FailedInit(String::from_str(what))
}

impl Bootstrap {
    /// A run that logs `username` in at the server at `host`.
    pub fn new(host: &str, username: &str, password: &str) -> (run: Bootstrap)
        ensures
            run@ == BootstrapView::fresh(host@, username@, password@),
    {
        Bootstrap {
            host: String::from_str(host),
            username: String::from_str(username),
            password: String::from_str(password),
            stage: Stage::Start,
            builder: FoundryClientBuilder::default(),
            pre_auth: None,
        }
    }

    fn abort(self, fault: FoundryClientError) -> (outcome: (Bootstrap, BootAction))
        ensures
            (outcome.0@, outcome.1@) == self@.abort(fault@),
    {
        (
            Bootstrap {
                host: self.host,
                username: self.username,
                password: self.password,
                stage: Stage::Failed,
                builder: FoundryClientBuilder::default(),
                pre_auth: self.pre_auth,
            },
            BootAction::Abort(fault),
        )
    }

    fn connect(self, builder: FoundryClientBuilder, stage: Stage) -> (outcome: (
        Bootstrap,
        BootAction,
    ))
        ensures
            (outcome.0@, outcome.1@) == self@.connect(builder@, stage),
    {
        match builder.establish_socket(self.host.as_str()) {
            Err(fault) => self.abort(fault),
            Ok(plan) => (
                Bootstrap {
                    host: self.host,
                    username: self.username,
                    password: self.password,
                    stage,
                    builder,
                    pre_auth: self.pre_auth,
                },
                BootAction::OpenSocket(plan),
            ),
        }
    }

    fn settle(self, stage: Stage) -> (outcome: (Bootstrap, BootAction))
        ensures
            (outcome.0@, outcome.1@) == self@.settle(stage),
    {
        let Bootstrap { host, username, password, stage: at, builder, pre_auth } = self;
        match builder.adopt_socket() {
            Err(fault) => {
                let run = Bootstrap {
                    host,
                    username,
                    password,
                    stage: at,
                    builder: FoundryClientBuilder::default(),
                    pre_auth,
                };
                run.abort(fault)
            },
            Ok(builder) => {
                let first = match pre_auth {
                    Some(id) => Some(id),
                    None => match builder.socket {
                        Some(connection) => Some(connection.id),
                        None => None,
                    },
                };
                (
                    Bootstrap { host, username, password, stage, builder, pre_auth: first },
                    BootAction::Settle { delay_ms: SETTLE_DELAY_MS },
                )
            },
        }
    }

    fn identify(self, reply: Option<Payload>) -> (outcome: (Bootstrap, BootAction))
        ensures
            (outcome.0@, outcome.1@) == self@.identify(reply.deep_view()),
    {
        let Bootstrap { host, username, password, stage, builder, pre_auth } = self;
        match builder.acquire_user_id(username.as_str(), &reply) {
            Err(fault) => {
                let run = Bootstrap {
                    host,
                    username,
                    password,
                    stage,
                    builder: FoundryClientBuilder::default(),
                    pre_auth,
                };
                run.abort(fault)
            },
            Ok(builder) => match builder.login(host.as_str(), password.as_str()) {
                None => {
                    let run = Bootstrap { host, username, password, stage, builder, pre_auth };
                    run.abort(init_fault("http_client must be initialized first"))
                },
                Some(request) => (
                    Bootstrap {
                        host,
                        username,
                        password,
                        stage: Stage::SubmittingLogin,
                        builder,
                        pre_auth,
                    },
                    BootAction::PostLogin(request),
                ),
            },
        }
    }

    fn logged_in(self, status: u16) -> (outcome: (Bootstrap, BootAction))
        ensures
            (outcome.0@, outcome.1@) == self@.logged_in(status),
    {
        match login_verdict(status) {
            Err(fault) => self.abort(fault),
            Ok(_) => match self.builder.socket {
                None => self.abort(init_fault("Missing socket - be sure to establish_socket")),
                Some(connection) => (
                    Bootstrap {
                        host: self.host,
                        username: self.username,
                        password: self.password,
                        stage: Stage::ClosingPreAuth,
                        builder: self.builder,
                        pre_auth: self.pre_auth,
                    },
                    BootAction::CloseSocket { id: connection.id },
                ),
            },
        }
    }

    fn finish(self) -> (outcome: (Bootstrap, BootAction))
        ensures
            (outcome.0@, outcome.1@) == self@.finish(),
    {
        let Bootstrap { host, username, password, stage, builder, pre_auth } = self;
        let run = Bootstrap {
            host,
            username,
            password,
            stage,
            builder: FoundryClientBuilder::default(),
            pre_auth,
        };
        match builder.try_build() {
            Err(fault) => run.abort(fault),
            Ok(client) => (
                Bootstrap {
                    host: run.host,
                    username: run.username,
                    password: run.password,
                    stage: Stage::Done,
                    builder: run.builder,
                    pre_auth: run.pre_auth,
                },
                BootAction::Finish(client),
            ),
        }
    }

    /// Takes one report of the driver: the run after it, and what the driver
    /// is to do next.
    pub fn step(self, event: BootEvent) -> (outcome: (Bootstrap, BootAction))
        ensures
            (outcome.0@, outcome.1@) == self@.step(event@),
    {
        match self.stage {
            Stage::Done | Stage::Failed => (self, BootAction::Nothing),
            Stage::Start => match event {
                BootEvent::Begin => (
                    Bootstrap {
                        host: self.host,
                        username: self.username,
                        password: self.password,
                        stage: Stage::BuildingHttp,
                        builder: self.builder,
                        pre_auth: self.pre_auth,
                    },
                    BootAction::BuildHttp,
                ),
                _ => self.abort(init_fault("Reported out of order")),
            },
            Stage::BuildingHttp => match event {
                BootEvent::HttpReady => {
                    let url = join_url(self.host.as_str());
                    (
                        Bootstrap {
                            host: self.host,
                            username: self.username,
                            password: self.password,
                            stage: Stage::AcquiringSession,
                            builder: self.builder.build_client(),
                            pre_auth: self.pre_auth,
                        },
                        BootAction::GetJoin { url },
                    )
                },
                _ => self.abort(init_fault("Reported out of order")),
            },
            Stage::AcquiringSession => match event {
                BootEvent::JoinUnreachable(why) => self.abort(FoundryClientError::JoinError(why)),
                BootEvent::JoinAnswered(cookies) => {
                    let Bootstrap { host, username, password, stage, builder, pre_auth } = self;
                    let run = Bootstrap {
                        host,
                        username,
                        password,
                        stage,
                        builder: FoundryClientBuilder::default(),
                        pre_auth,
                    };
                    match builder.establish_session(&cookies) {
                        Err(fault) => run.abort(fault),
                        Ok(builder) => run.connect(builder, Stage::ConnectingPreAuth),
                    }
                },
                _ => self.abort(init_fault("Reported out of order")),
            },
            Stage::ConnectingPreAuth => match event {
                BootEvent::SocketFailed(why) => self.abort(FoundryClientError::SocketError(why)),
                BootEvent::SocketOpened => self.settle(Stage::SettlingPreAuth),
                _ => self.abort(init_fault("Reported out of order")),
            },
            Stage::SettlingPreAuth => match event {
                BootEvent::Settled => (
                    Bootstrap {
                        host: self.host,
                        username: self.username,
                        password: self.password,
                        stage: Stage::FetchingRoster,
                        builder: self.builder,
                        pre_auth: self.pre_auth,
                    },
                    BootAction::Call {
                        event: String::from_str("getJoinData"),
                        payload: Payload::empty(),
                        timeout_ms: BOOTSTRAP_CALL_TIMEOUT_MS,
                    },
                ),
                _ => self.abort(init_fault("Reported out of order")),
            },
            Stage::FetchingRoster => match event {
                BootEvent::CallFailed(why) => self.abort(FoundryClientError::SocketError(why)),
                BootEvent::CallReturned(reply) => self.identify(reply),
                _ => self.abort(init_fault("Reported out of order")),
            },
            Stage::SubmittingLogin => match event {
                BootEvent::LoginUnreachable(why) => self.abort(FoundryClientError::JoinError(why)),
                BootEvent::LoginAnswered(status) => self.logged_in(status),
                _ => self.abort(init_fault("Reported out of order")),
            },
            Stage::ClosingPreAuth => match event {
                BootEvent::SocketClosed => {
                    let Bootstrap { host, username, password, stage, builder, pre_auth } = self;
                    let run = Bootstrap {
                        host,
                        username,
                        password,
                        stage,
                        builder: FoundryClientBuilder::default(),
                        pre_auth,
                    };
                    run.connect(builder.release_socket(), Stage::ConnectingPostAuth)
                },
                _ => self.abort(init_fault("Reported out of order")),
            },
            Stage::ConnectingPostAuth => match event {
                BootEvent::SocketFailed(why) => self.abort(FoundryClientError::SocketError(why)),
                BootEvent::SocketOpened => self.settle(Stage::SettlingPostAuth),
                _ => self.abort(init_fault("Reported out of order")),
            },
            Stage::SettlingPostAuth => match event {
                BootEvent::Settled => self.finish(),
                _ => self.abort(init_fault("Reported out of order")),
            },
        }
    }

    /// Whether the run is over: done or aborted.
    pub fn is_over(&self) -> (over: bool)
        ensures
            over == (self@.stage is Done || self@.stage is Failed),
    {
        match self.stage {
            Stage::Done | Stage::Failed => true,
            _ => false,
        }
    }
}

/// The run after the driver has reported `events`, one after the other.
pub open spec fn run_after(start: BootstrapView, events: Seq<BootEventView>) -> BootstrapView
    decreases events.len(),
{
    if events.len() == 0 {
        start
    } else {
        run_after(start, events.drop_last()).step(events.last()).0
    }
}

/// No report takes a well-formed run to one that is not.
pub proof fn law_step_keeps_well_formed(run: BootstrapView, event: BootEventView)
    requires
        run.well_formed(),
    ensures
        run.step(event).0.well_formed(),
{
}

/// Whatever the driver reports, in whatever order, a run that began fresh is
/// well-formed at every point.
pub proof fn law_every_run_is_well_formed(
    host: Seq<char>,
    username: Seq<char>,
    password: Seq<char>,
    events: Seq<BootEventView>,
)
    ensures
        run_after(BootstrapView::fresh(host, username, password), events).well_formed(),
    decreases events.len(),
{
    if events.len() > 0 {
        law_every_run_is_well_formed(host, username, password, events.drop_last());
        law_step_keeps_well_formed(
            run_after(BootstrapView::fresh(host, username, password), events.drop_last()),
            events.last(),
        );
    }
}

/// The transport is never opened before a session has been acquired: the
/// driver is asked to open a connection only by a run that holds a session,
/// the plan is the one for the run's host under that session, and its cookie
/// header carries that session. Until a session is held, a well-formed run
/// holds no connection and has opened none.
pub proof fn law_transport_opens_under_session(run: BootstrapView, event: BootEventView)
    ensures
        run.step(event).1 matches BootActionView::OpenSocket(plan) ==> {
            &&& run.step(event).0.builder.session_id matches Some(session)
            &&& plan_of(run.host, session) == Ok::<ConnectPlanView, ClientFault>(plan)
            &&& plan.header_value == cookie_of(session)
        },
        run.well_formed() && run.builder.session_id is None ==> run.builder.socket is None
            && run.builder.opened == 0,
{
}

/// The client's connection is never the one that was opened before the
/// login: a well-formed run hands over a client whose connection is open, was
/// opened after the first one was closed, and is another instance than the
/// first; the client carries the session and the identity that the run
/// acquired.
pub proof fn law_client_connection_is_new(run: BootstrapView, event: BootEventView)
    requires
        run.well_formed(),
    ensures
        run.step(event).1 matches BootActionView::Finish(client) ==> {
            &&& run.stage is SettlingPostAuth
            &&& run.pre_auth matches Some(first)
            &&& client.socket.id != first
            &&& client.socket.state.accepts_calls()
            &&& run.builder.session_id == Some(client.session_id)
            &&& run.builder.user_id == Some(client.user_id)
        },
        run.step(event).1 matches BootActionView::CloseSocket { id } ==> run.pre_auth == Some(id)
            && run.stage is SubmittingLogin,
{
}

/// No call is made before the connection is open: the driver is asked to
/// call only while a well-formed run holds an open connection.
pub proof fn law_calls_need_open_connection(run: BootstrapView, event: BootEventView)
    requires
        run.well_formed(),
    ensures
        run.step(event).1 is Call ==> (run.step(event).0.builder.socket matches Some(connection)
            && connection.state.accepts_calls()),
{
}

/// No identity is resolved before a roster call has succeeded: a well-formed
/// run comes to hold an identity only on the return of the roster call, and
/// the identity is the one that the reply resolves the run's display name to.
pub proof fn law_identity_follows_roster(run: BootstrapView, event: BootEventView)
    requires
        run.well_formed(),
        run.builder.user_id is None,
        run.step(event).0.builder.user_id is Some,
    ensures
        run.stage is FetchingRoster,
        event matches BootEventView::CallReturned(reply) && identity_from_reply(
            reply,
            run.username,
        ) == Ok::<Seq<char>, ClientFault>(run.step(event).0.builder.user_id->Some_0),
{
}

/// A failure at any stage ends the whole run with one tagged error: the run
/// is aborted exactly when it passes to `Failed`, and once it is over, no
/// report changes it or asks anything more of the driver.
pub proof fn law_failure_ends_the_run(run: BootstrapView, event: BootEventView)
    ensures
        !(run.stage is Failed) ==> (run.step(event).1 is Abort <==> run.step(event).0.stage
            is Failed),
        run.stage is Failed || run.stage is Done ==> run.step(event) == (
            run,
            BootActionView::Nothing,
        ),
{
}

/// What the driver reports in a run in which everything succeeds: the join
/// endpoint sets `cookies`, both connections open, the roster call returns
/// `reply`, and the login is answered with `status`.
pub open spec fn successful_reports(
    cookies: Seq<CookieView>,
    reply: Option<PayloadValue>,
    status: u16,
) -> Seq<BootEventView> {
    seq![
        BootEventView::Begin,
        BootEventView::HttpReady,
        BootEventView::JoinAnswered(cookies),
        BootEventView::SocketOpened,
        BootEventView::Settled,
        BootEventView::CallReturned(reply),
        BootEventView::LoginAnswered(status),
        BootEventView::SocketClosed,
        BootEventView::SocketOpened,
    ]
}

/// A run in which everything succeeds ends in a client: where the join
/// endpoint sets a session cookie, the host is a usable base URL, the roster
/// resolves the display name and the login is accepted, the report that the
/// second connection has settled makes the run hand over a client that
/// carries that session and that identity on the second connection, and the
/// run is done.
pub proof fn law_successful_run_hands_over_the_client(
    host: Seq<char>,
    username: Seq<char>,
    password: Seq<char>,
    cookies: Seq<CookieView>,
    reply: Option<PayloadValue>,
    status: u16,
)
    requires
        session_in(cookies) is Some,
        plan_of(host, session_in(cookies)->Some_0) is Ok,
        identity_from_reply(reply, username) is Ok,
        is_success(status),
    ensures
        ({
            let settling = run_after(
                BootstrapView::fresh(host, username, password),
                successful_reports(cookies, reply, status),
            );
            let (done, action) = settling.step(BootEventView::Settled);
            &&& done.stage is Done
            &&& action == BootActionView::Finish(
                ClientView {
                    socket: Connection { id: 2, state: ConnectionState::Open },
                    session_id: session_in(cookies)->Some_0,
                    user_id: identity_from_reply(reply, username)->Ok_0,
                },
            )
        }),
{
    let start = BootstrapView::fresh(host, username, password);
    let reports = successful_reports(cookies, reply, status);
    let r1 = start.step(reports[0]).0;
    let r2 = r1.step(reports[1]).0;
    let r3 = r2.step(reports[2]).0;
    let r4 = r3.step(reports[3]).0;
    let r5 = r4.step(reports[4]).0;
    let r6 = r5.step(reports[5]).0;
    let r7 = r6.step(reports[6]).0;
    let r8 = r7.step(reports[7]).0;
    let r9 = r8.step(reports[8]).0;
    assert(run_after(start, reports.take(0)) == start);
    assert(run_after(start, reports.take(1)) == r1) by {
        assert(reports.take(1).drop_last() =~= reports.take(0));
    }
    assert(run_after(start, reports.take(2)) == r2) by {
        assert(reports.take(2).drop_last() =~= reports.take(1));
    }
    assert(run_after(start, reports.take(3)) == r3) by {
        assert(reports.take(3).drop_last() =~= reports.take(2));
    }
    assert(run_after(start, reports.take(4)) == r4) by {
        assert(reports.take(4).drop_last() =~= reports.take(3));
    }
    assert(run_after(start, reports.take(5)) == r5) by {
        assert(reports.take(5).drop_last() =~= reports.take(4));
    }
    assert(run_after(start, reports.take(6)) == r6) by {
        assert(reports.take(6).drop_last() =~= reports.take(5));
    }
    assert(run_after(start, reports.take(7)) == r7) by {
        assert(reports.take(7).drop_last() =~= reports.take(6));
    }
    assert(run_after(start, reports.take(8)) == r8) by {
        assert(reports.take(8).drop_last() =~= reports.take(7));
    }
    assert(run_after(start, reports) == r9) by {
        assert(reports.drop_last() =~= reports.take(8));
        assert(reports.take(9) =~= reports);
    }
    assert(r3.stage is ConnectingPreAuth);
    assert(r5.stage is FetchingRoster);
    assert(r6.stage is SubmittingLogin);
    assert(r8.stage is ConnectingPostAuth);
    assert(r9.stage is SettlingPostAuth);
}

} // verus!
