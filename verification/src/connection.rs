//! The client handle, and the builder that the bootstrap fills in stage by
//! stage.
//!
//! The builder holds what each stage has produced. A stage checks that what
//! it depends on is there, takes the outcome of the driver's I/O as plain
//! values, and records what follows from it.

use vstd::prelude::*;
use vstd::string::StringExecFns;
use crate::error::{ClientFault, FoundryClientError};
use crate::payload::{Payload, PayloadValue};
use crate::roster::{identity_from_reply, resolve_from_reply};
use crate::rpc::{
    CallAction,
    CallActionView,
    CallModel,
    PendingCall,
    RpcCall,
    CLIENT_CALL_TIMEOUT_MS,
};
use crate::session::{
    join_endpoint,
    join_url,
    login_form_for,
    session_from_cookies,
    session_in,
    Cookie,
    CookieView,
    LoginForm,
    LoginRequest,
    LoginRequestView,
};
use crate::transport::{
    plan_of,
    ConnectPlan,
    ConnectPlanView,
    Connection,
    ConnectionState,
    TransportAction,
    TransportEvent,
};

verus! {

/// What the bootstrap has got so far.
#[derive(Debug, PartialEq, Eq)]
pub struct FoundryClientBuilder {
    /// The connection opened last, if any.
    pub socket: Option<Connection>,
    /// Whether the HTTP context, with its cookie store, exists.
    pub http_client: bool,
    /// The current session.
    pub session_id: Option<String>,
    /// The identity resolved for the session.
    pub user_id: Option<String>,
    /// How many connections have been opened.
    pub opened: u64,
}

/// The mathematical value of a [`FoundryClientBuilder`].
pub struct BuilderView {
    pub socket: Option<Connection>,
    pub http_client: bool,
    pub session_id: Option<Seq<char>>,
    pub user_id: Option<Seq<char>>,
    pub opened: u64,
}

impl View for FoundryClientBuilder {
    type V = BuilderView;

    open spec fn view(&self) -> BuilderView {
        BuilderView {
            socket: self.socket,
            http_client: self.http_client,
            session_id: self.session_id.deep_view(),
            user_id: self.user_id.deep_view(),
            opened: self.opened,
        }
    }
}

/// The finished client: the open, authenticated connection, the session, and
/// the identity logged in as.
#[derive(Debug, PartialEq, Eq)]
pub struct FoundryClient {
    pub socket: Connection,
    pub session_id: String,
    pub user_id: String,
}

/// The mathematical value of a [`FoundryClient`].
pub struct ClientView {
    pub socket: Connection,
    pub session_id: Seq<char>,
    pub user_id: Seq<char>,
}

impl View for FoundryClient {
    type V = ClientView;

    open spec fn view(&self) -> ClientView {
        ClientView { socket: self.socket, session_id: self.session_id@, user_id: self.user_id@ }
    }
}

/// The fault of a stage that was run before what it depends on.
pub open spec fn failed_init(what: Seq<char>) -> ClientFault {
    ClientFault::FailedInit(what)
}

/// What a stage says that lacks the HTTP context.
pub open spec fn needs_http() -> Seq<char> {
    "http_client must be initialized first"@
}

/// What a stage says that lacks the session.
pub open spec fn needs_session() -> Seq<char> {
    "Need to acquire a session before establishing a socket"@
}

/// What a stage says that lacks an open connection.
pub open spec fn needs_socket() -> Seq<char> {
    "Must initialize socket before acquiring user id"@
}

/// What a stage says that cannot number one more connection.
pub open spec fn out_of_ids() -> Seq<char> {
    "No connection id is left"@
}

/// What a builder without a connection says when it is finalised.
pub open spec fn missing_socket() -> Seq<char> {
    "Missing socket - be sure to establish_socket"@
}

/// What a builder without an HTTP context says when it is finalised.
pub open spec fn missing_http() -> Seq<char> {
    "Missing http client - be sure to build_client"@
}

/// What a builder without a session says when it is finalised.
pub open spec fn missing_session() -> Seq<char> {
    "Missing session id - be sure to establish_session"@
}

/// What a builder without an identity says when it is finalised.
pub open spec fn missing_user() -> Seq<char> {
    "Missing user id - be sure to acquire_user_id"@
}

impl BuilderView {
    /// A builder that holds nothing yet.
    pub open spec fn empty() -> BuilderView {
        BuilderView { socket: None, http_client: false, session_id: None, user_id: None, opened: 0 }
    }

    /// No connection is held without a session, and none is counted that was
    /// not opened.
    pub open spec fn well_formed(self) -> bool {
        &&& self.socket is Some ==> self.session_id is Some
        &&& self.socket matches Some(connection) ==> 1 <= connection.id <= self.opened
    }

    /// The builder once the HTTP context exists.
    pub open spec fn build_client(self) -> BuilderView {
        BuilderView { http_client: true, ..self }
    }

    /// The builder once the join endpoint has answered with `cookies`.
    pub open spec fn establish_session(self, cookies: Seq<CookieView>) -> Result<
        BuilderView,
        ClientFault,
    > {
        if !self.http_client {
            Err(failed_init(needs_http()))
        } else {
            match session_in(cookies) {
                Some(token) => Ok(BuilderView { session_id: Some(token), ..self }),
                None => Err(ClientFault::SessionError),
            }
        }
    }

    /// How the next connection is to be opened.
    pub open spec fn establish_socket(self, host: Seq<char>) -> Result<
        ConnectPlanView,
        ClientFault,
    > {
        match self.session_id {
            None => Err(failed_init(needs_session())),
            Some(session) => plan_of(host, session),
        }
    }

    /// The builder once the connection planned last has been opened: it
    /// holds that connection, a new instance, and no other.
    pub open spec fn adopt_socket(self) -> Result<BuilderView, ClientFault> {
        if self.session_id is None {
            Err(failed_init(needs_session()))
        } else if self.opened == u64::MAX {
            Err(failed_init(out_of_ids()))
        } else {
            Ok(
                BuilderView {
                    socket: Some(
                        Connection { id: (self.opened + 1) as u64, state: ConnectionState::Open },
                    ),
                    opened: (self.opened + 1) as u64,
                    ..self
                },
            )
        }
    }

    /// The builder once the connection it held has been closed.
    pub open spec fn release_socket(self) -> BuilderView {
        BuilderView { socket: None, ..self }
    }

    /// The builder once the roster request was answered with `reply`.
    pub open spec fn acquire_user_id(self, username: Seq<char>, reply: Option<PayloadValue>)
        -> Result<BuilderView, ClientFault> {
        if !(self.socket matches Some(connection) && connection.state.accepts_calls()) {
            Err(failed_init(needs_socket()))
        } else {
            match identity_from_reply(reply, username) {
                Ok(id) => Ok(BuilderView { user_id: Some(id), ..self }),
                Err(fault) => Err(fault),
            }
        }
    }

    /// The login request for the identity resolved, if there is an HTTP
    /// context to send it with.
    pub open spec fn login(self, host: Seq<char>, password: Seq<char>) -> Option<
        LoginRequestView,
    > {
        if self.http_client {
            Some(
                LoginRequestView {
                    url: join_endpoint(host),
                    form: login_form_for(self.user_id, password),
                },
            )
        } else {
            None
        }
    }

    /// Whether every part of a client is there.
    pub open spec fn complete(self) -> bool {
        &&& self.socket is Some
        &&& self.http_client
        &&& self.session_id is Some
        &&& self.user_id is Some
    }

    /// The client that a complete builder makes.
    pub open spec fn build(self) -> ClientView {
        ClientView {
            socket: self.socket->Some_0,
            session_id: self.session_id->Some_0,
            user_id: self.user_id->Some_0,
        }
    }

    /// The client that the builder makes, or what it still lacks: the first
    /// of connection, HTTP context, session and identity that is missing.
    pub open spec fn try_build(self) -> Result<ClientView, ClientFault> {
        if self.socket is None {
            Err(failed_init(missing_socket()))
        } else if !self.http_client {
            Err(failed_init(missing_http()))
        } else if self.session_id is None {
            Err(failed_init(missing_session()))
        } else if self.user_id is None {
            Err(failed_init(missing_user()))
        } else {
            Ok(self.build())
        }
    }
}

/// No stage takes a well-formed builder to one that is not: whatever a stage
/// records, a connection is held only together with a session, and is one of
/// those counted as opened.
pub proof fn law_builder_stays_well_formed(
    builder: BuilderView,
    cookies: Seq<CookieView>,
    username: Seq<char>,
    reply: Option<PayloadValue>,
)
    requires
        builder.well_formed(),
    ensures
        BuilderView::empty().well_formed(),
        builder.build_client().well_formed(),
        builder.establish_session(cookies) matches Ok(next) ==> next.well_formed(),
        builder.adopt_socket() matches Ok(next) ==> next.well_formed(),
        builder.release_socket().well_formed(),
        builder.acquire_user_id(username, reply) matches Ok(next) ==> next.well_formed(),
{
}

fn init_fault(what: &str) -> (fault: FoundryClientError)
    ensures
        fault@ == failed_init(what@),
{
    FoundryClientError::FailedInit(String::from_str(what))
}

impl Default for FoundryClientBuilder {
    fn default() -> (builder: FoundryClientBuilder)
        ensures
            builder@ == BuilderView::empty(),
    {
        FoundryClientBuilder {
            socket: None,
            http_client: false,
            session_id: None,
            user_id: None,
            opened: 0,
        }
    }
}

impl FoundryClientBuilder {
    /// Records that the HTTP context has been built.
    pub fn build_client(self) -> (builder: FoundryClientBuilder)
        ensures
            builder@ == self@.build_client(),
    {
        FoundryClientBuilder {
            socket: self.socket,
            http_client: true,
            session_id: self.session_id,
            user_id: self.user_id,
            opened: self.opened,
        }
    }

    /// Takes the session out of the cookies that the join endpoint set.
    ///
    /// Fails with `FailedInit` where no HTTP context exists yet, and with
    /// `SessionError` where no cookie carries a session.
    pub fn establish_session(self, cookies: &Vec<Cookie>) -> (builder: Result<
        FoundryClientBuilder,
        FoundryClientError,
    >)
        ensures
            match builder {
                Ok(builder) => self@.establish_session(cookies.deep_view()) == Ok::<
                    BuilderView,
                    ClientFault,
                >(builder@),
                Err(fault) => self@.establish_session(cookies.deep_view()) == Err::<
                    BuilderView,
                    ClientFault,
                >(fault@),
            },
    {
        if !self.http_client {
            return Err(init_fault("http_client must be initialized first"));
        }
        match session_from_cookies(cookies) {
            Ok(token) => Ok(
                FoundryClientBuilder {
                    socket: self.socket,
                    http_client: self.http_client,
                    session_id: Some(token),
                    user_id: self.user_id,
                    opened: self.opened,
                },
            ),
            Err(fault) => Err(fault),
        }
    }

    /// Plans the connection to the server at `host` under the session held.
    ///
    /// Fails with `FailedInit` where no session is held, and with
    /// `URLError` where `host` is no usable base URL.
    pub fn establish_socket(&self, host: &str) -> (plan: Result<ConnectPlan, FoundryClientError>)
        ensures
            match plan {
                Ok(plan) => self@.establish_socket(host@) == Ok::<ConnectPlanView, ClientFault>(
                    plan@,
                ),
                Err(fault) => self@.establish_socket(host@) == Err::<
                    ConnectPlanView,
                    ClientFault,
                >(fault@),
            },
    {
        match &self.session_id {
            None => Err(init_fault("Need to acquire a session before establishing a socket")),
            Some(session) => ConnectPlan::new(host, session.as_str()),
        }
    }

    /// Records that the connection planned last has been opened.
    ///
    /// Fails with `FailedInit` where no session is held, or where no id is
    /// left to tell the connection from the earlier ones.
    pub fn adopt_socket(self) -> (builder: Result<FoundryClientBuilder, FoundryClientError>)
        ensures
            match builder {
                Ok(builder) => self@.adopt_socket() == Ok::<BuilderView, ClientFault>(builder@),
                Err(fault) => self@.adopt_socket() == Err::<BuilderView, ClientFault>(fault@),
            },
    {
        if self.session_id.is_none() {
            return Err(init_fault("Need to acquire a session before establishing a socket"));
        }
        if self.opened == u64::MAX {
            return Err(init_fault("No connection id is left"));
        }
        Ok(
            FoundryClientBuilder {
                socket: Some(Connection { id: self.opened + 1, state: ConnectionState::Open }),
                http_client: self.http_client,
                session_id: self.session_id,
                user_id: self.user_id,
                opened: self.opened + 1,
            },
        )
    }

    /// Records that the connection held has been closed.
    pub fn release_socket(self) -> (builder: FoundryClientBuilder)
        ensures
            builder@ == self@.release_socket(),
    {
        FoundryClientBuilder {
            socket: None,
            http_client: self.http_client,
            session_id: self.session_id,
            user_id: self.user_id,
            opened: self.opened,
        }
    }

    /// Resolves `username` against the reply to the roster request.
    ///
    /// Fails with `FailedInit` where no open connection is held; with
    /// `TimeoutError` where there was no reply; with `MalformedData` where
    /// the reply is no enveloped roster; and with `NoUserError` where the
    /// roster has no entry of that display name.
    pub fn acquire_user_id(self, username: &str, reply: &Option<Payload>) -> (builder: Result<
        FoundryClientBuilder,
        FoundryClientError,
    >)
        ensures
            match builder {
                Ok(builder) => self@.acquire_user_id(username@, reply.deep_view()) == Ok::<
                    BuilderView,
                    ClientFault,
                >(builder@),
                Err(fault) => self@.acquire_user_id(username@, reply.deep_view()) == Err::<
                    BuilderView,
                    ClientFault,
                >(fault@),
            },
    {
        let ready = match self.socket {
            Some(connection) => connection.state.is_open(),
            None => false,
        };
        if !ready {
            return Err(init_fault("Must initialize socket before acquiring user id"));
        }
        match resolve_from_reply(reply, username) {
            Ok(id) => Ok(
                FoundryClientBuilder {
                    socket: self.socket,
                    http_client: self.http_client,
                    session_id: self.session_id,
                    user_id: Some(id),
                    opened: self.opened,
                },
            ),
            Err(fault) => Err(fault),
        }
    }

    /// The login request for the identity resolved: a post to the join
    /// endpoint of the server at `host`. There is none to make where no HTTP
    /// context exists.
    pub fn login(&self, host: &str, password: &str) -> (request: Option<LoginRequest>)
        ensures
            request.deep_view() == self@.login(host@, password@),
    {
        if self.http_client {
            let userid = match &self.user_id {
                Some(id) => Some(id.clone()),
                None => None,
            };
            Some(LoginRequest { url: join_url(host), form: LoginForm::new(userid, password) })
        } else {
            None
        }
    }

    /// Finalises a builder that holds every part of a client.
    pub fn build(self) -> (client: FoundryClient)
        requires
            self@.complete(),
        ensures
            client@ == self@.build(),
    {
        FoundryClient {
            socket: self.socket.unwrap(),
            session_id: self.session_id.unwrap(),
            user_id: self.user_id.unwrap(),
        }
    }

    /// Finalises the builder, or says with `FailedInit` which part of a
    /// client it still lacks.
    pub fn try_build(self) -> (client: Result<FoundryClient, FoundryClientError>)
        ensures
            match client {
                Ok(client) => self@.try_build() == Ok::<ClientView, ClientFault>(client@),
                Err(fault) => self@.try_build() == Err::<ClientView, ClientFault>(fault@),
            },
    {
        if self.socket.is_none() {
            Err(init_fault("Missing socket - be sure to establish_socket"))
        } else if !self.http_client {
            Err(init_fault("Missing http client - be sure to build_client"))
        } else if self.session_id.is_none() {
            Err(init_fault("Missing session id - be sure to establish_session"))
        } else if self.user_id.is_none() {
            Err(init_fault("Missing user id - be sure to acquire_user_id"))
        } else {
            Ok(self.build())
        }
    }
}

impl FoundryClient {
    /// Starts a call of `event` with `payload` and a timeout of `timeout_ms`
    /// milliseconds.
    ///
    /// Fails at once with `SocketError` unless the connection is open;
    /// otherwise the call comes with a fresh, empty slot of its own.
    pub fn call(&self, event: &str, payload: Payload, timeout_ms: u64) -> (call: Result<
        (RpcCall, PendingCall, CallAction),
        FoundryClientError,
    >)
        ensures
            match call {
                Ok((call, pending, action)) => {
                    &&& CallModel::begin(self@.socket.state, event@, payload@, timeout_ms) == Ok::<
                        (CallModel, CallActionView),
                        ClientFault,
                    >((call@, action@))
                    &&& call@.well_formed()
                    &&& pending@ is None
                },
                Err(fault) => CallModel::begin(self@.socket.state, event@, payload@, timeout_ms)
                    == Err::<(CallModel, CallActionView), ClientFault>(fault@),
            },
    {
        RpcCall::begin(self.socket.state, event, payload, timeout_ms)
    }

    /// Starts a call of `event` with `payload` and the timeout of operational
    /// calls, [`CLIENT_CALL_TIMEOUT_MS`].
    ///
    /// Fails at once with `SocketError` unless the connection is open;
    /// otherwise the call comes with a fresh, empty slot of its own.
    pub fn emit(&self, event: &str, payload: Payload) -> (call: Result<
        (RpcCall, PendingCall, CallAction),
        FoundryClientError,
    >)
        ensures
            match call {
                Ok((call, pending, action)) => {
                    &&& CallModel::begin(
                        self@.socket.state,
                        event@,
                        payload@,
                        CLIENT_CALL_TIMEOUT_MS,
                    ) == Ok::<(CallModel, CallActionView), ClientFault>((call@, action@))
                    &&& call@.well_formed()
                    &&& pending@ is None
                },
                Err(fault) => CallModel::begin(
                    self@.socket.state,
                    event@,
                    payload@,
                    CLIENT_CALL_TIMEOUT_MS,
                ) == Err::<(CallModel, CallActionView), ClientFault>(fault@),
            },
    {
        self.call(event, payload, CLIENT_CALL_TIMEOUT_MS)
    }

    /// Records what happened to the client's connection. Session and
    /// identity stay as they are, and so does the connection's instance.
    pub fn on_transport_event(&mut self, event: TransportEvent) -> (action: TransportAction)
        ensures
            final(self)@.socket.state == old(self)@.socket.state.next(event),
            final(self)@.socket.id == old(self)@.socket.id,
            final(self)@.session_id == old(self)@.session_id,
            final(self)@.user_id == old(self)@.user_id,
            action == old(self)@.socket.state.reaction(event),
    {
        let (state, action) = self.socket.state.on_event(event);
        self.socket = Connection { id: self.socket.id, state };
        action
    }
}

} // verus!
