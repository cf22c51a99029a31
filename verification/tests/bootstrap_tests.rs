use foundry_client::bootstrap::{BootAction, BootEvent, Bootstrap, Stage};
use foundry_client::connection::{FoundryClient, FoundryClientBuilder};
use foundry_client::error::FoundryClientError;
use foundry_client::json::Json;
use foundry_client::payload::Payload;
use foundry_client::rpc::{CallAction, CallEvent, CallPhase};
use foundry_client::session::{Cookie, LoginForm, LoginRequest};
use foundry_client::transport::{
    Connection, ConnectionState, ReconnectPolicy, TransportAction, TransportEvent, TransportKind,
};

fn text(value: &str) -> Json {
    Json::Text(value.to_string())
}

fn object(members: Vec<(&str, Json)>) -> Json {
    Json::Object(members.into_iter().map(|(key, value)| (key.to_string(), value)).collect())
}

fn roster_reply(users: Vec<(&str, &str)>) -> Option<Payload> {
    let users = users
        .into_iter()
        .map(|(id, name)| object(vec![("id", text(id)), ("name", text(name))]))
        .collect();
    let document = object(vec![("users", Json::Array(users))]);
    Some(Payload::Text(vec![Json::Array(vec![document])]))
}

fn session_cookie(value: &str) -> Vec<Cookie> {
    vec![Cookie { name: "session".to_string(), value: value.to_string() }]
}

fn failed_init(what: &str) -> FoundryClientError {
    FoundryClientError::FailedInit(what.to_string())
}

/// Feeds the events in, and returns the run and the action after the last one.
fn drive(run: Bootstrap, events: Vec<BootEvent>) -> (Bootstrap, BootAction) {
    let mut run = run;
    let mut action = BootAction::Nothing;
    for event in events {
        let (next, asked) = run.step(event);
        run = next;
        action = asked;
    }
    (run, action)
}

fn up_to_roster() -> Vec<BootEvent> {
    vec![
        BootEvent::Begin,
        BootEvent::HttpReady,
        BootEvent::JoinAnswered(session_cookie("abc123")),
        BootEvent::SocketOpened,
        BootEvent::Settled,
    ]
}

fn up_to_login() -> Vec<BootEvent> {
    let mut events = up_to_roster();
    events.push(BootEvent::CallReturned(roster_reply(vec![("u1", "Voyeur")])));
    events
}

#[test]
fn bootstrap_end_to_end() {
    let run = Bootstrap::new("http://vtt.test", "Voyeur", "");
    assert_eq!(run.stage, Stage::Start);
    assert!(!run.is_over());

    let (run, action) = run.step(BootEvent::Begin);
    assert_eq!(action, BootAction::BuildHttp);

    let (run, action) = run.step(BootEvent::HttpReady);
    assert_eq!(action, BootAction::GetJoin { url: "http://vtt.test/join".to_string() });

    let (run, action) = run.step(BootEvent::JoinAnswered(session_cookie("abc123")));
    let first_plan = match action {
        BootAction::OpenSocket(plan) => plan,
        other => panic!("expected a connection to be opened, got {:?}", other),
    };
    assert_eq!(first_plan.url, "http://vtt.test/socket.io/?session=abc123");
    assert_eq!(first_plan.header_name, "Cookie");
    assert_eq!(first_plan.header_value, "session=abc123");
    assert_eq!(first_plan.transport, TransportKind::Websocket);
    assert_eq!(first_plan.policy, ReconnectPolicy::standard());

    let (run, action) = run.step(BootEvent::SocketOpened);
    assert_eq!(action, BootAction::Settle { delay_ms: 2000 });
    assert_eq!(run.pre_auth, Some(1));

    let (run, action) = run.step(BootEvent::Settled);
    assert_eq!(
        action,
        BootAction::Call {
            event: "getJoinData".to_string(),
            payload: Payload::Text(vec![]),
            timeout_ms: 2000,
        }
    );

    let (run, action) = run.step(BootEvent::CallReturned(roster_reply(vec![("u1", "Voyeur")])));
    assert_eq!(
        action,
        BootAction::PostLogin(LoginRequest {
            url: "http://vtt.test/join".to_string(),
            form: LoginForm {
                userid: Some("u1".to_string()),
                password: String::new(),
                action: "join".to_string(),
            },
        })
    );

    let (run, action) = run.step(BootEvent::LoginAnswered(200));
    assert_eq!(action, BootAction::CloseSocket { id: 1 });

    let (run, action) = run.step(BootEvent::SocketClosed);
    let second_plan = match action {
        BootAction::OpenSocket(plan) => plan,
        other => panic!("expected a connection to be opened, got {:?}", other),
    };
    assert_eq!(second_plan, first_plan);

    let (run, action) = run.step(BootEvent::SocketOpened);
    assert_eq!(action, BootAction::Settle { delay_ms: 2000 });

    let (run, action) = run.step(BootEvent::Settled);
    let client = match action {
        BootAction::Finish(client) => client,
        other => panic!("expected the client, got {:?}", other),
    };
    assert_eq!(client.user_id, "u1");
    assert_eq!(client.session_id, "abc123");
    assert_eq!(client.socket, Connection { id: 2, state: ConnectionState::Open });
    assert_eq!(run.stage, Stage::Done);
    assert!(run.is_over());
    assert_eq!(run.pre_auth, Some(1));
}

#[test]
fn transport_is_not_opened_before_the_session_is_acquired() {
    let mut run = Bootstrap::new("http://vtt.test", "Voyeur", "");
    for event in [BootEvent::Begin, BootEvent::HttpReady] {
        let (next, action) = run.step(event);
        assert!(!matches!(action, BootAction::OpenSocket(_)));
        assert_eq!(next.builder.session_id, None);
        assert_eq!(next.builder.socket, None);
        assert_eq!(next.builder.opened, 0);
        run = next;
    }
    let (run, action) = run.step(BootEvent::JoinAnswered(session_cookie("abc123")));
    assert!(matches!(action, BootAction::OpenSocket(_)));
    assert_eq!(run.builder.session_id, Some("abc123".to_string()));
    assert_eq!(run.builder.socket, None);
}

#[test]
fn socket_reported_open_before_the_session_aborts_the_run() {
    let (run, action) = drive(
        Bootstrap::new("http://vtt.test", "Voyeur", ""),
        vec![BootEvent::Begin, BootEvent::HttpReady, BootEvent::SocketOpened],
    );
    assert_eq!(action, BootAction::Abort(failed_init("Reported out of order")));
    assert_eq!(run.stage, Stage::Failed);
    assert_eq!(run.builder, FoundryClientBuilder::default());
}

#[test]
fn post_auth_connection_is_another_instance() {
    let mut events = up_to_login();
    events.push(BootEvent::LoginAnswered(204));
    let (run, action) = drive(Bootstrap::new("http://vtt.test", "Voyeur", "pw"), events);
    assert_eq!(action, BootAction::CloseSocket { id: 1 });
    assert_eq!(run.builder.socket, Some(Connection { id: 1, state: ConnectionState::Open }));
    let (run, _) = run.step(BootEvent::SocketClosed);
    assert_eq!(run.builder.socket, None);
    assert_eq!(run.stage, Stage::ConnectingPostAuth);
    let (run, _) = run.step(BootEvent::SocketOpened);
    assert_eq!(run.builder.socket, Some(Connection { id: 2, state: ConnectionState::Open }));
    assert_eq!(run.pre_auth, Some(1));
    let (_, action) = run.step(BootEvent::Settled);
    match action {
        BootAction::Finish(client) => assert_ne!(Some(client.socket.id), Some(1)),
        other => panic!("expected the client, got {:?}", other),
    }
}

#[test]
fn unreachable_join_endpoint_is_a_join_error() {
    let (run, action) = drive(
        Bootstrap::new("http://vtt.test", "Voyeur", ""),
        vec![
            BootEvent::Begin,
            BootEvent::HttpReady,
            BootEvent::JoinUnreachable("connection refused".to_string()),
        ],
    );
    assert_eq!(
        action,
        BootAction::Abort(FoundryClientError::JoinError("connection refused".to_string()))
    );
    assert_eq!(run.stage, Stage::Failed);
    assert!(run.is_over());
}

#[test]
fn join_answer_without_session_cookie_is_a_session_error() {
    let (run, action) = drive(
        Bootstrap::new("http://vtt.test", "Voyeur", ""),
        vec![BootEvent::Begin, BootEvent::HttpReady, BootEvent::JoinAnswered(vec![])],
    );
    assert_eq!(action, BootAction::Abort(FoundryClientError::SessionError));
    assert_eq!(run.stage, Stage::Failed);
}

#[test]
fn malformed_host_is_a_url_error() {
    let (run, action) = drive(
        Bootstrap::new("vtt.test", "Voyeur", ""),
        vec![
            BootEvent::Begin,
            BootEvent::HttpReady,
            BootEvent::JoinAnswered(session_cookie("abc123")),
        ],
    );
    assert_eq!(
        action,
        BootAction::Abort(FoundryClientError::URLError("relative URL without a base".to_string()))
    );
    assert_eq!(run.stage, Stage::Failed);
}

#[test]
fn connection_that_cannot_be_opened_is_a_socket_error() {
    let (run, action) = drive(
        Bootstrap::new("http://vtt.test", "Voyeur", ""),
        vec![
            BootEvent::Begin,
            BootEvent::HttpReady,
            BootEvent::JoinAnswered(session_cookie("abc123")),
            BootEvent::SocketFailed("handshake rejected".to_string()),
        ],
    );
    assert_eq!(
        action,
        BootAction::Abort(FoundryClientError::SocketError("handshake rejected".to_string()))
    );
    assert_eq!(run.stage, Stage::Failed);
}

#[test]
fn roster_call_that_fails_on_the_transport_is_a_socket_error() {
    let mut events = up_to_roster();
    events.push(BootEvent::CallFailed("connection is not open".to_string()));
    let (_, action) = drive(Bootstrap::new("http://vtt.test", "Voyeur", ""), events);
    assert_eq!(
        action,
        BootAction::Abort(FoundryClientError::SocketError("connection is not open".to_string()))
    );
}

#[test]
fn roster_call_without_reply_is_a_timeout_error() {
    let mut events = up_to_roster();
    events.push(BootEvent::CallReturned(None));
    let (run, action) = drive(Bootstrap::new("http://vtt.test", "Voyeur", ""), events);
    assert_eq!(
        action,
        BootAction::Abort(FoundryClientError::TimeoutError("getJoinData".to_string()))
    );
    assert_eq!(run.stage, Stage::Failed);
}

#[test]
fn roster_without_the_display_name_is_no_user() {
    let mut events = up_to_roster();
    events.push(BootEvent::CallReturned(roster_reply(vec![("a1", "Alice"), ("b2", "Bob")])));
    let (run, action) = drive(Bootstrap::new("http://vtt.test", "Carol", ""), events);
    assert_eq!(action, BootAction::Abort(FoundryClientError::NoUserError("Carol".to_string())));
    assert_eq!(run.stage, Stage::Failed);
}

#[test]
fn roster_reply_of_the_wrong_shape_is_malformed_data() {
    let mut events = up_to_roster();
    events.push(BootEvent::CallReturned(Some(Payload::String("hello".to_string()))));
    let (_, action) = drive(Bootstrap::new("http://vtt.test", "Voyeur", ""), events);
    assert_eq!(
        action,
        BootAction::Abort(FoundryClientError::MalformedData {
            path: "reply".to_string(),
            value: "string".to_string(),
        })
    );
}

#[test]
fn rejected_login_is_an_auth_error() {
    let mut events = up_to_login();
    events.push(BootEvent::LoginAnswered(401));
    let (run, action) = drive(Bootstrap::new("http://vtt.test", "Voyeur", "wrong"), events);
    assert_eq!(action, BootAction::Abort(FoundryClientError::AuthError(401)));
    assert_eq!(run.stage, Stage::Failed);
}

#[test]
fn unreachable_login_is_a_join_error() {
    let mut events = up_to_login();
    events.push(BootEvent::LoginUnreachable("timed out".to_string()));
    let (_, action) = drive(Bootstrap::new("http://vtt.test", "Voyeur", ""), events);
    assert_eq!(action, BootAction::Abort(FoundryClientError::JoinError("timed out".to_string())));
}

#[test]
fn post_auth_connection_that_cannot_be_opened_is_a_socket_error() {
    let mut events = up_to_login();
    events.push(BootEvent::LoginAnswered(200));
    events.push(BootEvent::SocketClosed);
    events.push(BootEvent::SocketFailed("refused".to_string()));
    let (run, action) = drive(Bootstrap::new("http://vtt.test", "Voyeur", ""), events);
    assert_eq!(
        action,
        BootAction::Abort(FoundryClientError::SocketError("refused".to_string()))
    );
    assert_eq!(run.stage, Stage::Failed);
}

#[test]
fn run_that_is_over_ignores_reports() {
    let (run, _) = drive(
        Bootstrap::new("http://vtt.test", "Voyeur", ""),
        vec![BootEvent::Begin, BootEvent::Settled],
    );
    assert_eq!(run.stage, Stage::Failed);
    let (run, action) = run.step(BootEvent::Begin);
    assert_eq!(action, BootAction::Nothing);
    assert_eq!(run.stage, Stage::Failed);
    let (run, action) = run.step(BootEvent::SocketOpened);
    assert_eq!(action, BootAction::Nothing);
    assert_eq!(run.stage, Stage::Failed);
}

#[test]
fn builder_stages_depend_on_each_other() {
    let builder = FoundryClientBuilder::default();
    assert_eq!(
        builder.establish_socket("http://vtt.test"),
        Err(failed_init("Need to acquire a session before establishing a socket"))
    );
    assert_eq!(builder.login("http://vtt.test", "pw"), None);
    assert_eq!(
        FoundryClientBuilder::default().establish_session(&session_cookie("abc123")),
        Err(failed_init("http_client must be initialized first"))
    );
    assert_eq!(
        FoundryClientBuilder::default().adopt_socket(),
        Err(failed_init("Need to acquire a session before establishing a socket"))
    );
    assert_eq!(
        FoundryClientBuilder::default().acquire_user_id("Voyeur", &roster_reply(vec![("u1", "Voyeur")])),
        Err(failed_init("Must initialize socket before acquiring user id"))
    );
}

#[test]
fn builder_runs_the_stages_in_order() {
    let builder = FoundryClientBuilder::default().build_client();
    assert!(builder.http_client);
    let builder = builder.establish_session(&session_cookie("abc123")).unwrap();
    assert_eq!(builder.session_id, Some("abc123".to_string()));
    let plan = builder.establish_socket("http://vtt.test").unwrap();
    assert_eq!(plan.url, "http://vtt.test/socket.io/?session=abc123");
    let builder = builder.adopt_socket().unwrap();
    assert_eq!(builder.socket, Some(Connection { id: 1, state: ConnectionState::Open }));
    assert_eq!(builder.opened, 1);
    let builder = builder
        .acquire_user_id("Bob", &roster_reply(vec![("a1", "Alice"), ("b2", "Bob")]))
        .unwrap();
    assert_eq!(builder.user_id, Some("b2".to_string()));
    let request = builder.login("http://vtt.test", "pw").unwrap();
    assert_eq!(request.url, "http://vtt.test/join");
    assert_eq!(request.form, LoginForm::new(Some("b2".to_string()), "pw"));
    let builder = builder.release_socket();
    assert_eq!(builder.socket, None);
    let builder = builder.adopt_socket().unwrap();
    assert_eq!(builder.socket, Some(Connection { id: 2, state: ConnectionState::Open }));
    let client = builder.build();
    assert_eq!(
        client,
        FoundryClient {
            socket: Connection { id: 2, state: ConnectionState::Open },
            session_id: "abc123".to_string(),
            user_id: "b2".to_string(),
        }
    );
}

#[test]
fn builder_without_a_resolved_identity_logs_in_as_nobody() {
    let builder = FoundryClientBuilder::default().build_client();
    let request = builder.login("http://vtt.test", "pw").unwrap();
    assert_eq!(request.form.userid, None);
    assert_eq!(request.form.action, "join");
}

#[test]
fn builder_runs_out_of_connection_ids() {
    let builder = FoundryClientBuilder {
        socket: None,
        http_client: true,
        session_id: Some("abc123".to_string()),
        user_id: None,
        opened: u64::MAX,
    };
    assert_eq!(builder.adopt_socket(), Err(failed_init("No connection id is left")));
}

#[test]
fn try_build_names_the_first_missing_part() {
    assert_eq!(
        FoundryClientBuilder::default().try_build(),
        Err(failed_init("Missing socket - be sure to establish_socket"))
    );
    let with_socket = |http_client, session_id: Option<&str>, user_id: Option<&str>| {
        FoundryClientBuilder {
            socket: Some(Connection { id: 1, state: ConnectionState::Open }),
            http_client,
            session_id: session_id.map(|s| s.to_string()),
            user_id: user_id.map(|s| s.to_string()),
            opened: 1,
        }
    };
    assert_eq!(
        with_socket(false, Some("s"), Some("u")).try_build(),
        Err(failed_init("Missing http client - be sure to build_client"))
    );
    assert_eq!(
        with_socket(true, None, Some("u")).try_build(),
        Err(failed_init("Missing session id - be sure to establish_session"))
    );
    assert_eq!(
        with_socket(true, Some("s"), None).try_build(),
        Err(failed_init("Missing user id - be sure to acquire_user_id"))
    );
    assert_eq!(
        with_socket(true, Some("s"), Some("u")).try_build(),
        Ok(FoundryClient {
            socket: Connection { id: 1, state: ConnectionState::Open },
            session_id: "s".to_string(),
            user_id: "u".to_string(),
        })
    );
}

#[test]
fn client_calls_with_the_operational_timeout() {
    let client = FoundryClient {
        socket: Connection { id: 2, state: ConnectionState::Open },
        session_id: "abc123".to_string(),
        user_id: "u1".to_string(),
    };
    let (call, pending, action) = client.emit("world", Payload::empty()).unwrap();
    assert!(!pending.is_filled());
    assert_eq!(
        action,
        CallAction::Emit {
            event: "world".to_string(),
            payload: Payload::Text(vec![]),
            timeout_ms: 15000,
        }
    );
    assert_eq!(call.event, "world");
    assert_eq!(call.timeout_ms, 15000);
    assert_eq!(call.elapsed_ms, 0);
    assert_eq!(call.phase, CallPhase::Emitting);
}

#[test]
fn client_whose_connection_gave_up_fails_calls_at_once() {
    let mut client = FoundryClient {
        socket: Connection { id: 2, state: ConnectionState::Open },
        session_id: "abc123".to_string(),
        user_id: "u1".to_string(),
    };
    assert_eq!(
        client.on_transport_event(TransportEvent::Dropped),
        TransportAction::ScheduleRetry { delay_ms: 500 }
    );
    assert_eq!(
        client.emit("world", Payload::empty()),
        Err(FoundryClientError::SocketError("connection is not open".to_string()))
    );
    for _ in 0..10 {
        assert_eq!(
            client.on_transport_event(TransportEvent::RetryDue),
            TransportAction::OpenTransport
        );
        client.on_transport_event(TransportEvent::OpenFailed);
    }
    assert_eq!(client.socket, Connection { id: 2, state: ConnectionState::Closed });
    assert_eq!(
        client.call("world", Payload::empty(), 5000),
        Err(FoundryClientError::SocketError("connection is not open".to_string()))
    );
    assert_eq!(client.session_id, "abc123");
    assert_eq!(client.user_id, "u1");
}

#[test]
fn client_calls_again_after_a_reconnect() {
    let mut client = FoundryClient {
        socket: Connection { id: 2, state: ConnectionState::Open },
        session_id: "abc123".to_string(),
        user_id: "u1".to_string(),
    };
    client.on_transport_event(TransportEvent::Dropped);
    client.on_transport_event(TransportEvent::RetryDue);
    assert_eq!(client.on_transport_event(TransportEvent::Opened), TransportAction::Nothing);
    assert_eq!(client.socket, Connection { id: 2, state: ConnectionState::Open });
    let (call, pending, action) =
        client.call("world", Payload::String("now".to_string()), 5000).unwrap();
    assert!(!pending.is_filled());
    assert_eq!(call.timeout_ms, 5000);
    assert_eq!(
        action,
        CallAction::Emit {
            event: "world".to_string(),
            payload: Payload::String("now".to_string()),
            timeout_ms: 5000,
        }
    );
}

#[test]
fn call_whose_connection_drops_mid_wait_times_out() {
    let mut client = FoundryClient {
        socket: Connection { id: 2, state: ConnectionState::Open },
        session_id: "abc123".to_string(),
        user_id: "u1".to_string(),
    };
    let (mut call, mut pending, _) = client.call("world", Payload::empty(), 5000).unwrap();
    assert_eq!(call.step(CallEvent::Emitted), CallAction::Wait(5000));
    assert_eq!(call.collect(&mut pending, 1000), CallAction::Wait(4000));
    client.on_transport_event(TransportEvent::Dropped);
    client.on_transport_event(TransportEvent::RetryDue);
    client.on_transport_event(TransportEvent::Opened);
    assert_eq!(call.collect(&mut pending, 4000), CallAction::Return(None));
    assert!(call.is_finished());
}
