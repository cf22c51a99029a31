use foundry_client::endpoint::socket_url;
use foundry_client::error::FoundryClientError;
use foundry_client::transport::{
    cookie_header, ConnectPlan, ConnectionState, ReconnectPolicy, TransportAction, TransportEvent,
    TransportKind, MAX_RECONNECT_ATTEMPTS, RECONNECT_DELAY_MS, SETTLE_DELAY_MS,
};

#[test]
fn socket_url_appends_path_and_session() {
    assert_eq!(
        socket_url("http://vtt.test", "abc123"),
        Ok("http://vtt.test/socket.io/?session=abc123".to_string())
    );
}

#[test]
fn socket_url_normalises_the_base() {
    assert_eq!(
        socket_url("HTTP://VTT.TEST:80", "abc123"),
        Ok("http://vtt.test/socket.io/?session=abc123".to_string())
    );
}

#[test]
fn socket_url_keeps_a_path_prefix() {
    assert_eq!(
        socket_url("https://example.net/game", "s"),
        Ok("https://example.net/game/socket.io/?session=s".to_string())
    );
}

#[test]
fn socket_url_keeps_an_empty_last_segment_of_the_base() {
    assert_eq!(
        socket_url("https://example.net/game/", "s"),
        Ok("https://example.net/game//socket.io/?session=s".to_string())
    );
}

#[test]
fn socket_url_encodes_the_session() {
    assert_eq!(
        socket_url("http://vtt.test", "a b&c=d"),
        Ok("http://vtt.test/socket.io/?session=a+b%26c%3Dd".to_string())
    );
}

#[test]
fn socket_url_keeps_query_and_fragment_of_the_base() {
    assert_eq!(
        socket_url("http://vtt.test/?x=1#top", "s"),
        Ok("http://vtt.test/socket.io/?x=1&session=s#top".to_string())
    );
}

#[test]
fn socket_url_rejects_a_relative_base() {
    assert_eq!(
        socket_url("vtt.test", "abc123"),
        Err(FoundryClientError::URLError("relative URL without a base".to_string()))
    );
}

#[test]
fn socket_url_rejects_an_empty_host() {
    assert_eq!(
        socket_url("http://", "abc123"),
        Err(FoundryClientError::URLError("empty host".to_string()))
    );
}

#[test]
fn socket_url_rejects_a_base_without_segments() {
    assert_eq!(
        socket_url("mailto:gm@vtt.test", "abc123"),
        Err(FoundryClientError::URLError("URL cannot be a base".to_string()))
    );
}

#[test]
fn socket_url_extends_a_base_without_authority() {
    assert_eq!(
        socket_url("unix:/run/vtt.socket", "s"),
        Ok("unix:/run/vtt.socket/socket.io/?session=s".to_string())
    );
}

#[test]
fn socket_url_rejects_a_data_url() {
    assert_eq!(
        socket_url("data:text/plain,Stuff", "s"),
        Err(FoundryClientError::URLError("URL cannot be a base".to_string()))
    );
}

#[test]
fn socket_url_rejects_a_bad_port() {
    assert_eq!(
        socket_url("http://vtt.test:99999", "s"),
        Err(FoundryClientError::URLError("invalid port number".to_string()))
    );
}

#[test]
fn socket_url_rejects_an_overlong_session() {
    let session = "x".repeat(0x10_0001);
    assert_eq!(
        socket_url("http://vtt.test", &session),
        Err(FoundryClientError::URLError("URL is too long".to_string()))
    );
}

#[test]
fn socket_url_rejects_an_overlong_base() {
    let host = format!("http://vtt.test/{}", "a".repeat(0x100_0000));
    assert_eq!(
        socket_url(&host, "abc123"),
        Err(FoundryClientError::URLError("URL is too long".to_string()))
    );
}

#[test]
fn socket_url_takes_a_long_base_and_session() {
    let prefix = "a".repeat(0x10_0000);
    let session = "x".repeat(0x10_0000);
    assert_eq!(
        socket_url(&format!("http://vtt.test/{}", prefix), &session),
        Ok(format!("http://vtt.test/{}/socket.io/?session={}", prefix, session))
    );
}

#[test]
fn cookie_header_carries_the_session() {
    assert_eq!(cookie_header("abc123"), "session=abc123");
    assert_eq!(cookie_header(""), "session=");
}

#[test]
fn standard_policy_is_ten_attempts_half_a_second_apart() {
    let policy = ReconnectPolicy::standard();
    assert!(policy.reconnect);
    assert!(policy.reconnect_on_disconnect);
    assert_eq!(policy.delay_min_ms, 500);
    assert_eq!(policy.delay_max_ms, 500);
    assert_eq!(policy.max_attempts, 10);
    assert_eq!(RECONNECT_DELAY_MS, 500);
    assert_eq!(MAX_RECONNECT_ATTEMPTS, 10);
    assert_eq!(SETTLE_DELAY_MS, 2000);
}

#[test]
fn connect_plan_embeds_the_session_twice() {
    let plan = ConnectPlan::new("http://vtt.test", "abc123").unwrap();
    assert_eq!(plan.url, "http://vtt.test/socket.io/?session=abc123");
    assert_eq!(plan.header_name, "Cookie");
    assert_eq!(plan.header_value, "session=abc123");
    assert_eq!(plan.transport, TransportKind::Websocket);
    assert_eq!(plan.policy, ReconnectPolicy::standard());
}

#[test]
fn connect_plan_for_an_endpoint_takes_the_url_as_it_is() {
    let plan = ConnectPlan::for_endpoint("ws://elsewhere/".to_string(), "s1");
    assert_eq!(plan.url, "ws://elsewhere/");
    assert_eq!(plan.header_name, "Cookie");
    assert_eq!(plan.header_value, "session=s1");
    assert_eq!(plan.transport, TransportKind::Websocket);
    assert_eq!(plan.policy, ReconnectPolicy::standard());
}

#[test]
fn connect_plan_fails_on_a_malformed_base() {
    assert_eq!(
        ConnectPlan::new("://", "abc123"),
        Err(FoundryClientError::URLError("relative URL without a base".to_string()))
    );
}

#[test]
fn connection_opens_from_idle() {
    let (state, action) = ConnectionState::Idle.on_event(TransportEvent::ConnectRequested);
    assert_eq!(state, ConnectionState::Connecting);
    assert_eq!(action, TransportAction::OpenTransport);
    let (state, action) = state.on_event(TransportEvent::Opened);
    assert_eq!(state, ConnectionState::Open);
    assert_eq!(action, TransportAction::Nothing);
    assert!(state.is_open());
}

#[test]
fn first_opening_that_fails_closes_the_connection() {
    let (state, action) = ConnectionState::Connecting.on_event(TransportEvent::OpenFailed);
    assert_eq!(state, ConnectionState::Closed);
    assert_eq!(action, TransportAction::Nothing);
    assert!(!state.is_open());
}

#[test]
fn forced_disconnect_reconnects() {
    let (state, action) = ConnectionState::Open.on_event(TransportEvent::Dropped);
    assert_eq!(state, ConnectionState::Disconnected { failed: 0 });
    assert_eq!(action, TransportAction::ScheduleRetry { delay_ms: 500 });
    assert!(!state.is_open());
    let (state, action) = state.on_event(TransportEvent::RetryDue);
    assert_eq!(state, ConnectionState::Reconnecting { attempt: 1 });
    assert_eq!(action, TransportAction::OpenTransport);
    let (state, action) = state.on_event(TransportEvent::Opened);
    assert_eq!(state, ConnectionState::Open);
    assert_eq!(action, TransportAction::Nothing);
}

#[test]
fn tenth_attempt_may_still_reopen() {
    let mut state = ConnectionState::Open.on_event(TransportEvent::Dropped).0;
    for attempt in 1..=9u8 {
        let (next, action) = state.on_event(TransportEvent::RetryDue);
        assert_eq!(next, ConnectionState::Reconnecting { attempt });
        assert_eq!(action, TransportAction::OpenTransport);
        let (next, action) = next.on_event(TransportEvent::OpenFailed);
        assert_eq!(next, ConnectionState::Disconnected { failed: attempt });
        assert_eq!(action, TransportAction::ScheduleRetry { delay_ms: 500 });
        state = next;
    }
    let (state, _) = state.on_event(TransportEvent::RetryDue);
    assert_eq!(state, ConnectionState::Reconnecting { attempt: 10 });
    let (state, action) = state.on_event(TransportEvent::Opened);
    assert_eq!(state, ConnectionState::Open);
    assert_eq!(action, TransportAction::Nothing);
}

#[test]
fn ten_failed_attempts_close_the_connection() {
    let mut state = ConnectionState::Open.on_event(TransportEvent::Dropped).0;
    let mut retries = 0;
    loop {
        let (next, action) = state.on_event(TransportEvent::RetryDue);
        if action != TransportAction::OpenTransport {
            panic!("a backoff ran out without an attempt being made");
        }
        retries += 1;
        let (next, action) = next.on_event(TransportEvent::OpenFailed);
        state = next;
        if action == TransportAction::Nothing {
            break;
        }
        assert_eq!(action, TransportAction::ScheduleRetry { delay_ms: 500 });
    }
    assert_eq!(retries, 10);
    assert_eq!(state, ConnectionState::Closed);
    assert!(!state.is_open());
}

#[test]
fn closed_connection_stays_closed() {
    let events = [
        TransportEvent::ConnectRequested,
        TransportEvent::Opened,
        TransportEvent::OpenFailed,
        TransportEvent::Dropped,
        TransportEvent::RetryDue,
        TransportEvent::CloseRequested,
    ];
    for event in events {
        let (state, action) = ConnectionState::Closed.on_event(event);
        assert_eq!(state, ConnectionState::Closed);
        assert_eq!(action, TransportAction::Nothing);
    }
}

#[test]
fn explicit_close_never_reconnects() {
    let states = [
        ConnectionState::Connecting,
        ConnectionState::Open,
        ConnectionState::Disconnected { failed: 3 },
        ConnectionState::Reconnecting { attempt: 4 },
    ];
    for state in states {
        let (next, action) = state.on_event(TransportEvent::CloseRequested);
        assert_eq!(next, ConnectionState::Closed);
        assert_eq!(action, TransportAction::TearDown);
        let (after, action) = next.on_event(TransportEvent::RetryDue);
        assert_eq!(after, ConnectionState::Closed);
        assert_eq!(action, TransportAction::Nothing);
    }
    let (next, action) = ConnectionState::Idle.on_event(TransportEvent::CloseRequested);
    assert_eq!(next, ConnectionState::Closed);
    assert_eq!(action, TransportAction::Nothing);
}

#[test]
fn events_that_a_state_does_not_await_change_nothing() {
    let (state, action) = ConnectionState::Open.on_event(TransportEvent::RetryDue);
    assert_eq!(state, ConnectionState::Open);
    assert_eq!(action, TransportAction::Nothing);
    let (state, action) = ConnectionState::Idle.on_event(TransportEvent::Dropped);
    assert_eq!(state, ConnectionState::Idle);
    assert_eq!(action, TransportAction::Nothing);
    let (state, action) =
        ConnectionState::Disconnected { failed: 2 }.on_event(TransportEvent::Opened);
    assert_eq!(state, ConnectionState::Disconnected { failed: 2 });
    assert_eq!(action, TransportAction::Nothing);
}
