use foundry_client::error::FoundryClientError;
use foundry_client::json::Json;
use foundry_client::payload::Payload;
use foundry_client::rpc::{
    CallAction, CallEvent, CallPhase, PendingCall, RpcCall, BOOTSTRAP_CALL_TIMEOUT_MS,
    CLIENT_CALL_TIMEOUT_MS,
};
use foundry_client::transport::ConnectionState;

fn text_payload(word: &str) -> Payload {
    Payload::Text(vec![Json::Text(word.to_string())])
}

fn begun(event: &str, timeout_ms: u64) -> RpcCall {
    RpcCall::begin(ConnectionState::Open, event, Payload::empty(), timeout_ms).unwrap().0
}

fn waiting(event: &str, timeout_ms: u64) -> RpcCall {
    let mut call = begun(event, timeout_ms);
    assert_eq!(call.step(CallEvent::Emitted), CallAction::Wait(timeout_ms));
    call
}

#[test]
fn call_timeouts_are_two_and_fifteen_seconds() {
    assert_eq!(BOOTSTRAP_CALL_TIMEOUT_MS, 2000);
    assert_eq!(CLIENT_CALL_TIMEOUT_MS, 15000);
}

#[test]
fn call_begins_by_emitting() {
    let (call, pending, action) =
        RpcCall::begin(ConnectionState::Open, "world", text_payload("please"), 5000).unwrap();
    assert!(!pending.is_filled());
    assert_eq!(pending, PendingCall::new());
    assert_eq!(
        action,
        CallAction::Emit {
            event: "world".to_string(),
            payload: text_payload("please"),
            timeout_ms: 5000,
        }
    );
    assert_eq!(call.event, "world");
    assert_eq!(call.timeout_ms, 5000);
    assert_eq!(call.elapsed_ms, 0);
    assert_eq!(call.phase, CallPhase::Emitting);
    assert!(!call.is_finished());
}

#[test]
fn call_on_a_connection_that_is_not_open_fails_at_once() {
    let states = [
        ConnectionState::Idle,
        ConnectionState::Connecting,
        ConnectionState::Disconnected { failed: 0 },
        ConnectionState::Reconnecting { attempt: 1 },
        ConnectionState::Closed,
    ];
    for state in states {
        assert_eq!(
            RpcCall::begin(state, "world", Payload::empty(), 5000),
            Err(FoundryClientError::SocketError("connection is not open".to_string()))
        );
    }
}

#[test]
fn acknowledged_call_returns_the_exact_payload() {
    let mut call = waiting("getJoinData", 2000);
    assert_eq!(call.step(CallEvent::Waited(700)), CallAction::Wait(1300));
    let action = call.step(CallEvent::Acknowledged(text_payload("roster")));
    assert_eq!(action, CallAction::Return(Some(text_payload("roster"))));
    assert!(call.is_finished());
}

#[test]
fn unacknowledged_call_returns_nothing_at_its_timeout() {
    let mut call = waiting("getJoinData", 2000);
    assert_eq!(call.step(CallEvent::Waited(1999)), CallAction::Wait(1));
    assert!(!call.is_finished());
    assert_eq!(call.step(CallEvent::Waited(1)), CallAction::Return(None));
    assert!(call.is_finished());
    assert_eq!(call.elapsed_ms, 2000);
}

#[test]
fn waits_add_up_towards_the_timeout() {
    let mut call = waiting("world", 300);
    assert_eq!(call.step(CallEvent::Waited(100)), CallAction::Wait(200));
    assert_eq!(call.step(CallEvent::Waited(100)), CallAction::Wait(100));
    assert_eq!(call.step(CallEvent::Waited(100)), CallAction::Return(None));
}

#[test]
fn overlong_wait_times_the_call_out() {
    let mut call = waiting("world", 300);
    assert_eq!(call.step(CallEvent::Waited(u64::MAX)), CallAction::Return(None));
    assert_eq!(call.elapsed_ms, u64::MAX);
    let mut call = waiting("world", 300);
    assert_eq!(call.step(CallEvent::Waited(200)), CallAction::Wait(100));
    assert_eq!(call.step(CallEvent::Waited(u64::MAX)), CallAction::Return(None));
    assert_eq!(call.elapsed_ms, u64::MAX);
}

#[test]
fn call_without_timeout_looks_once() {
    let mut call = waiting("world", 0);
    assert_eq!(call.step(CallEvent::Waited(0)), CallAction::Return(None));
    let mut call = waiting("world", 0);
    assert_eq!(
        call.step(CallEvent::Acknowledged(text_payload("quick"))),
        CallAction::Return(Some(text_payload("quick")))
    );
}

#[test]
fn late_acknowledgement_is_dropped() {
    let mut call = waiting("world", 100);
    assert_eq!(call.step(CallEvent::Waited(100)), CallAction::Return(None));
    assert_eq!(call.step(CallEvent::Acknowledged(text_payload("late"))), CallAction::Nothing);
    assert!(call.is_finished());
}

#[test]
fn second_acknowledgement_is_dropped() {
    let mut call = waiting("world", 100);
    assert_eq!(
        call.step(CallEvent::Acknowledged(text_payload("first"))),
        CallAction::Return(Some(text_payload("first")))
    );
    assert_eq!(call.step(CallEvent::Acknowledged(text_payload("second"))), CallAction::Nothing);
}

#[test]
fn failed_emit_fails_the_call_at_once() {
    let mut call = begun("world", 5000);
    assert_eq!(
        call.step(CallEvent::EmitFailed("broken pipe".to_string())),
        CallAction::Fail(FoundryClientError::SocketError("broken pipe".to_string()))
    );
    assert!(call.is_finished());
    assert_eq!(call.step(CallEvent::Waited(1)), CallAction::Nothing);
}

#[test]
fn waits_before_the_emit_do_not_count() {
    let mut call = begun("world", 5000);
    assert_eq!(call.step(CallEvent::Waited(10_000)), CallAction::Nothing);
    assert_eq!(call.elapsed_ms, 0);
    assert_eq!(call.step(CallEvent::Emitted), CallAction::Wait(5000));
}

#[test]
fn acknowledgement_that_overtakes_the_emit_is_the_result() {
    let mut call = begun("world", 5000);
    assert_eq!(
        call.step(CallEvent::Acknowledged(text_payload("early"))),
        CallAction::Return(Some(text_payload("early")))
    );
    assert!(call.is_finished());
    assert_eq!(call.step(CallEvent::Emitted), CallAction::Nothing);
}

#[test]
fn concurrent_calls_return_their_own_payload() {
    let mut one = waiting("alpha", 1000);
    let mut other = waiting("beta", 1000);
    assert_eq!(one.step(CallEvent::Waited(10)), CallAction::Wait(990));
    let to_other = other.step(CallEvent::Acknowledged(text_payload("for beta")));
    let to_one = one.step(CallEvent::Acknowledged(text_payload("for alpha")));
    assert_eq!(to_one, CallAction::Return(Some(text_payload("for alpha"))));
    assert_eq!(to_other, CallAction::Return(Some(text_payload("for beta"))));
}

#[test]
fn slot_keeps_the_first_write() {
    let mut pending = PendingCall::new();
    assert!(!pending.is_filled());
    assert!(pending.fulfil(text_payload("first")));
    assert!(pending.is_filled());
    assert!(!pending.fulfil(text_payload("second")));
    assert_eq!(pending.take(), Some(text_payload("first")));
    assert!(!pending.is_filled());
    assert_eq!(pending.take(), None);
}

#[test]
fn slots_of_two_calls_do_not_mix() {
    let mut one = PendingCall::new();
    let mut other = PendingCall::new();
    assert!(other.fulfil(text_payload("for beta")));
    assert!(!one.is_filled());
    assert!(one.fulfil(text_payload("for alpha")));
    assert_eq!(one.take(), Some(text_payload("for alpha")));
    assert_eq!(other.take(), Some(text_payload("for beta")));
}

#[test]
fn collect_consumes_an_acknowledgement() {
    let mut call = waiting("world", 1000);
    let mut pending = PendingCall::new();
    assert_eq!(call.collect(&mut pending, 400), CallAction::Wait(600));
    assert!(pending.fulfil(text_payload("answer")));
    assert!(!pending.fulfil(text_payload("echo")));
    assert_eq!(
        call.collect(&mut pending, 100),
        CallAction::Return(Some(text_payload("answer")))
    );
    assert!(!pending.is_filled());
    assert!(call.is_finished());
}

#[test]
fn collect_times_out_on_an_empty_slot() {
    let mut call = waiting("world", 1000);
    let mut pending = PendingCall::new();
    assert_eq!(call.collect(&mut pending, 1000), CallAction::Return(None));
    assert!(pending.fulfil(text_payload("late")));
    assert_eq!(call.collect(&mut pending, 0), CallAction::Nothing);
    assert!(!pending.is_filled());
}
