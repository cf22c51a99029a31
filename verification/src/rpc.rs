//! The bridge from "emit an event, perhaps be acknowledged once" to a bounded
//! request/response call.
//!
//! Each call owns one delivery slot and one timeout. The driver emits the
//! event and waits; the call decides from what the driver reports how long to
//! wait further and what to return.

use vstd::prelude::*;
use vstd::string::StringExecFns;
use crate::error::{ClientFault, FoundryClientError};
use crate::payload::{Payload, PayloadValue};
use crate::transport::ConnectionState;

verus! {

/// The timeout of the calls that the bootstrap makes, in milliseconds.
pub const BOOTSTRAP_CALL_TIMEOUT_MS: u64 = 2000;

/// The timeout of a call made through the finished client, in milliseconds.
pub const CLIENT_CALL_TIMEOUT_MS: u64 = 15000;

/// The delivery point of one call: a single slot that keeps the first
/// acknowledgement written to it and drops every later one.
#[derive(Debug, PartialEq, Eq)]
pub struct PendingCall {
    pub slot: Option<Payload>,
}

impl View for PendingCall {
    type V = Option<PayloadValue>;

    open spec fn view(&self) -> Option<PayloadValue> {
        self.slot.deep_view()
    }
}

/// What a slot holds after `payload` is written to it: what it held, if it
/// held anything, else `payload`.
pub open spec fn slot_after(slot: Option<PayloadValue>, payload: PayloadValue) -> Option<
    PayloadValue,
> {
    match slot {
        Some(first) => Some(first),
        None => Some(payload),
    }
}

impl PendingCall {
    /// An empty slot.
    pub fn new() -> (pending: PendingCall)
        ensures
            pending@ is None,
    {
        PendingCall { slot: None }
    }

    /// Whether an acknowledgement has been written.
    pub fn is_filled(&self) -> (filled: bool)
        ensures
            filled == self@ is Some,
    {
        self.slot.is_some()
    }

    /// Writes an acknowledgement. Only the first write is kept: returns
    /// whether this one was.
    pub fn fulfil(&mut self, payload: Payload) -> (kept: bool)
        ensures
            kept == old(self)@ is None,
            final(self)@ == slot_after(old(self)@, payload@),
    {
        if self.slot.is_some() {
            false
        } else {
            self.slot = Some(payload);
            true
        }
    }

    /// Takes the acknowledgement out, leaving the slot empty.
    pub fn take(&mut self) -> (payload: Option<Payload>)
        ensures
            payload.deep_view() == old(self)@,
            final(self)@ is None,
    {
        self.slot.take()
    }
}

/// How far a call has got.
#[derive(Debug, Clone, Copy, PartialEq, Eq, Structural)]
pub enum CallPhase {
    /// The event is being written to the transport.
    Emitting,
    /// The event is out; the acknowledgement is awaited.
    Waiting,
    /// The call has returned.
    Finished,
}

/// One request/response call under way.
#[derive(Debug, PartialEq, Eq)]
pub struct RpcCall {
    /// The event's name.
    pub event: String,
    pub timeout_ms: u64,
    /// How long the acknowledgement has been awaited so far.
    pub elapsed_ms: u64,
    pub phase: CallPhase,
}

/// The mathematical value of an [`RpcCall`].
pub struct CallModel {
    pub event: Seq<char>,
    pub timeout_ms: u64,
    pub elapsed_ms: u64,
    pub phase: CallPhase,
}

impl View for RpcCall {
    type V = CallModel;

    open spec fn view(&self) -> CallModel {
        CallModel {
            event: self.event@,
            timeout_ms: self.timeout_ms,
            elapsed_ms: self.elapsed_ms,
            phase: self.phase,
        }
    }
}

/// What the driver reports to a call.
#[derive(Debug, PartialEq, Eq)]
pub enum CallEvent {
    /// The event was written to the transport.
    Emitted,
    /// The event could not be written; carries the reason.
    EmitFailed(String),
    /// The transport delivered an acknowledgement. The first one reported
    /// before the call has returned is the call's result.
    Acknowledged(Payload),
    /// So many milliseconds passed without one.
    Waited(u64),
}

/// The mathematical value of a [`CallEvent`].
pub enum CallEventView {
    Emitted,
    EmitFailed(Seq<char>),
    Acknowledged(PayloadValue),
    Waited(u64),
}

impl View for CallEvent {
    type V = CallEventView;

    open spec fn view(&self) -> CallEventView {
        match self {
            CallEvent::Emitted => CallEventView::Emitted,
            CallEvent::EmitFailed(why) => CallEventView::EmitFailed(why@),
            CallEvent::Acknowledged(payload) => CallEventView::Acknowledged(payload@),
            CallEvent::Waited(ms) => CallEventView::Waited(*ms),
        }
    }
}

/// What a call asks of the driver.
#[derive(Debug, PartialEq, Eq)]
pub enum CallAction {
    /// Emit `event` with `payload`, registering for one acknowledgement within
    /// `timeout_ms` milliseconds, and report `Emitted` or `EmitFailed`.
    Emit { event: String, payload: Payload, timeout_ms: u64 },
    /// Wait for an acknowledgement, for at most so many milliseconds, and
    /// report which came first.
    Wait(u64),
    /// Hand this to the caller: the acknowledgement, or nothing after a
    /// timeout.
    Return(Option<Payload>),
    /// Fail the call with this error.
    Fail(FoundryClientError),
    /// Nothing: the report does not concern the call, or not any more.
    Nothing,
}

/// The mathematical value of a [`CallAction`].
pub enum CallActionView {
    Emit { event: Seq<char>, payload: PayloadValue, timeout_ms: u64 },
    Wait(u64),
    Return(Option<PayloadValue>),
    Fail(ClientFault),
    Nothing,
}

impl View for CallAction {
    type V = CallActionView;

    open spec fn view(&self) -> CallActionView {
        match self {
            CallAction::Emit { event, payload, timeout_ms } => CallActionView::Emit {
                event: event@,
                payload: payload@,
                timeout_ms: *timeout_ms,
            },
            CallAction::Wait(ms) => CallActionView::Wait(*ms),
            CallAction::Return(payload) => CallActionView::Return(payload.deep_view()),
            CallAction::Fail(fault) => CallActionView::Fail(fault@),
            CallAction::Nothing => CallActionView::Nothing,
        }
    }
}

/// The sum of two waits, held at the largest value where it would pass it.
pub open spec fn waited_in_all(elapsed_ms: u64, more_ms: u64) -> u64 {
    if elapsed_ms + more_ms > u64::MAX {
        u64::MAX
    } else {
        (elapsed_ms + more_ms) as u64
    }
}

/// The message of the fault that a call on a connection that is not open gives.
pub open spec fn not_open() -> Seq<char> {
    "connection is not open"@
}

impl CallModel {
    /// A call that is about to emit.
    pub open spec fn fresh(event: Seq<char>, timeout_ms: u64) -> CallModel {
        CallModel { event: event, timeout_ms: timeout_ms, elapsed_ms: 0, phase: CallPhase::Emitting }
    }

    /// What starting a call on a connection in `state` comes to: the call
    /// and the request to emit exactly this event with exactly this payload,
    /// or `SocketError` at once where the connection is not open.
    pub open spec fn begin(
        state: ConnectionState,
        event: Seq<char>,
        payload: PayloadValue,
        timeout_ms: u64,
    ) -> Result<(CallModel, CallActionView), ClientFault> {
        if state.accepts_calls() {
            Ok(
                (
                    CallModel::fresh(event, timeout_ms),
                    CallActionView::Emit { event: event, payload: payload, timeout_ms: timeout_ms },
                ),
            )
        } else {
            Err(ClientFault::SocketError(not_open()))
        }
    }

    /// The call after `event`.
    pub open spec fn next(self, event: CallEventView) -> CallModel {
        match (self.phase, event) {
            (CallPhase::Emitting, CallEventView::Emitted) => CallModel {
                phase: CallPhase::Waiting,
                ..self
            },
            (CallPhase::Emitting, CallEventView::EmitFailed(_)) => CallModel {
                phase: CallPhase::Finished,
                ..self
            },
            (CallPhase::Emitting, CallEventView::Acknowledged(_)) => CallModel {
                phase: CallPhase::Finished,
                ..self
            },
            (CallPhase::Waiting, CallEventView::Acknowledged(_)) => CallModel {
                phase: CallPhase::Finished,
                ..self
            },
            (CallPhase::Waiting, CallEventView::Waited(ms)) => CallModel {
                elapsed_ms: waited_in_all(self.elapsed_ms, ms),
                phase: if waited_in_all(self.elapsed_ms, ms) >= self.timeout_ms {
                    CallPhase::Finished
                } else {
                    CallPhase::Waiting
                },
                ..self
            },
            (_, _) => self,
        }
    }

    /// What the call asks of the driver after `event`.
    pub open spec fn reaction(self, event: CallEventView) -> CallActionView {
        match (self.phase, event) {
            (CallPhase::Emitting, CallEventView::Emitted) => CallActionView::Wait(self.timeout_ms),
            (CallPhase::Emitting, CallEventView::EmitFailed(why)) => CallActionView::Fail(
                ClientFault::SocketError(why),
            ),
            (CallPhase::Emitting, CallEventView::Acknowledged(payload)) => CallActionView::Return(
                Some(payload),
            ),
            (CallPhase::Waiting, CallEventView::Acknowledged(payload)) => CallActionView::Return(
                Some(payload),
            ),
            (CallPhase::Waiting, CallEventView::Waited(ms)) => if waited_in_all(self.elapsed_ms, ms)
                >= self.timeout_ms {
                CallActionView::Return(None)
            } else {
                CallActionView::Wait((self.timeout_ms - waited_in_all(self.elapsed_ms, ms)) as u64)
            },
            (_, _) => CallActionView::Nothing,
        }
    }

    /// No wait is counted before the event is out, and while the
    /// acknowledgement is awaited the waits counted stay below the timeout.
    pub open spec fn well_formed(self) -> bool {
        &&& self.phase is Emitting ==> self.elapsed_ms == 0
        &&& self.phase is Waiting ==> self.elapsed_ms < self.timeout_ms || self.elapsed_ms == 0
    }

    /// What a waiter that finds `slot` after waiting `waited_ms` reports.
    pub open spec fn found(slot: Option<PayloadValue>, waited_ms: u64) -> CallEventView {
        match slot {
            Some(payload) => CallEventView::Acknowledged(payload),
            None => CallEventView::Waited(waited_ms),
        }
    }
}

impl RpcCall {
    /// Starts a call of `event` with `payload` on a connection in `state`.
    ///
    /// Fails at once with `SocketError` unless the connection is open.
    /// Otherwise the call comes with a fresh, empty slot of its own, and the
    /// driver is to emit the event, have acknowledgements written to that
    /// slot, and report how the emit went.
    pub fn begin(state: ConnectionState, event: &str, payload: Payload, timeout_ms: u64) -> (call:
        Result<(RpcCall, PendingCall, CallAction), FoundryClientError>)
        ensures
            match call {
                Ok((call, pending, action)) => {
                    &&& CallModel::begin(state, event@, payload@, timeout_ms) == Ok::<
                        (CallModel, CallActionView),
                        ClientFault,
                    >((call@, action@))
                    &&& call@.well_formed()
                    &&& pending@ is None
                },
                Err(fault) => CallModel::begin(state, event@, payload@, timeout_ms) == Err::<
                    (CallModel, CallActionView),
                    ClientFault,
                >(fault@),
            },
    {
        if state.is_open() {
            Ok(
                (
                    RpcCall {
                        event: String::from_str(event),
                        timeout_ms,
                        elapsed_ms: 0,
                        phase: CallPhase::Emitting,
                    },
                    PendingCall::new(),
                    CallAction::Emit { event: String::from_str(event), payload, timeout_ms },
                ),
            )
        } else {
            Err(FoundryClientError::SocketError(String::from_str("connection is not open")))
        }
    }

    /// Takes one report of the driver: what the call asks for next.
    pub fn step(&mut self, event: CallEvent) -> (action: CallAction)
        ensures
            final(self)@ == old(self)@.next(event@),
            action@ == old(self)@.reaction(event@),
            old(self)@.well_formed() ==> final(self)@.well_formed(),
    {
        match self.phase {
            CallPhase::Emitting => match event {
                CallEvent::Emitted => {
                    self.phase = CallPhase::Waiting;
                    CallAction::Wait(self.timeout_ms)
                },
                CallEvent::EmitFailed(why) => {
                    self.phase = CallPhase::Finished;
                    CallAction::Fail(FoundryClientError::SocketError(why))
                },
                CallEvent::Acknowledged(payload) => {
                    self.phase = CallPhase::Finished;
                    CallAction::Return(Some(payload))
                },
                CallEvent::Waited(_) => CallAction::Nothing,
            },
            CallPhase::Waiting => match event {
                CallEvent::Acknowledged(payload) => {
                    self.phase = CallPhase::Finished;
                    CallAction::Return(Some(payload))
                },
                CallEvent::Waited(ms) => {
                    let elapsed: u64 = if ms > u64::MAX - self.elapsed_ms {
                        u64::MAX
                    } else {
                        self.elapsed_ms + ms
                    };
                    self.elapsed_ms = elapsed;
                    if elapsed >= self.timeout_ms {
                        self.phase = CallPhase::Finished;
                        CallAction::Return(None)
                    } else {
                        CallAction::Wait(self.timeout_ms - elapsed)
                    }
                },
                _ => CallAction::Nothing,
            },
            CallPhase::Finished => CallAction::Nothing,
        }
    }

    /// Looks into the call's slot after a wait of `waited_ms`: an
    /// acknowledgement found there is consumed and reported, else the wait is.
    pub fn collect(&mut self, pending: &mut PendingCall, waited_ms: u64) -> (action: CallAction)
        ensures
            final(self)@ == old(self)@.next(CallModel::found(old(pending)@, waited_ms)),
            action@ == old(self)@.reaction(CallModel::found(old(pending)@, waited_ms)),
            final(pending)@ is None,
    {
        match pending.take() {
            Some(payload) => self.step(CallEvent::Acknowledged(payload)),
            None => self.step(CallEvent::Waited(waited_ms)),
        }
    }

    /// Whether the call has returned.
    pub fn is_finished(&self) -> (finished: bool)
        ensures
            finished == self@.phase is Finished,
    {
        match self.phase {
            CallPhase::Finished => true,
            _ => false,
        }
    }
}

/// The call after the driver has reported `waits`, one after the other, and
/// no acknowledgement.
pub open spec fn after_waits(call: CallModel, waits: Seq<u64>) -> CallModel
    decreases waits.len(),
{
    if waits.len() == 0 {
        call
    } else {
        after_waits(call, waits.drop_last()).next(CallEventView::Waited(waits.last()))
    }
}

/// The sum of `waits`, held at the largest value where it would pass it.
pub open spec fn total_wait(waits: Seq<u64>) -> u64
    decreases waits.len(),
{
    if waits.len() == 0 {
        0
    } else {
        waited_in_all(total_wait(waits.drop_last()), waits.last())
    }
}

/// A call that is acknowledged before it has returned returns exactly the
/// payload of that acknowledgement, and is over.
pub proof fn law_acknowledged_call_returns_payload(call: CallModel, payload: PayloadValue)
    requires
        !(call.phase is Finished),
    ensures
        call.reaction(CallEventView::Acknowledged(payload)) == CallActionView::Return(
            Some(payload),
        ),
        call.next(CallEventView::Acknowledged(payload)).phase is Finished,
{
}

/// A call returns nothing only on a report of a wait, and only once the waits
/// reported add up to its timeout or more: never earlier.
pub proof fn law_empty_result_not_before_timeout(call: CallModel, event: CallEventView)
    requires
        call.reaction(event) == CallActionView::Return(None),
    ensures
        event is Waited,
        call.phase is Waiting,
        call.next(event).elapsed_ms >= call.timeout_ms,
        call.next(event).elapsed_ms == waited_in_all(call.elapsed_ms, event->Waited_0),
{
}

/// A call that is never acknowledged keeps waiting for as long as the waits
/// reported add up to less than its timeout, and is over as soon as they add
/// up to it.
pub proof fn law_unacknowledged_call_times_out(event: Seq<char>, timeout_ms: u64, waits: Seq<u64>)
    ensures
        ({
            let emitted = CallModel::fresh(event, timeout_ms).next(CallEventView::Emitted);
            let call = after_waits(emitted, waits);
            &&& total_wait(waits) < timeout_ms ==> call.phase is Waiting && call.elapsed_ms
                == total_wait(waits)
            &&& waits.len() > 0 && total_wait(waits) >= timeout_ms ==> call.phase is Finished
        }),
    decreases waits.len(),
{
    let emitted = CallModel::fresh(event, timeout_ms).next(CallEventView::Emitted);
    if waits.len() > 0 {
        law_unacknowledged_call_times_out(event, timeout_ms, waits.drop_last());
        lemma_total_wait_grows(waits);
        lemma_waits_keep_the_call(emitted, waits.drop_last());
        let before = after_waits(emitted, waits.drop_last());
        assert(after_waits(emitted, waits) == before.next(CallEventView::Waited(waits.last())));
        if waits.len() == 1 {
            assert(before == emitted);
        }
    }
}

/// Waits change neither a call's event nor its timeout, and never take a call
/// back from being over.
pub proof fn lemma_waits_keep_the_call(call: CallModel, waits: Seq<u64>)
    ensures
        after_waits(call, waits).event == call.event,
        after_waits(call, waits).timeout_ms == call.timeout_ms,
        call.phase is Waiting ==> !(after_waits(call, waits).phase is Emitting),
    decreases waits.len(),
{
    if waits.len() > 0 {
        lemma_waits_keep_the_call(call, waits.drop_last());
    }
}

/// Each further wait leaves the total where it was or makes it larger.
pub proof fn lemma_total_wait_grows(waits: Seq<u64>)
    requires
        waits.len() > 0,
    ensures
        total_wait(waits.drop_last()) <= total_wait(waits),
{
}

/// Once a call is over, nothing reported to it changes it or asks anything of
/// the driver: an acknowledgement that comes late is dropped.
pub proof fn law_finished_call_ignores_events(call: CallModel, event: CallEventView)
    requires
        call.phase is Finished,
    ensures
        call.next(event) == call,
        call.reaction(event) == CallActionView::Nothing,
{
}

/// A slot keeps the first acknowledgement written to it, whatever is written
/// afterwards.
pub proof fn law_first_write_wins(first: PayloadValue, later: PayloadValue)
    ensures
        slot_after(slot_after(None, first), later) == Some(first),
{
}

/// Two calls under way do not touch each other: whatever is reported to
/// one, the other returns the payload of its own acknowledgement.
pub proof fn law_calls_keep_their_own_payload(
    one: CallModel,
    other: CallModel,
    to_one: PayloadValue,
    to_other: PayloadValue,
)
    requires
        !(one.phase is Finished),
        !(other.phase is Finished),
    ensures
        one.reaction(CallEventView::Acknowledged(to_one)) == CallActionView::Return(Some(to_one)),
        other.reaction(CallEventView::Acknowledged(to_other)) == CallActionView::Return(
            Some(to_other),
        ),
        to_one != to_other ==> one.reaction(CallEventView::Acknowledged(to_one))
            != other.reaction(CallEventView::Acknowledged(to_other)),
{
}

} // verus!
