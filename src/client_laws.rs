use vstd::prelude::*;

use crate::app_config::Protocol;
use crate::client::{
    client_start, client_step, end_attempt, finish, ClientAction, ClientEnd, ClientEvent,
    ClientModel, ClientPhase,
};
use crate::round_trip::AttemptOutcome;

verus! {

/// An attempt is under way: its socket or stream is in use.
pub open spec fn in_attempt(p: ClientPhase) -> bool {
    p is Sending || p is Receiving
}

/// What holds of every state a client run reaches.
pub open spec fn client_inv(s: ClientModel) -> bool {
    // a bounded run has made, or still owes, exactly the requested attempts
    &&& s.count != 0 ==> s.attempts + s.remaining == s.count
    &&& s.count == 0 ==> s.remaining == 0
    // an attempt starts only while one is owed
    &&& s.count != 0 && (in_attempt(s.phase) || s.phase is Binding || s.phase is Connecting)
        ==> s.remaining > 0
    &&& s.phase == ClientPhase::Finished(ClientEnd::Exhausted) ==> s.remaining == 0
    // an unbounded run never runs out
    &&& s.count == 0 ==> s.phase != ClientPhase::Finished(ClientEnd::Exhausted)
    &&& s.protocol == Protocol::Tcp ==> {
        &&& s.phase !is Binding
        &&& s.bound_for is None
        &&& s.connected == (in_attempt(s.phase) || s.phase is Pausing)
        &&& s.phase is Connecting ==> s.attempts == 0
    }
    &&& s.protocol == Protocol::Udp ==> {
        &&& s.phase !is Connecting
        &&& !s.connected
        &&& s.bound_for == (if in_attempt(s.phase) {
            Some(s.attempts)
        } else {
            None
        })
    }
}

/// The state after each event in turn.
pub open spec fn run(s: ClientModel, events: Seq<ClientEvent>) -> ClientModel
    decreases events.len(),
{
    if events.len() == 0 {
        s
    } else {
        run(client_step(s, events[0]).0, events.drop_first())
    }
}

/// How many of the actions taken on the events ask to open a stream.
pub open spec fn connects(s: ClientModel, events: Seq<ClientEvent>) -> nat
    decreases events.len(),
{
    if events.len() == 0 {
        0
    } else {
        let (t, a) = client_step(s, events[0]);
        (if a is Connect {
            1nat
        } else {
            0nat
        }) + connects(t, events.drop_first())
    }
}

/// A fresh run satisfies the invariant.
pub proof fn lemma_start_inv(protocol: Protocol, payload: Seq<u8>, count: u32, timeout_ms: u64)
    ensures
        client_inv(client_start(protocol, payload, count, timeout_ms).0),
{
}

/// Every decision keeps the invariant.
pub proof fn lemma_step_inv(s: ClientModel, e: ClientEvent)
    requires
        client_inv(s),
    ensures
        client_inv(client_step(s, e).0),
        client_step(s, e).0.count == s.count,
        client_step(s, e).0.protocol == s.protocol,
        client_step(s, e).0.payload == s.payload,
{
}

/// The invariant holds after any sequence of events.
pub proof fn lemma_run_inv(s: ClientModel, events: Seq<ClientEvent>)
    requires
        client_inv(s),
    ensures
        client_inv(run(s, events)),
        run(s, events).count == s.count,
        run(s, events).protocol == s.protocol,
        run(s, events).payload == s.payload,
    decreases events.len(),
{
    if events.len() > 0 {
        lemma_step_inv(s, events[0]);
        lemma_run_inv(client_step(s, events[0]).0, events.drop_first());
    }
}

/// Every attempt counts once, whatever its outcome: an event ends an attempt
/// (and its outcome is reported) exactly when the attempt count of a bounded
/// run goes up by one; otherwise the count stays.
pub proof fn lemma_each_attempt_counts(s: ClientModel, e: ClientEvent)
    requires
        client_inv(s),
        s.count != 0,
    ensures
        client_step(s, e).1 is Pause ==> client_step(s, e).0.attempts == s.attempts + 1,
        !(client_step(s, e).1 is Pause) ==> client_step(s, e).0.attempts == s.attempts,
{
}

/// A run of `count > 0` attempts makes at most `count` of them, ends by
/// exhaustion only once all `count` are made, and after the pause that
/// follows the last one it ends; before that, each pause leads to another attempt.
/// A run of count 0 never ends by exhaustion.
pub proof fn lemma_count_semantics(
    protocol: Protocol,
    payload: Seq<u8>,
    count: u32,
    timeout_ms: u64,
    events: Seq<ClientEvent>,
)
    ensures
        ({
            let s = run(client_start(protocol, payload, count, timeout_ms).0, events);
            &&& count != 0 ==> s.attempts <= count
            &&& count != 0 && s.phase == ClientPhase::Finished(ClientEnd::Exhausted) ==> s.attempts
                == count
            &&& count != 0 && s.phase is Pausing && s.attempts == count ==> client_step(
                s,
                ClientEvent::PauseElapsed,
            ) == finish(s, ClientEnd::Exhausted)
            &&& count != 0 && s.phase is Pausing && s.attempts < count ==> !(client_step(
                s,
                ClientEvent::PauseElapsed,
            ).0.phase is Finished)
            &&& count == 0 ==> s.phase != ClientPhase::Finished(ClientEnd::Exhausted)
            &&& count == 0 && s.phase is Pausing ==> !(client_step(
                s,
                ClientEvent::PauseElapsed,
            ).0.phase is Finished)
        }),
{
    let s0 = client_start(protocol, payload, count, timeout_ms).0;
    lemma_start_inv(protocol, payload, count, timeout_ms);
    lemma_run_inv(s0, events);
}

/// A wait that times out ends the attempt as `TimedOut` and the run goes on
/// to its pause rather than stopping.
pub proof fn lemma_timeout_moves_on(s: ClientModel)
    ensures
        s.phase is Receiving ==> client_step(s, ClientEvent::ReceiveTimedOut) == end_attempt(
            s,
            AttemptOutcome::TimedOut,
        ),
        s.phase is Sending ==> client_step(s, ClientEvent::SendTimedOut) == end_attempt(
            s,
            AttemptOutcome::TimedOut,
        ),
        in_attempt(s.phase) ==> end_attempt(s, AttemptOutcome::TimedOut).0.phase is Pausing,
{
}

/// No decision ever asks to open a stream: a stream run opens its one
/// stream as its first action and then reuses it, however many attempts follow.
pub proof fn lemma_single_connect(
    payload: Seq<u8>,
    count: u32,
    timeout_ms: u64,
    events: Seq<ClientEvent>,
)
    ensures
        client_start(Protocol::Tcp, payload, count, timeout_ms).1 is Connect,
        connects(client_start(Protocol::Tcp, payload, count, timeout_ms).0, events) == 0,
{
    lemma_no_reconnect(client_start(Protocol::Tcp, payload, count, timeout_ms).0, events);
}

/// From any state, no event leads to a request to open a stream.
pub proof fn lemma_no_reconnect(s: ClientModel, events: Seq<ClientEvent>)
    ensures
        connects(s, events) == 0,
    decreases events.len(),
{
    if events.len() > 0 {
        lemma_no_reconnect(client_step(s, events[0]).0, events.drop_first());
    }
}

/// A datagram run takes a reply only on the socket bound for the attempt
/// under way; that socket is released when the attempt ends, and a reply
/// that comes while no socket is bound for the current attempt changes
/// nothing and yields no outcome.
pub proof fn lemma_datagram_isolation(s: ClientModel, reply: Vec<u8>)
    requires
        client_inv(s),
        s.protocol == Protocol::Udp,
    ensures
        client_step(s, ClientEvent::Received(reply)).1 is Pause ==> {
            &&& s.bound_for == Some(s.attempts)
            &&& client_step(s, ClientEvent::Received(reply)).0.bound_for is None
            &&& client_step(s, ClientEvent::Received(reply)).1->release_socket
        },
        s.bound_for != Some(s.attempts) ==> client_step(s, ClientEvent::Received(reply)) == (
            s,
            ClientAction::Ignore,
        ),
{
}

/// The interrupt ends a run that has not ended, whatever it is waiting for,
/// with no further wait; an ended run takes no further action.
pub proof fn lemma_cancel_is_prompt(s: ClientModel, e: ClientEvent)
    ensures
        !(s.phase is Finished) ==> client_step(s, ClientEvent::Cancelled) == finish(
            s,
            ClientEnd::Cancelled,
        ),
        s.phase is Finished ==> client_step(s, e) == (s, ClientAction::Ignore),
{
}

} // verus!
