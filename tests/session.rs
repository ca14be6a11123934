use echo_tool::app_config::Protocol;
use echo_tool::client::{ClientAction, ClientEnd, ClientEvent, ClientPhase, ClientSession, PAUSE_MS};
use echo_tool::round_trip::{verify_datagram, verify_reply, AttemptOutcome};

/// Drives a run against a peer that echoes everything, stopping after `limit`
/// actions or at the end of the run; `cancel_after` attempts fires the interrupt.
fn drive(
    protocol: Protocol,
    payload: &[u8],
    count: u32,
    cancel_after: Option<u64>,
    limit: usize,
) -> (ClientSession, Vec<ClientAction>) {
    let (mut s, first) = ClientSession::start(protocol, payload.to_vec(), count, 1000);
    let mut actions = vec![first];
    let mut action = first;
    while actions.len() < limit {
        let event = match action {
            ClientAction::Connect { .. } => ClientEvent::Connected,
            ClientAction::Bind => ClientEvent::Bound,
            ClientAction::Send | ClientAction::SendWithin { .. } => ClientEvent::Sent,
            ClientAction::Receive { len, .. } => ClientEvent::Received(payload[..len].to_vec()),
            ClientAction::Pause { .. } => {
                if cancel_after == Some(s.attempts) {
                    ClientEvent::Cancelled
                } else {
                    ClientEvent::PauseElapsed
                }
            }
            ClientAction::Finish(_) | ClientAction::Ignore => break,
        };
        action = s.step(event);
        actions.push(action);
    }
    (s, actions)
}

fn matched(actions: &[ClientAction]) -> usize {
    actions
        .iter()
        .filter(|a| matches!(a, ClientAction::Pause { outcome: AttemptOutcome::Matched(_), .. }))
        .count()
}

#[test]
fn tcp_three_attempts_one_connect() {
    let payload = b"Hello World!";
    let (s, actions) = drive(Protocol::Tcp, payload, 3, None, 1000);
    let connects = actions.iter().filter(|a| matches!(a, ClientAction::Connect { .. })).count();
    assert_eq!(connects, 1);
    assert_eq!(matched(&actions), 3);
    for a in &actions {
        if let ClientAction::Pause { outcome, release_socket, delay_ms } = a {
            assert_eq!(*outcome, AttemptOutcome::Matched(12));
            assert!(!release_socket);
            assert_eq!(*delay_ms, PAUSE_MS);
        }
    }
    assert_eq!(*actions.last().unwrap(), ClientAction::Finish(ClientEnd::Exhausted));
    assert_eq!(s.attempts, 3);
    assert_eq!(s.phase, ClientPhase::Finished(ClientEnd::Exhausted));
    assert!(!s.connected);
}

#[test]
fn udp_unbounded_until_cancelled() {
    let payload = b"Hello World!";
    let (mut s, actions) = drive(Protocol::Udp, payload, 0, Some(4), 1000);
    let binds = actions.iter().filter(|a| matches!(a, ClientAction::Bind)).count();
    let releases = actions
        .iter()
        .filter(|a| matches!(a, ClientAction::Pause { release_socket: true, .. }))
        .count();
    assert_eq!(binds, 4);
    assert_eq!(releases, 4);
    assert_eq!(matched(&actions), 4);
    assert_eq!(*actions.last().unwrap(), ClientAction::Finish(ClientEnd::Cancelled));
    assert_eq!(s.attempts, 4);
    // nothing follows the interrupt
    assert_eq!(s.step(ClientEvent::PauseElapsed), ClientAction::Ignore);
    assert_eq!(s.step(ClientEvent::Received(payload.to_vec())), ClientAction::Ignore);
    assert_eq!(s.attempts, 4);
}

#[test]
fn unbounded_run_keeps_going() {
    let (s, actions) = drive(Protocol::Udp, b"abc", 0, None, 500);
    assert!(!matches!(s.phase, ClientPhase::Finished(_)));
    assert!(matched(&actions) >= 100);
}

#[test]
fn bounded_run_counts_failures_as_attempts() {
    let (mut s, a) = ClientSession::start(Protocol::Udp, b"xy".to_vec(), 2, 500);
    assert_eq!(a, ClientAction::Bind);
    assert_eq!(s.step(ClientEvent::Bound), ClientAction::Send);
    assert_eq!(
        s.step(ClientEvent::SendFailed),
        ClientAction::Pause { outcome: AttemptOutcome::SendFailed, release_socket: true, delay_ms: 100 }
    );
    assert_eq!(s.step(ClientEvent::PauseElapsed), ClientAction::Bind);
    assert_eq!(s.step(ClientEvent::Bound), ClientAction::Send);
    assert_eq!(s.step(ClientEvent::Sent), ClientAction::Receive { len: 2, timeout_ms: 500 });
    assert_eq!(
        s.step(ClientEvent::ReceiveFailed),
        ClientAction::Pause { outcome: AttemptOutcome::ReceiveFailed, release_socket: true, delay_ms: 100 }
    );
    assert_eq!(s.step(ClientEvent::PauseElapsed), ClientAction::Finish(ClientEnd::Exhausted));
    assert_eq!(s.attempts, 2);
    assert_eq!(s.remaining, 0);
}

#[test]
fn timeout_moves_to_next_attempt() {
    let (mut s, a) = ClientSession::start(Protocol::Tcp, b"ping".to_vec(), 2, 300);
    assert_eq!(a, ClientAction::Connect { timeout_ms: 300 });
    assert_eq!(s.step(ClientEvent::Connected), ClientAction::SendWithin { timeout_ms: 300 });
    assert_eq!(s.step(ClientEvent::Sent), ClientAction::Receive { len: 4, timeout_ms: 300 });
    assert_eq!(
        s.step(ClientEvent::ReceiveTimedOut),
        ClientAction::Pause { outcome: AttemptOutcome::TimedOut, release_socket: false, delay_ms: 100 }
    );
    assert_eq!(s.step(ClientEvent::PauseElapsed), ClientAction::SendWithin { timeout_ms: 300 });
    assert_eq!(
        s.step(ClientEvent::SendTimedOut),
        ClientAction::Pause { outcome: AttemptOutcome::TimedOut, release_socket: false, delay_ms: 100 }
    );
    assert_eq!(s.step(ClientEvent::PauseElapsed), ClientAction::Finish(ClientEnd::Exhausted));
}

#[test]
fn tcp_send_failure_ends_run() {
    let (mut s, _) = ClientSession::start(Protocol::Tcp, b"ping".to_vec(), 5, 300);
    s.step(ClientEvent::Connected);
    assert_eq!(s.step(ClientEvent::SendFailed), ClientAction::Finish(ClientEnd::SendFailed));
    assert_eq!(s.attempts, 0);
    assert!(!s.connected);
}

#[test]
fn connect_failure_makes_no_attempt() {
    let (mut s, _) = ClientSession::start(Protocol::Tcp, b"ping".to_vec(), 5, 300);
    assert_eq!(s.step(ClientEvent::ConnectFailed), ClientAction::Finish(ClientEnd::ConnectFailed));
    assert_eq!(s.attempts, 0);
    assert_eq!(s.step(ClientEvent::Connected), ClientAction::Ignore);
}

#[test]
fn bind_failure_ends_run() {
    let (mut s, _) = ClientSession::start(Protocol::Udp, b"ping".to_vec(), 0, 300);
    assert_eq!(s.step(ClientEvent::BindFailed), ClientAction::Finish(ClientEnd::BindFailed));
}

#[test]
fn cancel_during_receive_is_immediate() {
    let (mut s, _) = ClientSession::start(Protocol::Tcp, b"ping".to_vec(), 0, 300);
    s.step(ClientEvent::Connected);
    s.step(ClientEvent::Sent);
    assert_eq!(s.phase, ClientPhase::Receiving);
    assert_eq!(s.step(ClientEvent::Cancelled), ClientAction::Finish(ClientEnd::Cancelled));
    assert_eq!(s.attempts, 0);
}

#[test]
fn stale_reply_between_attempts_is_ignored() {
    let (mut s, _) = ClientSession::start(Protocol::Udp, b"one".to_vec(), 3, 300);
    s.step(ClientEvent::Bound);
    s.step(ClientEvent::Sent);
    s.step(ClientEvent::ReceiveTimedOut);
    assert_eq!(s.bound_for, None);
    // the late reply to the first attempt arrives during the pause
    assert_eq!(s.step(ClientEvent::Received(b"one".to_vec())), ClientAction::Ignore);
    assert_eq!(s.step(ClientEvent::PauseElapsed), ClientAction::Bind);
    assert_eq!(s.step(ClientEvent::Received(b"one".to_vec())), ClientAction::Ignore);
    s.step(ClientEvent::Bound);
    assert_eq!(s.bound_for, Some(1));
    assert_eq!(s.attempts, 1);
}

#[test]
fn mismatched_reply_is_reported_and_run_goes_on() {
    let (mut s, _) = ClientSession::start(Protocol::Tcp, b"abcd".to_vec(), 2, 300);
    s.step(ClientEvent::Connected);
    s.step(ClientEvent::Sent);
    assert_eq!(
        s.step(ClientEvent::Received(b"abce".to_vec())),
        ClientAction::Pause { outcome: AttemptOutcome::Mismatched(4), release_socket: false, delay_ms: 100 }
    );
    assert_eq!(s.step(ClientEvent::PauseElapsed), ClientAction::SendWithin { timeout_ms: 300 });
}

#[test]
fn long_datagram_is_cut_to_payload() {
    let (mut s, _) = ClientSession::start(Protocol::Udp, b"abc".to_vec(), 1, 300);
    s.step(ClientEvent::Bound);
    s.step(ClientEvent::Sent);
    assert_eq!(
        s.step(ClientEvent::Received(b"abcdef".to_vec())),
        ClientAction::Pause { outcome: AttemptOutcome::Matched(3), release_socket: true, delay_ms: 100 }
    );
}

#[test]
fn reply_verdicts() {
    assert_eq!(verify_reply(b"Hello", b"Hello"), AttemptOutcome::Matched(5));
    assert_eq!(verify_reply(b"Hello", b"Hellp"), AttemptOutcome::Mismatched(5));
    assert_eq!(verify_reply(b"", b""), AttemptOutcome::Matched(0));
    assert_eq!(verify_datagram(b"Hello", b"Hello world"), AttemptOutcome::Matched(5));
    assert_eq!(verify_datagram(b"Hello", b"Hel"), AttemptOutcome::Mismatched(3));
    assert_eq!(verify_datagram(b"Hello", b"Jello world"), AttemptOutcome::Mismatched(5));
}
