use vstd::prelude::*;
use vstd::utf8::encode_utf8;

use crate::app_config::{AppConfig, Protocol};
use crate::round_trip::{datagram_window, judge, verify_datagram, verify_reply, AttemptOutcome};

verus! {

/// Delay between the end of one attempt and the start of the next, in milliseconds.
pub const PAUSE_MS: u64 = 100;

/// Why a client run ended.
#[derive(Clone, Copy, Debug, PartialEq, Eq, Structural)]
pub enum ClientEnd {
    /// Every requested attempt was made.
    Exhausted,
    /// The interrupt fired.
    Cancelled,
    /// The stream to the peer could not be opened in time.
    ConnectFailed,
    /// A datagram socket could not be bound.
    BindFailed,
    /// Writing to the stream failed; the stream is no longer trusted.
    SendFailed,
}

/// Where a client run stands.
#[derive(Clone, Copy, Debug, PartialEq, Eq, Structural)]
pub enum ClientPhase {
    /// Opening the one stream of a stream run.
    Connecting,
    /// Binding the socket of the next datagram attempt.
    Binding,
    /// Writing the payload.
    Sending,
    /// Waiting for the reply.
    Receiving,
    /// Waiting out the delay after an attempt.
    Pausing,
    Finished(ClientEnd),
}

/// What the driver of a client run reports back: the result of the last
/// action, or the interrupt.
#[derive(Debug)]
pub enum ClientEvent {
    Connected,
    ConnectFailed,
    Bound,
    BindFailed,
    Sent,
    SendFailed,
    SendTimedOut,
    /// The reply: the bytes read back from the stream, or the datagram received.
    Received(Vec<u8>),
    ReceiveFailed,
    ReceiveTimedOut,
    PauseElapsed,
    Cancelled,
}

/// What the driver of a client run is asked to do next.
#[derive(Clone, Copy, Debug, PartialEq, Eq, Structural)]
pub enum ClientAction {
    /// Open the stream to the peer, giving up after `timeout_ms`.
    Connect { timeout_ms: u64 },
    /// Bind a fresh datagram socket for this attempt alone.
    Bind,
    /// Send the payload as one datagram.
    Send,
    /// Write the whole payload to the stream, giving up after `timeout_ms`.
    SendWithin { timeout_ms: u64 },
    /// Wait up to `timeout_ms` for a reply of `len` bytes.
    Receive { len: usize, timeout_ms: u64 },
    /// The attempt is over: report `outcome`, drop the attempt's socket when
    /// `release_socket`, then wait `delay_ms`.
    Pause { outcome: AttemptOutcome, release_socket: bool, delay_ms: u64 },
    /// Stop the run, closing what is open.
    Finish(ClientEnd),
    /// The event does not belong to the current phase: nothing to do.
    Ignore,
}

/// Abstract state of a client run.
pub struct ClientModel {
    pub protocol: Protocol,
    pub payload: Seq<u8>,
    pub timeout_ms: u64,
    /// Attempts requested; 0 asks for attempts until the interrupt.
    pub count: u32,
    pub remaining: u32,
    /// Attempts completed, whatever their outcome.
    pub attempts: u64,
    pub phase: ClientPhase,
    /// A stream run holds its stream open.
    pub connected: bool,
    /// The attempt that the datagram socket now open was bound for.
    pub bound_for: Option<u64>,
}

/// State of a client run, advanced by `step`.
#[derive(Debug)]
pub struct ClientSession {
    pub protocol: Protocol,
    pub payload: Vec<u8>,
    pub timeout_ms: u64,
    pub count: u32,
    pub remaining: u32,
    pub attempts: u64,
    pub phase: ClientPhase,
    pub connected: bool,
    pub bound_for: Option<u64>,
}

impl View for ClientSession {
    type V = ClientModel;

    open spec fn view(&self) -> ClientModel {
        ClientModel {
            protocol: self.protocol,
            payload: self.payload@,
            timeout_ms: self.timeout_ms,
            count: self.count,
            remaining: self.remaining,
            attempts: self.attempts,
            phase: self.phase,
            connected: self.connected,
            bound_for: self.bound_for,
        }
    }
}

/// A fresh run and the first thing its driver does: open the stream, or
/// bind the socket of the first datagram attempt.
pub open spec fn client_start(protocol: Protocol, payload: Seq<u8>, count: u32, timeout_ms: u64) -> (
    ClientModel,
    ClientAction,
) {
    let s = ClientModel {
        protocol,
        payload,
        timeout_ms,
        count,
        remaining: count,
        attempts: 0,
        phase: if protocol == Protocol::Tcp {
            ClientPhase::Connecting
        } else {
            ClientPhase::Binding
        },
        connected: false,
        bound_for: None,
    };
    if protocol == Protocol::Tcp {
        (s, ClientAction::Connect { timeout_ms })
    } else {
        (s, ClientAction::Bind)
    }
}

pub open spec fn finish(s: ClientModel, end: ClientEnd) -> (ClientModel, ClientAction) {
    (
        ClientModel { phase: ClientPhase::Finished(end), connected: false, bound_for: None, ..s },
        ClientAction::Finish(end),
    )
}

pub open spec fn send_action(s: ClientModel) -> ClientAction {
    if s.protocol == Protocol::Tcp {
        ClientAction::SendWithin { timeout_ms: s.timeout_ms }
    } else {
        ClientAction::Send
    }
}

/// Verdict on a reply under the run's transport.
pub open spec fn reply_outcome(s: ClientModel, reply: Seq<u8>) -> AttemptOutcome {
    if s.protocol == Protocol::Tcp {
        judge(s.payload, reply)
    } else {
        judge(s.payload, datagram_window(s.payload.len(), reply))
    }
}

/// The attempt under way ends with `o`: it is counted, a datagram socket is
/// released, and the pause begins.
pub open spec fn end_attempt(s: ClientModel, o: AttemptOutcome) -> (ClientModel, ClientAction) {
    let udp = s.protocol == Protocol::Udp;
    (
        ClientModel {
            remaining: if s.remaining == 0 {
                0
            } else {
                (s.remaining - 1) as u32
            },
            attempts: if s.attempts == u64::MAX {
                s.attempts
            } else {
                (s.attempts + 1) as u64
            },
            phase: ClientPhase::Pausing,
            bound_for: if udp {
                None
            } else {
                s.bound_for
            },
            ..s
        },
        ClientAction::Pause { outcome: o, release_socket: udp, delay_ms: PAUSE_MS },
    )
}

/// The pause is over: the run ends once a bounded count is used up, else the
/// next attempt starts.
pub open spec fn after_pause(s: ClientModel) -> (ClientModel, ClientAction) {
    if s.count != 0 && s.remaining == 0 {
        finish(s, ClientEnd::Exhausted)
    } else if s.protocol == Protocol::Tcp {
        (ClientModel { phase: ClientPhase::Sending, ..s }, send_action(s))
    } else {
        (ClientModel { phase: ClientPhase::Binding, ..s }, ClientAction::Bind)
    }
}

/// The decision a client run takes on one event.
pub open spec fn client_step(s: ClientModel, e: ClientEvent) -> (ClientModel, ClientAction) {
    if s.phase is Finished {
        (s, ClientAction::Ignore)
    } else if e is Cancelled {
        finish(s, ClientEnd::Cancelled)
    } else {
        match s.phase {
            ClientPhase::Connecting => match e {
                ClientEvent::Connected => (
                    ClientModel { phase: ClientPhase::Sending, connected: true, ..s },
                    send_action(s),
                ),
                ClientEvent::ConnectFailed => finish(s, ClientEnd::ConnectFailed),
                _ => (s, ClientAction::Ignore),
            },
            ClientPhase::Binding => match e {
                ClientEvent::Bound => (
                    ClientModel {
                        phase: ClientPhase::Sending,
                        bound_for: Some(s.attempts),
                        ..s
                    },
                    send_action(s),
                ),
                ClientEvent::BindFailed => finish(s, ClientEnd::BindFailed),
                _ => (s, ClientAction::Ignore),
            },
            ClientPhase::Sending => match e {
                ClientEvent::Sent => (
                    ClientModel { phase: ClientPhase::Receiving, ..s },
                    ClientAction::Receive {
                        len: s.payload.len() as usize,
                        timeout_ms: s.timeout_ms,
                    },
                ),
                ClientEvent::SendFailed => if s.protocol == Protocol::Tcp {
                    finish(s, ClientEnd::SendFailed)
                } else {
                    end_attempt(s, AttemptOutcome::SendFailed)
                },
                ClientEvent::SendTimedOut => end_attempt(s, AttemptOutcome::TimedOut),
                _ => (s, ClientAction::Ignore),
            },
            ClientPhase::Receiving => match e {
                ClientEvent::Received(reply) => end_attempt(s, reply_outcome(s, reply@)),
                ClientEvent::ReceiveFailed => end_attempt(s, AttemptOutcome::ReceiveFailed),
                ClientEvent::ReceiveTimedOut => end_attempt(s, AttemptOutcome::TimedOut),
                _ => (s, ClientAction::Ignore),
            },
            ClientPhase::Pausing => match e {
                ClientEvent::PauseElapsed => after_pause(s),
                _ => (s, ClientAction::Ignore),
            },
            ClientPhase::Finished(_) => (s, ClientAction::Ignore),
        }
    }
}

impl ClientSession {
    /// Starts a run of `count` attempts (0: until the interrupt) that sends
    /// `payload` over `protocol`, each wait bounded by `timeout_ms`; returns
    /// the run and its first action.
    pub fn start(protocol: Protocol, payload: Vec<u8>, count: u32, timeout_ms: u64) -> (r: (
        ClientSession,
        ClientAction,
    ))
        ensures
            (r.0@, r.1) == client_start(protocol, payload@, count, timeout_ms),
    {
        let tcp = protocol == Protocol::Tcp;
        let session = ClientSession {
            protocol,
            payload,
            timeout_ms,
            count,
            remaining: count,
            attempts: 0,
            phase: if tcp {
                ClientPhase::Connecting
            } else {
                ClientPhase::Binding
            },
            connected: false,
            bound_for: None,
        };
        if tcp {
            (session, ClientAction::Connect { timeout_ms })
        } else {
            (session, ClientAction::Bind)
        }
    }

    /// Starts the run that a configuration describes; the payload is the
    /// UTF-8 encoding of the configured text.
    pub fn from_config(config: &AppConfig) -> (r: (ClientSession, ClientAction))
        ensures
            (r.0@, r.1) == client_start(
                config.protocol,
                encode_utf8(config.data_payload@),
                config.count,
                config.timeout_ms,
            ),
    {
        let payload = config.data_payload.as_str().as_bytes_vec();
        ClientSession::start(config.protocol, payload, config.count, config.timeout_ms)
    }

    fn finish_with(&mut self, end: ClientEnd) -> (r: ClientAction)
        ensures
            (final(self)@, r) == finish(old(self)@, end),
    {
        self.phase = ClientPhase::Finished(end);
        self.connected = false;
        self.bound_for = None;
        ClientAction::Finish(end)
    }

    fn send_now(&self) -> (r: ClientAction)
        ensures
            r == send_action(self@),
    {
        if self.protocol == Protocol::Tcp {
            ClientAction::SendWithin { timeout_ms: self.timeout_ms }
        } else {
            ClientAction::Send
        }
    }

    fn end_with(&mut self, o: AttemptOutcome) -> (r: ClientAction)
        ensures
            (final(self)@, r) == end_attempt(old(self)@, o),
    {
        let udp = self.protocol == Protocol::Udp;
        self.remaining = self.remaining.saturating_sub(1);
        self.attempts = self.attempts.saturating_add(1);
        self.phase = ClientPhase::Pausing;
        if udp {
            self.bound_for = None;
        }
        ClientAction::Pause { outcome: o, release_socket: udp, delay_ms: PAUSE_MS }
    }

    /// Takes the decision that `event` calls for, and returns the next action.
    pub fn step(&mut self, event: ClientEvent) -> (r: ClientAction)
        ensures
            (final(self)@, r) == client_step(old(self)@, event),
    {
        if let ClientPhase::Finished(_) = self.phase {
            return ClientAction::Ignore;
        }
        if let ClientEvent::Cancelled = event {
            return self.finish_with(ClientEnd::Cancelled);
        }
        match self.phase {
            ClientPhase::Connecting => match event {
                ClientEvent::Connected => {
                    self.phase = ClientPhase::Sending;
                    self.connected = true;
                    self.send_now()
                },
                ClientEvent::ConnectFailed => self.finish_with(ClientEnd::ConnectFailed),
                _ => ClientAction::Ignore,
            },
            ClientPhase::Binding => match event {
                ClientEvent::Bound => {
                    self.phase = ClientPhase::Sending;
                    self.bound_for = Some(self.attempts);
                    self.send_now()
                },
                ClientEvent::BindFailed => self.finish_with(ClientEnd::BindFailed),
                _ => ClientAction::Ignore,
            },
            ClientPhase::Sending => match event {
                ClientEvent::Sent => {
                    self.phase = ClientPhase::Receiving;
                    ClientAction::Receive { len: self.payload.len(), timeout_ms: self.timeout_ms }
                },
                ClientEvent::SendFailed => {
                    if self.protocol == Protocol::Tcp {
                        self.finish_with(ClientEnd::SendFailed)
                    } else {
                        self.end_with(AttemptOutcome::SendFailed)
                    }
                },
                ClientEvent::SendTimedOut => self.end_with(AttemptOutcome::TimedOut),
                _ => ClientAction::Ignore,
            },
            ClientPhase::Receiving => match event {
                ClientEvent::Received(reply) => {
                    let o = if self.protocol == Protocol::Tcp {
                        verify_reply(self.payload.as_slice(), reply.as_slice())
                    } else {
                        verify_datagram(self.payload.as_slice(), reply.as_slice())
                    };
                    self.end_with(o)
                },
                ClientEvent::ReceiveFailed => self.end_with(AttemptOutcome::ReceiveFailed),
                ClientEvent::ReceiveTimedOut => self.end_with(AttemptOutcome::TimedOut),
                _ => ClientAction::Ignore,
            },
            ClientPhase::Pausing => match event {
                ClientEvent::PauseElapsed => {
                    if self.count != 0 && self.remaining == 0 {
                        self.finish_with(ClientEnd::Exhausted)
                    } else if self.protocol == Protocol::Tcp {
                        self.phase = ClientPhase::Sending;
                        self.send_now()
                    } else {
                        self.phase = ClientPhase::Binding;
                        ClientAction::Bind
                    }
                },
                _ => ClientAction::Ignore,
            },
            ClientPhase::Finished(_) => ClientAction::Ignore,
        }
    }
}

} // verus!
