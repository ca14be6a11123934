use vstd::prelude::*;

use crate::serving::{bump, ServerEnd, MAX_CHUNK};

verus! {

/// What the driver of the accept loop reports back.
#[derive(Clone, Copy, Debug, PartialEq, Eq, Structural)]
pub enum AcceptEvent {
    Accepted,
    AcceptFailed,
    Cancelled,
}

/// What the driver of the accept loop is asked to do next.
#[derive(Clone, Copy, Debug, PartialEq, Eq, Structural)]
pub enum AcceptAction {
    /// Hand the new connection to a handler of its own, started with
    /// `EchoConnection::new`, and wait for the next connection.
    SpawnAndAccept,
    /// Stop accepting; handlers already running are left to end on their own.
    Stop(ServerEnd),
    Ignore,
}

/// The accept loop of the stream server.
#[derive(Clone, Copy, Debug, PartialEq, Eq, Structural)]
pub struct TcpAcceptor {
    /// Connections accepted so far.
    pub connections: u64,
    pub stopped: bool,
    pub end: ServerEnd,
}

impl TcpAcceptor {
    /// The accept loop once its listener is bound.
    pub fn new() -> (r: TcpAcceptor)
        ensures
            r.connections == 0,
            !r.stopped,
    {
        TcpAcceptor { connections: 0, stopped: false, end: ServerEnd::Cancelled }
    }

    /// Takes the decision that `event` calls for: every accepted connection
    /// gets its own handler while acceptance goes on; an accept error or the
    /// interrupt stops the loop.
    pub fn step(&mut self, event: AcceptEvent) -> (r: AcceptAction)
        ensures
            old(self).stopped ==> *final(self) == *old(self) && r == AcceptAction::Ignore,
            !old(self).stopped ==> match event {
                AcceptEvent::Accepted => r == AcceptAction::SpawnAndAccept && final(self).connections
                    == bump(old(self).connections) && !final(self).stopped,
                AcceptEvent::AcceptFailed => r == AcceptAction::Stop(ServerEnd::AcceptFailed)
                    && final(self).stopped && final(self).end == ServerEnd::AcceptFailed
                    && final(self).connections == old(self).connections,
                AcceptEvent::Cancelled => r == AcceptAction::Stop(ServerEnd::Cancelled)
                    && final(self).stopped && final(self).end == ServerEnd::Cancelled
                    && final(self).connections == old(self).connections,
            },
    {
        if self.stopped {
            return AcceptAction::Ignore;
        }
        match event {
            AcceptEvent::Accepted => {
                self.connections = self.connections.saturating_add(1);
                AcceptAction::SpawnAndAccept
            },
            AcceptEvent::AcceptFailed => {
                self.stopped = true;
                self.end = ServerEnd::AcceptFailed;
                AcceptAction::Stop(ServerEnd::AcceptFailed)
            },
            AcceptEvent::Cancelled => {
                self.stopped = true;
                self.end = ServerEnd::Cancelled;
                AcceptAction::Stop(ServerEnd::Cancelled)
            },
        }
    }
}

/// Why a connection handler ended.
#[derive(Clone, Copy, Debug, PartialEq, Eq, Structural)]
pub enum ConnectionEnd {
    /// A read returned no bytes: the peer closed its side.
    PeerClosed,
    ReadFailed,
    WriteFailed,
}

/// Where a connection handler stands.
#[derive(Clone, Copy, Debug, PartialEq, Eq, Structural)]
pub enum ConnectionPhase {
    Reading,
    Writing,
    Closed(ConnectionEnd),
}

/// What the driver of a connection handler reports back.
#[derive(Debug)]
pub enum ConnectionEvent {
    /// A read completed with these bytes; none means the peer closed.
    Read(Vec<u8>),
    ReadFailed,
    Written,
    WriteFailed,
}

/// What the driver of a connection handler is asked to do next.
#[derive(Debug)]
pub enum ConnectionAction {
    /// Read up to `max` bytes.
    Read { max: usize },
    /// Write all these bytes back to the same connection.
    WriteAll(Vec<u8>),
    Close(ConnectionEnd),
    Ignore,
}

/// The handler of one accepted connection; it owns its connection and
/// shares nothing with other handlers.
#[derive(Debug)]
pub struct EchoConnection {
    pub phase: ConnectionPhase,
    /// Non-empty reads so far on this connection.
    pub messages: u64,
}

/// The decision a handler takes on one event, over its phase and counter.
pub open spec fn connection_step(phase: ConnectionPhase, messages: u64, e: ConnectionEvent) -> (
    ConnectionPhase,
    u64,
    Option<Seq<u8>>,
    ConnectionAction,
) {
    match phase {
        ConnectionPhase::Closed(_) => (phase, messages, None, ConnectionAction::Ignore),
        ConnectionPhase::Reading => match e {
            ConnectionEvent::Read(chunk) => if chunk@.len() == 0 {
                (
                    ConnectionPhase::Closed(ConnectionEnd::PeerClosed),
                    messages,
                    None,
                    ConnectionAction::Close(ConnectionEnd::PeerClosed),
                )
            } else {
                (
                    ConnectionPhase::Writing,
                    bump(messages),
                    Some(chunk@),
                    ConnectionAction::WriteAll(chunk),
                )
            },
            ConnectionEvent::ReadFailed => (
                ConnectionPhase::Closed(ConnectionEnd::ReadFailed),
                messages,
                None,
                ConnectionAction::Close(ConnectionEnd::ReadFailed),
            ),
            _ => (phase, messages, None, ConnectionAction::Ignore),
        },
        ConnectionPhase::Writing => match e {
            ConnectionEvent::Written => (
                ConnectionPhase::Reading,
                messages,
                None,
                ConnectionAction::Read { max: MAX_CHUNK },
            ),
            ConnectionEvent::WriteFailed => (
                ConnectionPhase::Closed(ConnectionEnd::WriteFailed),
                messages,
                None,
                ConnectionAction::Close(ConnectionEnd::WriteFailed),
            ),
            _ => (phase, messages, None, ConnectionAction::Ignore),
        },
    }
}

impl EchoConnection {
    /// A handler for a connection just accepted, and its first action: a read.
    pub fn new() -> (r: (EchoConnection, ConnectionAction))
        ensures
            r.0.phase == ConnectionPhase::Reading,
            r.0.messages == 0,
            r.1 == (ConnectionAction::Read { max: MAX_CHUNK }),
    {
        (
            EchoConnection { phase: ConnectionPhase::Reading, messages: 0 },
            ConnectionAction::Read { max: MAX_CHUNK },
        )
    }

    /// Takes the decision that `event` calls for: the bytes of each non-empty
    /// read are written back as they are, the next read waits for that write,
    /// and an empty read or an error closes the connection.
    pub fn step(&mut self, event: ConnectionEvent) -> (r: ConnectionAction)
        ensures
            ({
                let (p, m, _, a) = connection_step(old(self).phase, old(self).messages, event);
                final(self).phase == p && final(self).messages == m && r == a
            }),
    {
        match self.phase {
            ConnectionPhase::Closed(_) => ConnectionAction::Ignore,
            ConnectionPhase::Reading => match event {
                ConnectionEvent::Read(chunk) => {
                    if chunk.len() == 0 {
                        self.phase = ConnectionPhase::Closed(ConnectionEnd::PeerClosed);
                        ConnectionAction::Close(ConnectionEnd::PeerClosed)
                    } else {
                        self.phase = ConnectionPhase::Writing;
                        self.messages = self.messages.saturating_add(1);
                        ConnectionAction::WriteAll(chunk)
                    }
                },
                ConnectionEvent::ReadFailed => {
                    self.phase = ConnectionPhase::Closed(ConnectionEnd::ReadFailed);
                    ConnectionAction::Close(ConnectionEnd::ReadFailed)
                },
                _ => ConnectionAction::Ignore,
            },
            ConnectionPhase::Writing => match event {
                ConnectionEvent::Written => {
                    self.phase = ConnectionPhase::Reading;
                    ConnectionAction::Read { max: MAX_CHUNK }
                },
                ConnectionEvent::WriteFailed => {
                    self.phase = ConnectionPhase::Closed(ConnectionEnd::WriteFailed);
                    ConnectionAction::Close(ConnectionEnd::WriteFailed)
                },
                _ => ConnectionAction::Ignore,
            },
        }
    }
}

/// Abstract run of one connection handler: where it stands, and the bytes
/// taken from reads and written back so far.
pub struct ConnModel {
    pub phase: ConnectionPhase,
    pub messages: u64,
    pub taken: Seq<u8>,
    pub written: Seq<u8>,
}

pub open spec fn fresh_conn() -> ConnModel {
    ConnModel {
        phase: ConnectionPhase::Reading,
        messages: 0,
        taken: Seq::empty(),
        written: Seq::empty(),
    }
}

pub open spec fn conn_after(c: ConnModel, e: ConnectionEvent) -> ConnModel {
    let (p, m, t, a) = connection_step(c.phase, c.messages, e);
    ConnModel {
        phase: p,
        messages: m,
        taken: c.taken + (if t is Some {
            t->0
        } else {
            Seq::empty()
        }),
        written: c.written + (match a {
            ConnectionAction::WriteAll(v) => v@,
            _ => Seq::empty(),
        }),
    }
}

/// The handler after each of its events in turn.
pub open spec fn conn_run(c: ConnModel, events: Seq<ConnectionEvent>) -> ConnModel
    decreases events.len(),
{
    if events.len() == 0 {
        c
    } else {
        conn_run(conn_after(c, events[0]), events.drop_first())
    }
}

/// The events, in order, that belong to one of two connections; each event is
/// tagged `true` for the first connection and `false` for the second.
pub open spec fn events_of(events: Seq<(bool, ConnectionEvent)>, which: bool) -> Seq<
    ConnectionEvent,
>
    decreases events.len(),
{
    if events.len() == 0 {
        Seq::empty()
    } else {
        (if events[0].0 == which {
            seq![events[0].1]
        } else {
            Seq::empty()
        }) + events_of(events.drop_first(), which)
    }
}

/// Two handlers served side by side, the events of both interleaved.
pub open spec fn pair_run(a: ConnModel, b: ConnModel, events: Seq<(bool, ConnectionEvent)>) -> (
    ConnModel,
    ConnModel,
)
    decreases events.len(),
{
    if events.len() == 0 {
        (a, b)
    } else if events[0].0 {
        pair_run(conn_after(a, events[0].1), b, events.drop_first())
    } else {
        pair_run(a, conn_after(b, events[0].1), events.drop_first())
    }
}

/// A handler echoes exactly what it takes: the bytes written back to a
/// connection are the bytes read from it, in the order read.
pub proof fn lemma_echo_stream(c: ConnModel, events: Seq<ConnectionEvent>)
    requires
        c.written == c.taken,
    ensures
        conn_run(c, events).written == conn_run(c, events).taken,
    decreases events.len(),
{
    if events.len() > 0 {
        let n = conn_after(c, events[0]);
        assert(n.written =~= n.taken);
        lemma_echo_stream(n, events.drop_first());
    }
}

proof fn lemma_conn_run_cons(c: ConnModel, e: ConnectionEvent, rest: Seq<ConnectionEvent>)
    ensures
        conn_run(c, seq![e] + rest) == conn_run(conn_after(c, e), rest),
{
    let s = seq![e] + rest;
    assert(s[0] == e);
    assert(s.drop_first() =~= rest);
}

/// Connections served at the same time do not affect each other: however the
/// events of two connections interleave, each handler ends where it would
/// have ended on its own events alone, with the same bytes taken and echoed,
/// whether or not the other connection was closed meanwhile.
pub proof fn lemma_fan_out_independence(
    a: ConnModel,
    b: ConnModel,
    events: Seq<(bool, ConnectionEvent)>,
)
    ensures
        pair_run(a, b, events).0 == conn_run(a, events_of(events, true)),
        pair_run(a, b, events).1 == conn_run(b, events_of(events, false)),
    decreases events.len(),
{
    if events.len() > 0 {
        let rest = events.drop_first();
        let e = events[0].1;
        if events[0].0 {
            lemma_fan_out_independence(conn_after(a, e), b, rest);
            lemma_conn_run_cons(a, e, events_of(rest, true));
            assert(events_of(events, true) =~= seq![e] + events_of(rest, true));
            assert(events_of(events, false) =~= events_of(rest, false));
        } else {
            lemma_fan_out_independence(a, conn_after(b, e), rest);
            lemma_conn_run_cons(b, e, events_of(rest, false));
            assert(events_of(events, false) =~= seq![e] + events_of(rest, false));
            assert(events_of(events, true) =~= events_of(rest, true));
        }
    }
}

} // verus!
