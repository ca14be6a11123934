use vstd::prelude::*;

use crate::serving::{bump, ServerEnd};

verus! {

/// Where the datagram server stands.
#[derive(Clone, Copy, Debug, PartialEq, Eq, Structural)]
pub enum UdpServerPhase {
    /// Waiting for the next datagram.
    Receiving,
    /// Sending the last datagram back to its sender.
    Replying,
    Stopped(ServerEnd),
}

/// What the driver of the datagram server reports back.
#[derive(Debug)]
pub enum UdpServerEvent {
    /// A datagram arrived; the driver keeps its sender's address.
    Received(Vec<u8>),
    ReceiveFailed,
    Sent,
    SendFailed,
    Cancelled,
}

/// What the driver of the datagram server is asked to do next.
#[derive(Debug)]
pub enum UdpServerAction {
    /// Wait for the next datagram.
    Receive,
    /// Send these bytes to the sender of the datagram just received.
    EchoBack(Vec<u8>),
    Stop(ServerEnd),
    Ignore,
}

/// The datagram server: one socket, one datagram at a time.
#[derive(Debug)]
pub struct UdpServer {
    pub phase: UdpServerPhase,
    /// Datagrams received so far.
    pub datagrams: u64,
}

impl UdpServer {
    /// The server once its socket is bound: it waits for a datagram.
    pub fn new() -> (r: UdpServer)
        ensures
            r.phase == UdpServerPhase::Receiving,
            r.datagrams == 0,
    {
        UdpServer { phase: UdpServerPhase::Receiving, datagrams: 0 }
    }

    /// Takes the decision that `event` calls for.
    ///
    /// A datagram is echoed verbatim and the next receive waits until the
    /// echo is sent; a failed receive is given up and the next one begins;
    /// a send error, or the interrupt, stops the loop.
    pub fn step(&mut self, event: UdpServerEvent) -> (r: UdpServerAction)
        ensures
            old(self).phase is Stopped ==> *final(self) == *old(self) && r is Ignore,
            !(old(self).phase is Stopped) ==> match event {
                UdpServerEvent::Cancelled => final(self).phase == UdpServerPhase::Stopped(
                    ServerEnd::Cancelled,
                ) && r == UdpServerAction::Stop(ServerEnd::Cancelled)
                    && final(self).datagrams == old(self).datagrams,
                UdpServerEvent::Received(d) => if old(self).phase is Receiving {
                    final(self).phase == UdpServerPhase::Replying && r == UdpServerAction::EchoBack(
                        d,
                    ) && final(self).datagrams == bump(old(self).datagrams)
                } else {
                    *final(self) == *old(self) && r is Ignore
                },
                UdpServerEvent::ReceiveFailed => if old(self).phase is Receiving {
                    final(self).phase == UdpServerPhase::Receiving && r is Receive
                        && final(self).datagrams == old(self).datagrams
                } else {
                    *final(self) == *old(self) && r is Ignore
                },
                UdpServerEvent::Sent => if old(self).phase is Replying {
                    final(self).phase == UdpServerPhase::Receiving && r is Receive
                        && final(self).datagrams == old(self).datagrams
                } else {
                    *final(self) == *old(self) && r is Ignore
                },
                UdpServerEvent::SendFailed => if old(self).phase is Replying {
                    final(self).phase == UdpServerPhase::Stopped(ServerEnd::SendFailed) && r
                        == UdpServerAction::Stop(ServerEnd::SendFailed)
                        && final(self).datagrams == old(self).datagrams
                } else {
                    *final(self) == *old(self) && r is Ignore
                },
            },
    {
        if let UdpServerPhase::Stopped(_) = self.phase {
            return UdpServerAction::Ignore;
        }
        match event {
            UdpServerEvent::Cancelled => {
                self.phase = UdpServerPhase::Stopped(ServerEnd::Cancelled);
                UdpServerAction::Stop(ServerEnd::Cancelled)
            },
            UdpServerEvent::Received(d) => {
                if let UdpServerPhase::Receiving = self.phase {
                    self.phase = UdpServerPhase::Replying;
                    self.datagrams = self.datagrams.saturating_add(1);
                    UdpServerAction::EchoBack(d)
                } else {
                    UdpServerAction::Ignore
                }
            },
            UdpServerEvent::ReceiveFailed => {
                if let UdpServerPhase::Receiving = self.phase {
                    UdpServerAction::Receive
                } else {
                    UdpServerAction::Ignore
                }
            },
            UdpServerEvent::Sent => {
                if let UdpServerPhase::Replying = self.phase {
                    self.phase = UdpServerPhase::Receiving;
                    UdpServerAction::Receive
                } else {
                    UdpServerAction::Ignore
                }
            },
            UdpServerEvent::SendFailed => {
                if let UdpServerPhase::Replying = self.phase {
                    self.phase = UdpServerPhase::Stopped(ServerEnd::SendFailed);
                    UdpServerAction::Stop(ServerEnd::SendFailed)
                } else {
                    UdpServerAction::Ignore
                }
            },
        }
    }
}

} // verus!
