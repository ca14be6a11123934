//! An echo exerciser over TCP and UDP.
//!
//! A server echoes back every byte it receives; a client sends a payload a
//! given number of times (or until interrupted) and checks each reply, every
//! wait bounded by a timeout. The library holds the decisions of both roles
//! as state machines: a driver performs the I/O each action asks for and
//! reports the result back as an event.
use vstd::prelude::*;

pub mod app_config;
pub mod client;
pub mod client_laws;
pub mod report;
pub mod round_trip;
pub mod serving;
pub mod tcp_server;
pub mod udp_server;

verus! {

} // verus!
