use vstd::prelude::*;

verus! {

/// Largest datagram or stream chunk a server takes in one receive.
pub const MAX_CHUNK: usize = 65536;

/// Why a server loop stopped.
#[derive(Clone, Copy, Debug, PartialEq, Eq, Structural)]
pub enum ServerEnd {
    Cancelled,
    AcceptFailed,
    SendFailed,
}

/// A counter one higher, held at its largest value.
pub open spec fn bump(n: u64) -> u64 {
    if n == u64::MAX {
        n
    } else {
        (n + 1) as u64
    }
}

} // verus!
