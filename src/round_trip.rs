use vstd::prelude::*;
use vstd::slice::slice_subrange;

verus! {

/// What one send-then-receive-then-verify cycle came to.
///
/// `Matched` and `Mismatched` carry the number of bytes compared.
#[derive(Clone, Copy, Debug, PartialEq, Eq, Structural)]
pub enum AttemptOutcome {
    Matched(usize),
    Mismatched(usize),
    SendFailed,
    ReceiveFailed,
    TimedOut,
}

/// Verdict on a reply: it matches when it is byte for byte the payload.
pub open spec fn judge(sent: Seq<u8>, received: Seq<u8>) -> AttemptOutcome {
    if received == sent {
        AttemptOutcome::Matched(received.len() as usize)
    } else {
        AttemptOutcome::Mismatched(received.len() as usize)
    }
}

/// The part of a datagram that is compared: at most as many bytes as the payload has.
pub open spec fn datagram_window(payload_len: nat, datagram: Seq<u8>) -> Seq<u8> {
    if datagram.len() > payload_len {
        datagram.subrange(0, payload_len as int)
    } else {
        datagram
    }
}

/// Byte-exact comparison of two buffers.
pub fn same_bytes(a: &[u8], b: &[u8]) -> (r: bool)
    ensures
        r == (a@ == b@),
{
    if a.len() != b.len() {
        return false;
    }
    let mut i: usize = 0;
    while i < a.len()
        invariant
            a@.len() == b@.len(),
            i <= a@.len(),
            forall|j: int| 0 <= j < i ==> a@[j] == b@[j],
        decreases a@.len() - i,
    {
        if a[i] != b[i] {
            return false;
        }
        i = i + 1;
    }
    assert(a@ =~= b@);
    true
}

/// Verdict on a stream reply, which holds exactly the bytes read back.
pub fn verify_reply(sent: &[u8], received: &[u8]) -> (r: AttemptOutcome)
    ensures
        r == judge(sent@, received@),
{
    if same_bytes(sent, received) {
        AttemptOutcome::Matched(received.len())
    } else {
        AttemptOutcome::Mismatched(received.len())
    }
}

/// Verdict on a reply datagram: a datagram longer than the payload is cut to
/// the payload's length before the comparison.
pub fn verify_datagram(payload: &[u8], datagram: &[u8]) -> (r: AttemptOutcome)
    ensures
        r == judge(payload@, datagram_window(payload@.len(), datagram@)),
{
    if datagram.len() > payload.len() {
        let head = slice_subrange(datagram, 0, payload.len());
        verify_reply(payload, head)
    } else {
        verify_reply(payload, datagram)
    }
}

/// An echo peer that works returns the payload: the round trip then matches,
/// over a stream and over datagrams, whatever a datagram carries after the payload.
pub proof fn lemma_round_trip_identity(payload: Seq<u8>, extra: Seq<u8>)
    requires
        payload.len() <= usize::MAX,
    ensures
        judge(payload, payload) == AttemptOutcome::Matched(payload.len() as usize),
        judge(payload, datagram_window(payload.len(), payload + extra))
            == AttemptOutcome::Matched(payload.len() as usize),
{
    assert((payload + extra).subrange(0, payload.len() as int) =~= payload);
}

} // verus!
