//! The ingress listener's decisions: what becomes of each read from a
//! producer's connection.

use vstd::prelude::*;
use crate::chunk::{valid_len, Chunk};
use crate::relay::RelayCore;

verus! {

/// What the listener does after a read.
#[derive(Clone, Copy, Debug, PartialEq, Eq)]
pub enum IngressStep {
    /// Read from the same connection again.
    ReadAgain,
    /// The connection is over; accept the next producer.
    AcceptNext,
}

/// Whether a read that reports `read` into a buffer of `buf_len` bytes
/// brought data: a failed read and an end of stream did not, nor did a count
/// that the buffer or a chunk cannot hold.
pub open spec fn brought_data(buf_len: nat, read: Option<usize>) -> bool {
    match read {
        Some(n) => valid_len(n as nat) && n <= buf_len,
        None => false,
    }
}

/// Handles one read: `Some(n)` for `n` bytes read into the front of `buf`
/// (none at the end of the stream), `None` for a failed read. Data is
/// published as one chunk and the connection is read again; whether any
/// subscriber was there to take it is of no concern here. Anything else
/// ends the connection and leaves the relay as it was.
pub fn on_read(relay: &mut RelayCore, buf: &[u8], read: Option<usize>) -> (step: IngressStep)
    requires
        old(relay).wf(),
    ensures
        final(relay).wf(),
        brought_data(buf@.len(), read) ==> step == IngressStep::ReadAgain && final(relay)@ == old(
            relay,
        )@.publish(buf@.subrange(0, read.unwrap() as int)),
        !brought_data(buf@.len(), read) ==> step == IngressStep::AcceptNext && final(relay)@
            == old(relay)@,
{
    match read {
        None => IngressStep::AcceptNext,
        Some(n) => match Chunk::from_read(buf, n) {
            None => IngressStep::AcceptNext,
            Some(chunk) => {
                let _ = relay.publish(chunk);
                IngressStep::ReadAgain
            },
        },
    }
}

} // verus!
