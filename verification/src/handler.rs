//! The stream handler: one subscription turned into the sequence of chunks
//! that one long-lived response carries.

use vstd::prelude::*;
use crate::chunk::Chunk;
use crate::model::Observed;
use crate::relay::{Delivery, RelayCore};

verus! {

/// What the handler does next for its response.
pub enum StreamStep {
    /// Write this chunk to the client, then poll again.
    Emit(Chunk),
    /// Chunks were dropped for this subscriber; poll again at once.
    Again,
    /// Nothing to write; suspend until something is published or the relay
    /// closes.
    Wait,
    /// End the response body, without an error.
    Finish,
}

impl StreamStep {
    /// The bytes that the step writes, if it writes any.
    pub open spec fn emits(self) -> Option<Seq<u8>> {
        match self {
            StreamStep::Emit(c) => Some(c@),
            _ => None,
        }
    }
}

/// Whether `step` is what a handler does on seeing `seen`: a chunk is
/// written as it is, a lag report is passed over, an empty relay is waited
/// on, and a closed relay or a lost subscription ends the stream.
pub open spec fn step_answers(seen: Observed, step: StreamStep) -> bool {
    match seen {
        Observed::Chunk(bytes) => step.emits() == Some(bytes),
        Observed::Lagged(_) => step is Again,
        Observed::Empty => step is Wait,
        Observed::Closed => step is Finish,
        Observed::Unknown => step is Finish,
    }
}

/// Whether a handler that sees `seen` ends its stream.
pub open spec fn ends_stream(seen: Observed) -> bool {
    seen is Closed || seen is Unknown
}

/// The step that answers a delivery.
pub fn step_for(delivery: Delivery) -> (step: StreamStep)
    ensures
        step_answers(delivery@, step),
        step is Finish <==> ends_stream(delivery@),
{
    match delivery {
        Delivery::Chunk(chunk) => StreamStep::Emit(chunk),
        Delivery::Lagged(_) => StreamStep::Again,
        Delivery::Empty => StreamStep::Wait,
        Delivery::Closed => StreamStep::Finish,
        Delivery::Unknown => StreamStep::Finish,
    }
}

/// The state of one live response: its subscription, and whether it still
/// holds it.
pub struct StreamHandler {
    pub id: u64,
    pub open: bool,
}

impl StreamHandler {
    /// Begins a response: opens a subscription and holds it.
    pub fn start(relay: &mut RelayCore) -> (handler: StreamHandler)
        requires
            old(relay).wf(),
            old(relay)@.can_subscribe(),
        ensures
            final(relay).wf(),
            final(relay)@ == old(relay)@.subscribe(),
            handler.id == old(relay)@.next_id,
            handler.open,
    {
        let id = relay.subscribe();
        StreamHandler { id, open: true }
    }

    /// Decides the next step of the response. A handler that has let go of
    /// its subscription finishes and leaves the relay alone. One that sees
    /// the stream end lets go of its subscription before it answers.
    pub fn poll(&mut self, relay: &mut RelayCore) -> (step: StreamStep)
        requires
            old(relay).wf(),
        ensures
            final(relay).wf(),
            final(self).id == old(self).id,
            !old(self).open ==> step is Finish && !final(self).open && final(relay)@ == old(
                relay,
            )@,
            old(self).open ==> {
                let seen = old(relay)@.observe(old(self).id);
                &&& step_answers(seen, step)
                &&& final(self).open == !ends_stream(seen)
                &&& final(relay)@ == if ends_stream(seen) {
                    old(relay)@.unsubscribe(old(self).id)
                } else {
                    old(relay)@.receive(old(self).id)
                }
            },
    {
        if !self.open {
            return StreamStep::Finish;
        }
        let delivery = relay.recv(self.id);
        let step = step_for(delivery);
        if let StreamStep::Finish = step {
            let _ = relay.unsubscribe(self.id);
            self.open = false;
        }
        step
    }

    /// Lets go of the subscription: after a failed write, a client that went
    /// away, or a shutdown. Doing so again changes nothing.
    pub fn release(&mut self, relay: &mut RelayCore)
        requires
            old(relay).wf(),
        ensures
            final(relay).wf(),
            final(self).id == old(self).id,
            !final(self).open,
            final(relay)@ == if old(self).open {
                old(relay)@.unsubscribe(old(self).id)
            } else {
                old(relay)@
            },
            old(self).open ==> !final(relay)@.subscribed(old(self).id),
    {
        if self.open {
            let _ = relay.unsubscribe(self.id);
            self.open = false;
        }
    }
}

} // verus!
