//! The mathematical model of the relay: the full history of published chunks
//! and, for each subscriber, the position in that history it reads next.

use vstd::prelude::*;

verus! {

/// What one receive attempt shows a subscriber.
pub enum Observed {
    /// The next chunk in publication order.
    Chunk(Seq<u8>),
    /// The subscriber fell behind; this many chunks were dropped for it.
    Lagged(nat),
    /// Nothing new has been published yet.
    Empty,
    /// The relay is closed and everything retained has been read.
    Closed,
    /// The handle names no active subscription.
    Unknown,
}

/// One operation on the relay.
pub enum Op {
    /// A producer hands in a chunk.
    Publish(Seq<u8>),
    /// A subscription is opened.
    Subscribe,
    /// The subscription with this handle is ended.
    Unsubscribe(u64),
    /// The subscription with this handle tries to receive.
    Receive(u64),
    /// The relay is closed to publishers.
    Close,
}

/// The abstract state of a relay.
pub struct RelayView {
    /// How many of the latest chunks are retained for readers.
    pub capacity: nat,
    /// Every chunk accepted so far, oldest first.
    pub history: Seq<Seq<u8>>,
    /// For each active subscription, the index in `history` it reads next.
    pub cursors: Map<u64, nat>,
    /// The handle that the next subscription gets.
    pub next_id: u64,
    /// Whether the relay has been closed to publishers.
    pub closed: bool,
}

impl RelayView {
    /// A relay on which nothing has happened yet.
    pub open spec fn fresh(capacity: nat) -> RelayView {
        RelayView {
            capacity,
            history: Seq::empty(),
            cursors: Map::empty(),
            next_id: 0,
            closed: false,
        }
    }

    /// What holds of every relay: it retains at least one chunk, has
    /// finitely many subscribers, has issued every handle in use, and no
    /// cursor points past the end of the history.
    pub open spec fn wf(self) -> bool {
        &&& self.capacity >= 1
        &&& self.cursors.dom().finite()
        &&& forall|id: u64| #[trigger]
            self.cursors.dom().contains(id) ==> id < self.next_id && self.cursors[id]
                <= self.history.len()
    }

    /// The index of the oldest chunk still retained.
    pub open spec fn oldest(self) -> nat {
        if self.history.len() > self.capacity {
            (self.history.len() - self.capacity) as nat
        } else {
            0
        }
    }

    /// The chunks still retained, oldest first.
    pub open spec fn window(self) -> Seq<Seq<u8>> {
        self.history.subrange(self.oldest() as int, self.history.len() as int)
    }

    /// Whether `id` names an active subscription.
    pub open spec fn subscribed(self, id: u64) -> bool {
        self.cursors.dom().contains(id)
    }

    /// The number of active subscriptions.
    pub open spec fn subscriber_count(self) -> nat {
        self.cursors.dom().len()
    }

    /// How many retained chunks subscriber `id` has yet to read.
    pub open spec fn backlog(self, id: u64) -> nat {
        if self.cursors[id] < self.oldest() {
            (self.history.len() - self.oldest()) as nat
        } else {
            (self.history.len() - self.cursors[id]) as nat
        }
    }

    /// Whether a publish is taken: the relay is open and its sequence numbers
    /// are not used up.
    pub open spec fn accepts(self) -> bool {
        !self.closed && self.history.len() < u64::MAX
    }

    /// Whether a handle is left for another subscription. Handles are never
    /// reused.
    pub open spec fn can_subscribe(self) -> bool {
        self.next_id < u64::MAX
    }

    /// The state after `chunk` is handed in: it joins the end of the history
    /// if the relay takes it. No cursor moves.
    pub open spec fn publish(self, chunk: Seq<u8>) -> RelayView {
        if self.accepts() {
            RelayView { history: self.history.push(chunk), ..self }
        } else {
            self
        }
    }

    /// A new subscription, under the handle `self.next_id`, that starts at
    /// the end of the history.
    pub open spec fn subscribe(self) -> RelayView {
        if self.can_subscribe() {
            RelayView {
                cursors: self.cursors.insert(self.next_id, self.history.len()),
                next_id: (self.next_id + 1) as u64,
                ..self
            }
        } else {
            self
        }
    }

    /// The state after subscription `id` is ended; the same state where
    /// there is none.
    pub open spec fn unsubscribe(self, id: u64) -> RelayView {
        RelayView { cursors: self.cursors.remove(id), ..self }
    }

    /// The state after the relay is closed to publishers.
    pub open spec fn close(self) -> RelayView {
        RelayView { closed: true, ..self }
    }

    /// What subscriber `id` sees when it next tries to receive.
    pub open spec fn observe(self, id: u64) -> Observed {
        if !self.subscribed(id) {
            Observed::Unknown
        } else if self.cursors[id] < self.oldest() {
            Observed::Lagged((self.oldest() - self.cursors[id]) as nat)
        } else if self.cursors[id] < self.history.len() {
            Observed::Chunk(self.history[self.cursors[id] as int])
        } else if self.closed {
            Observed::Closed
        } else {
            Observed::Empty
        }
    }

    /// The state after subscriber `id` tried to receive: a chunk read moves
    /// its cursor by one, a lag report moves it to the oldest retained chunk.
    pub open spec fn receive(self, id: u64) -> RelayView {
        if !self.subscribed(id) {
            self
        } else if self.cursors[id] < self.oldest() {
            RelayView { cursors: self.cursors.insert(id, self.oldest()), ..self }
        } else if self.cursors[id] < self.history.len() {
            RelayView { cursors: self.cursors.insert(id, self.cursors[id] + 1), ..self }
        } else {
            self
        }
    }

    /// The state after one operation.
    pub open spec fn step(self, op: Op) -> RelayView {
        match op {
            Op::Publish(chunk) => self.publish(chunk),
            Op::Subscribe => self.subscribe(),
            Op::Unsubscribe(id) => self.unsubscribe(id),
            Op::Receive(id) => self.receive(id),
            Op::Close => self.close(),
        }
    }

    /// The state after the operations `ops`, applied in order.
    pub open spec fn run(self, ops: Seq<Op>) -> RelayView
        decreases ops.len(),
    {
        if ops.len() == 0 {
            self
        } else {
            self.run(ops.drop_last()).step(ops.last())
        }
    }

    /// The state after publishing each chunk of `chunks`, in order.
    pub open spec fn publish_all(self, chunks: Seq<Seq<u8>>) -> RelayView
        decreases chunks.len(),
    {
        if chunks.len() == 0 {
            self
        } else {
            self.publish_all(chunks.drop_last()).publish(chunks.last())
        }
    }

    /// The state after subscriber `id` tried to receive `k` times.
    pub open spec fn receive_n(self, id: u64, k: nat) -> RelayView
        decreases k,
    {
        if k == 0 {
            self
        } else {
            self.receive_n(id, (k - 1) as nat).receive(id)
        }
    }

    /// The chunks handed to subscriber `id` over the operations `ops`, in the
    /// order in which it received them.
    pub open spec fn delivered(self, ops: Seq<Op>, id: u64) -> Seq<Seq<u8>>
        decreases ops.len(),
    {
        if ops.len() == 0 {
            Seq::empty()
        } else {
            let earlier = self.delivered(ops.drop_last(), id);
            if ops.last() == Op::Receive(id) {
                match self.run(ops.drop_last()).observe(id) {
                    Observed::Chunk(bytes) => earlier.push(bytes),
                    _ => earlier,
                }
            } else {
                earlier
            }
        }
    }

    /// The number of chunks that lag reports told subscriber `id` it had
    /// missed over the operations `ops`.
    pub open spec fn dropped(self, ops: Seq<Op>, id: u64) -> nat
        decreases ops.len(),
    {
        if ops.len() == 0 {
            0
        } else {
            let earlier = self.dropped(ops.drop_last(), id);
            if ops.last() == Op::Receive(id) {
                match self.run(ops.drop_last()).observe(id) {
                    Observed::Lagged(n) => earlier + n,
                    _ => earlier,
                }
            } else {
                earlier
            }
        }
    }
}

} // verus!
