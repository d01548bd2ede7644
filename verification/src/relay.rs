//! The relay core: a bounded window of the latest chunks shared by all
//! subscribers, each of which holds its own cursor into the stream.

use vstd::prelude::*;
use crate::chunk::Chunk;
use crate::model::{Observed, RelayView};

verus! {

/// What a receive attempt hands a subscriber.
pub enum Delivery {
    /// The next chunk in publication order.
    Chunk(Chunk),
    /// The subscriber fell behind and this many chunks were dropped for it;
    /// the next attempt resumes at the oldest chunk still retained.
    Lagged(u64),
    /// Nothing new has been published yet.
    Empty,
    /// The relay is closed and everything retained has been read.
    Closed,
    /// The handle names no active subscription.
    Unknown,
}

impl View for Delivery {
    type V = Observed;

    open spec fn view(&self) -> Observed {
        match *self {
            Delivery::Chunk(c) => Observed::Chunk(c@),
            Delivery::Lagged(n) => Observed::Lagged(n as nat),
            Delivery::Empty => Observed::Empty,
            Delivery::Closed => Observed::Closed,
            Delivery::Unknown => Observed::Unknown,
        }
    }
}

/// One active subscription: its handle and the sequence number it reads next.
struct Slot {
    id: u64,
    cursor: u64,
}

/// Whether some slot holds subscription `id`.
spec fn has_slot(slots: Seq<Slot>, id: u64) -> bool {
    exists|i: int| 0 <= i < slots.len() && (#[trigger] slots[i]).id == id
}

/// The fan-out state: the retained window and the active subscriptions.
pub struct RelayCore {
    capacity: usize,
    window: Vec<Chunk>,
    published: u64,
    slots: Vec<Slot>,
    next_id: u64,
    closed: bool,
    history: Ghost<Seq<Seq<u8>>>,
    cursors: Ghost<Map<u64, nat>>,
}

impl View for RelayCore {
    type V = RelayView;

    closed spec fn view(&self) -> RelayView {
        RelayView {
            capacity: self.capacity as nat,
            history: self.history@,
            cursors: self.cursors@,
            next_id: self.next_id,
            closed: self.closed,
        }
    }
}

impl RelayCore {
    /// The representation invariant: the window holds exactly the last
    /// `capacity` chunks of the history (all of it while it is shorter), and
    /// the slots list each active subscription once, with its cursor.
    pub closed spec fn wf(&self) -> bool {
        &&& self@.wf()
        &&& self.published as nat == self.history@.len()
        &&& self.window@.len() + self@.oldest() == self.history@.len()
        &&& forall|j: int|
            0 <= j < self.window@.len() ==> (#[trigger] self.window@[j])@ == self.history@[
                self@.oldest() + j]
        &&& forall|i: int|
            0 <= i < self.slots@.len() ==> self.cursors@.dom().contains(
                (#[trigger] self.slots@[i]).id,
            ) && self.cursors@[self.slots@[i].id] == self.slots@[i].cursor as nat
        &&& forall|i: int, j: int|
            0 <= i < j < self.slots@.len() ==> (#[trigger] self.slots@[i]).id != (
            #[trigger] self.slots@[j]).id
        &&& forall|id: u64| #[trigger]
            self.cursors@.dom().contains(id) ==> has_slot(self.slots@, id)
        &&& self.cursors@.dom().len() == self.slots@.len()
    }

    /// A well-formed relay has a well-formed model.
    pub proof fn lemma_view_wf(&self)
        requires
            self.wf(),
        ensures
            self@.wf(),
    {
    }

    /// A relay that retains the latest `capacity` chunks. A relay that
    /// retains nothing cannot be had.
    pub fn new(capacity: usize) -> (out: Option<RelayCore>)
        ensures
            out.is_some() <==> capacity >= 1,
            out.is_some() ==> out.unwrap().wf() && out.unwrap()@ == RelayView::fresh(
                capacity as nat,
            ),
    {
        if capacity == 0 {
            return None;
        }
        let relay = RelayCore {
            capacity,
            window: Vec::new(),
            published: 0,
            slots: Vec::new(),
            next_id: 0,
            closed: false,
            history: Ghost(Seq::empty()),
            cursors: Ghost(Map::empty()),
        };
        Some(relay)
    }

    /// The index of the slot that holds subscription `id`, if there is one.
    fn find(&self, id: u64) -> (out: Option<usize>)
        ensures
            match out {
                Some(i) => i < self.slots@.len() && self.slots@[i as int].id == id,
                None => forall|i: int| 0 <= i < self.slots@.len() ==> (#[trigger] self.slots@[i]).id != id,
            },
    {
        let mut i: usize = 0;
        while i < self.slots.len()
            invariant
                i <= self.slots@.len(),
                forall|k: int| 0 <= k < i ==> (#[trigger] self.slots@[k]).id != id,
            decreases self.slots@.len() - i,
        {
            if self.slots[i].id == id {
                return Some(i);
            }
            i += 1;
        }
        None
    }

    /// Hands `chunk` to the stream: it becomes the newest retained chunk, and
    /// the oldest leaves once more than `capacity` are held. No subscriber is
    /// consulted or changed. Returns whether the chunk was taken.
    pub fn publish(&mut self, chunk: Chunk) -> (taken: bool)
        requires
            old(self).wf(),
        ensures
            final(self).wf(),
            taken == old(self)@.accepts(),
            final(self)@ == old(self)@.publish(chunk@),
    {
        if self.closed || self.published == u64::MAX {
            return false;
        }
        let ghost bytes = chunk@;
        if self.window.len() == self.capacity {
            let _ = self.window.remove(0);
        }
        self.window.push(chunk);
        self.published = self.published + 1;
        self.history = Ghost(self.history@.push(bytes));
        true
    }

    /// Opens a subscription that starts after everything published so far,
    /// and returns its handle.
    pub fn subscribe(&mut self) -> (id: u64)
        requires
            old(self).wf(),
            old(self)@.can_subscribe(),
        ensures
            final(self).wf(),
            id == old(self)@.next_id,
            final(self)@ == old(self)@.subscribe(),
    {
        let id = self.next_id;
        let ghost before = *self;
        self.slots.push(Slot { id, cursor: self.published });
        self.next_id = id + 1;
        self.cursors = Ghost(self.cursors@.insert(id, self.published as nat));
        proof {
            assert forall|k: u64| #[trigger] self.cursors@.dom().contains(k) implies has_slot(
                self.slots@,
                k,
            ) by {
                if k == id {
                    assert(self.slots@[self.slots@.len() - 1].id == id);
                } else {
                    let i = choose|i: int|
                        0 <= i < before.slots@.len() && (#[trigger] before.slots@[i]).id == k;
                    assert(self.slots@[i].id == k);
                }
            }
        }
        id
    }

    /// Ends subscription `id` and frees its slot. Returns whether it was
    /// active; on a handle that is not, nothing changes.
    pub fn unsubscribe(&mut self, id: u64) -> (was_active: bool)
        requires
            old(self).wf(),
        ensures
            final(self).wf(),
            was_active == old(self)@.subscribed(id),
            final(self)@ == old(self)@.unsubscribe(id),
    {
        let ghost before = *self;
        match self.find(id) {
            None => {
                proof {
                    assert(self.cursors@.remove(id) =~= self.cursors@);
                }
                false
            },
            Some(i) => {
                let _ = self.slots.remove(i);
                self.cursors = Ghost(self.cursors@.remove(id));
                proof {
                    assert forall|k: u64| #[trigger] self.cursors@.dom().contains(k) implies has_slot(
                        self.slots@,
                        k,
                    ) by {
                        let j0 = choose|j: int|
                            0 <= j < before.slots@.len() && (#[trigger] before.slots@[j]).id == k;
                        let j = if j0 < i { j0 } else { j0 - 1 };
                        assert(self.slots@[j] == before.slots@[j0]);
                    }
                }
                true
            },
        }
    }

    /// One receive attempt for subscription `id`: the next chunk in
    /// publication order if one is retained, else a report of why there is
    /// none.
    pub fn recv(&mut self, id: u64) -> (out: Delivery)
        requires
            old(self).wf(),
        ensures
            final(self).wf(),
            out@ == old(self)@.observe(id),
            final(self)@ == old(self)@.receive(id),
    {
        match self.find(id) {
            None => Delivery::Unknown,
            Some(i) => {
                let cursor: u64 = self.slots[i].cursor;
                let held: u64 = self.window.len() as u64;
                let oldest: u64 = self.published - held;
                if cursor < oldest {
                    self.move_cursor(i, oldest);
                    Delivery::Lagged(oldest - cursor)
                } else if cursor < self.published {
                    let offset: usize = (cursor - oldest) as usize;
                    let chunk = self.window[offset].duplicate();
                    self.move_cursor(i, cursor + 1);
                    Delivery::Chunk(chunk)
                } else if self.closed {
                    Delivery::Closed
                } else {
                    Delivery::Empty
                }
            },
        }
    }

    /// Sets the cursor of the subscription in slot `i`.
    fn move_cursor(&mut self, i: usize, to: u64)
        requires
            old(self).wf(),
            i < old(self).slots@.len(),
            to as nat <= old(self)@.history.len(),
        ensures
            final(self).wf(),
            final(self)@ == (RelayView {
                cursors: old(self)@.cursors.insert(old(self).slots@[i as int].id, to as nat),
                ..old(self)@
            }),
    {
        let ghost before = *self;
        let id = self.slots[i].id;
        self.slots.set(i, Slot { id, cursor: to });
        self.cursors = Ghost(self.cursors@.insert(id, to as nat));
        proof {
            assert forall|k: u64| #[trigger] self.cursors@.dom().contains(k) implies has_slot(
                self.slots@,
                k,
            ) by {
                let j = choose|j: int|
                    0 <= j < before.slots@.len() && (#[trigger] before.slots@[j]).id == k;
                assert(self.slots@[j].id == k);
            }
        }
    }

    /// Closes the relay to publishers. Subscribers still read what is
    /// retained, and are then told that the relay is closed.
    pub fn close(&mut self)
        requires
            old(self).wf(),
        ensures
            final(self).wf(),
            final(self)@ == old(self)@.close(),
    {
        self.closed = true;
    }

    /// How many of the latest chunks the relay retains.
    pub fn capacity(&self) -> (n: usize)
        ensures
            n == self@.capacity,
    {
        self.capacity
    }

    /// The number of active subscriptions.
    pub fn subscriber_count(&self) -> (n: usize)
        requires
            self.wf(),
        ensures
            n == self@.subscriber_count(),
    {
        self.slots.len()
    }

    /// The number of chunks taken so far.
    pub fn published(&self) -> (n: u64)
        requires
            self.wf(),
        ensures
            n == self@.history.len(),
    {
        self.published
    }

    /// The number of chunks retained at the moment.
    pub fn retained(&self) -> (n: usize)
        requires
            self.wf(),
        ensures
            n == self@.window().len(),
            n <= self@.capacity,
    {
        self.window.len()
    }

    /// Whether the relay has been closed to publishers.
    pub fn is_closed(&self) -> (b: bool)
        ensures
            b == self@.closed,
    {
        self.closed
    }

    /// Whether another subscription can be opened: handles are never reused,
    /// and the last one is kept back.
    pub fn can_subscribe(&self) -> (b: bool)
        ensures
            b == self@.can_subscribe(),
    {
        self.next_id < u64::MAX
    }

    /// Whether `id` names an active subscription.
    pub fn is_subscribed(&self, id: u64) -> (b: bool)
        requires
            self.wf(),
        ensures
            b == self@.subscribed(id),
    {
        match self.find(id) {
            None => false,
            Some(_) => true,
        }
    }

    /// How many retained chunks subscription `id` has yet to read; `None`
    /// where `id` names no active subscription.
    pub fn backlog(&self, id: u64) -> (out: Option<usize>)
        requires
            self.wf(),
        ensures
            out.is_some() <==> self@.subscribed(id),
            out.is_some() ==> out.unwrap() == self@.backlog(id) && out.unwrap()
                <= self@.capacity,
    {
        match self.find(id) {
            None => None,
            Some(i) => {
                let cursor: u64 = self.slots[i].cursor;
                let held: usize = self.window.len();
                let oldest: u64 = self.published - (held as u64);
                if cursor < oldest {
                    Some(held)
                } else {
                    Some((self.published - cursor) as usize)
                }
            },
        }
    }
}

} // verus!
