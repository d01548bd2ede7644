//! What holds of every relay, proved over the model.

use vstd::prelude::*;
use crate::model::{Observed, Op, RelayView};

verus! {

/// Every operation keeps a well-formed relay well-formed, only ever appends
/// to the history, and never moves a surviving subscriber's cursor back.
/// Handles are not reused: one that is free and already issued stays free.
pub proof fn lemma_step_monotone(v: RelayView, op: Op, id: u64)
    requires
        v.wf(),
    ensures
        v.step(op).wf(),
        v.step(op).capacity == v.capacity,
        v.step(op).next_id >= v.next_id,
        v.step(op).history.len() >= v.history.len(),
        v.step(op).history.subrange(0, v.history.len() as int) == v.history,
        v.subscribed(id) && v.step(op).subscribed(id) ==> v.step(op).cursors[id] >= v.cursors[id],
        !v.subscribed(id) && id < v.next_id ==> !v.step(op).subscribed(id),
{
}

/// Any run of operations keeps a well-formed relay well-formed, with the
/// capacity it was made with.
pub proof fn lemma_run_wf(v: RelayView, ops: Seq<Op>)
    requires
        v.wf(),
    ensures
        v.run(ops).wf(),
        v.run(ops).capacity == v.capacity,
    decreases ops.len(),
{
    if ops.len() > 0 {
        lemma_run_wf(v, ops.drop_last());
        lemma_step_monotone(v.run(ops.drop_last()), ops.last(), 0);
    }
}

/// Over any run of operations the history only grows at its end, and a
/// subscription that survives the run was there before it and has not moved
/// back.
pub proof fn lemma_run_monotone(v: RelayView, ops: Seq<Op>, id: u64, floor: nat)
    requires
        v.wf(),
        id < v.next_id,
        v.subscribed(id) ==> v.cursors[id] >= floor,
    ensures
        v.run(ops).wf(),
        v.run(ops).capacity == v.capacity,
        v.run(ops).next_id >= v.next_id,
        v.run(ops).history.len() >= v.history.len(),
        v.run(ops).history.subrange(0, v.history.len() as int) == v.history,
        v.run(ops).subscribed(id) ==> v.subscribed(id) && v.run(ops).cursors[id] >= floor,
    decreases ops.len(),
{
    if ops.len() > 0 {
        let mid = v.run(ops.drop_last());
        lemma_run_monotone(v, ops.drop_last(), id, floor);
        lemma_step_monotone(mid, ops.last(), id);
        assert(mid.step(ops.last()).history.subrange(0, v.history.len() as int)
            =~= mid.history.subrange(0, v.history.len() as int));
    }
}

/// Whenever a subscriber is handed a chunk, it is the one at its cursor in
/// the history, and its cursor then moves on by exactly one: chunks reach a
/// subscriber in the order of publication, none twice and none skipped
/// without a lag report in between.
pub proof fn lemma_chunks_follow_history(v: RelayView, id: u64)
    requires
        v.wf(),
        v.observe(id) is Chunk,
    ensures
        v.subscribed(id),
        v.cursors[id] < v.history.len(),
        v.observe(id) == Observed::Chunk(v.history[v.cursors[id] as int]),
        v.receive(id).cursors[id] == v.cursors[id] + 1,
        v.receive(id).history == v.history,
{
}

/// A lag report names exactly the chunks that were dropped for the
/// subscriber, and the next chunk it is handed is the oldest one retained.
pub proof fn lemma_lag_resumes_at_oldest(v: RelayView, id: u64)
    requires
        v.wf(),
        v.observe(id) is Lagged,
    ensures
        v.observe(id) == Observed::Lagged((v.oldest() - v.cursors[id]) as nat),
        v.oldest() > v.cursors[id],
        v.receive(id).cursors[id] == v.oldest(),
        v.receive(id).observe(id) == Observed::Chunk(v.history[v.oldest() as int]),
{
}

/// Publishing to an open relay with room in its sequence numbers appends the
/// chunks to the history and touches nothing else.
pub proof fn lemma_publish_all_appends(v: RelayView, chunks: Seq<Seq<u8>>)
    requires
        !v.closed,
        v.history.len() + chunks.len() <= u64::MAX,
    ensures
        v.publish_all(chunks) == (RelayView { history: v.history + chunks, ..v }),
    decreases chunks.len(),
{
    if chunks.len() > 0 {
        lemma_publish_all_appends(v, chunks.drop_last());
        assert((v.history + chunks.drop_last()).push(chunks.last()) =~= v.history + chunks);
    }
}

/// A subscriber whose next `k` chunks are all retained reads them one by one.
pub proof fn lemma_receive_n_advances(v: RelayView, id: u64, k: nat)
    requires
        v.wf(),
        v.subscribed(id),
        v.cursors[id] >= v.oldest(),
        v.cursors[id] + k <= v.history.len(),
    ensures
        v.receive_n(id, k) == (RelayView {
            cursors: v.cursors.insert(id, v.cursors[id] + k),
            ..v
        }),
    decreases k,
{
    if k == 0 {
        assert(v.cursors.insert(id, v.cursors[id]) =~= v.cursors);
    } else {
        lemma_receive_n_advances(v, id, (k - 1) as nat);
        let mid = v.receive_n(id, (k - 1) as nat);
        assert(mid.cursors.insert(id, mid.cursors[id] + 1) =~= v.cursors.insert(
            id,
            v.cursors[id] + k,
        ));
    }
}

/// In-order delivery, over any run of operations. For a subscription that
/// is there before the run and after it, every position that its cursor
/// passed was either handed to it or reported as missed; and where no lag was
/// reported, what it was handed is exactly the stretch of the history
/// between its cursor before and its cursor after, in publication order.
pub proof fn lemma_delivered_in_order(v: RelayView, ops: Seq<Op>, id: u64)
    requires
        v.wf(),
        v.subscribed(id),
        v.run(ops).subscribed(id),
    ensures
        v.cursors[id] + v.delivered(ops, id).len() + v.dropped(ops, id) == v.run(ops).cursors[id],
        v.dropped(ops, id) == 0 ==> v.delivered(ops, id) == v.run(ops).history.subrange(
            v.cursors[id] as int,
            v.run(ops).cursors[id] as int,
        ),
    decreases ops.len(),
{
    if ops.len() > 0 {
        let mid = v.run(ops.drop_last());
        lemma_run_monotone(v, ops.drop_last(), id, v.cursors[id]);
        lemma_step_monotone(mid, ops.last(), id);
        lemma_delivered_in_order(v, ops.drop_last(), id);
        assert(mid.step(ops.last()).history.subrange(0, mid.history.len() as int)
            == mid.history);
    }
}

/// A subscriber sees what was published since it joined: over any run of
/// operations after a subscription is opened, if no lag was reported to it,
/// it was handed exactly the chunks published after it joined, up to its
/// cursor, in order; once it has caught up, that is all of them.
pub proof fn lemma_subscriber_sees_all_since_joining(v: RelayView, ops: Seq<Op>)
    requires
        v.wf(),
        v.can_subscribe(),
        v.subscribe().run(ops).subscribed(v.next_id),
        v.subscribe().dropped(ops, v.next_id) == 0,
    ensures
        ({
            let id = v.next_id;
            let end = v.subscribe().run(ops);
            &&& end.history.subrange(0, v.history.len() as int) == v.history
            &&& v.subscribe().delivered(ops, id) == end.history.subrange(
                v.history.len() as int,
                end.cursors[id] as int,
            )
            &&& end.observe(id) is Empty || end.observe(id) is Closed ==> v.subscribe().delivered(
                ops,
                id,
            ) == end.history.subrange(v.history.len() as int, end.history.len() as int)
        }),
{
    lemma_run_monotone(v.subscribe(), ops, v.next_id, v.history.len());
    lemma_delivered_in_order(v.subscribe(), ops, v.next_id);
}

/// A subscriber that has read everything published so far and then sees the
/// chunks `chunks` published, no more of them than the relay retains,
/// receives exactly `chunks`, in that order, and then finds nothing more.
pub proof fn lemma_delivery_in_order(v: RelayView, id: u64, chunks: Seq<Seq<u8>>, k: nat)
    requires
        v.wf(),
        !v.closed,
        v.subscribed(id),
        v.cursors[id] == v.history.len(),
        chunks.len() <= v.capacity,
        v.history.len() + chunks.len() <= u64::MAX,
        k < chunks.len(),
    ensures
        v.publish_all(chunks).receive_n(id, k).observe(id) == Observed::Chunk(chunks[k as int]),
        v.publish_all(chunks).receive_n(id, chunks.len()).observe(id) == Observed::Empty,
{
    lemma_publish_all_appends(v, chunks);
    let w = v.publish_all(chunks);
    lemma_receive_n_advances(w, id, k);
    lemma_receive_n_advances(w, id, chunks.len());
}

/// No replay: whatever happens after a subscription is opened, every chunk
/// that it is handed was published after it was opened. The history from
/// before stays in place, and the subscription's cursor never points into it.
pub proof fn lemma_no_replay(v: RelayView, ops: Seq<Op>)
    requires
        v.wf(),
        v.can_subscribe(),
    ensures
        ({
            let id = v.next_id;
            let end = v.subscribe().run(ops);
            &&& end.history.subrange(0, v.history.len() as int) == v.history
            &&& end.subscribed(id) ==> end.cursors[id] >= v.history.len()
            &&& end.observe(id) is Chunk ==> end.cursors[id] >= v.history.len() && end.observe(id)
                == Observed::Chunk(end.history[end.cursors[id] as int])
        }),
{
    lemma_run_monotone(v.subscribe(), ops, v.next_id, v.history.len());
}

/// A new subscription has nothing to read until something is published.
pub proof fn lemma_new_subscription_is_empty(v: RelayView)
    requires
        v.wf(),
        v.can_subscribe(),
        !v.closed,
    ensures
        v.subscribe().observe(v.next_id) == Observed::Empty,
{
}

/// Slow-subscriber isolation: what a subscriber has yet to read never
/// exceeds the capacity, however far it has fallen behind, and a publish
/// does the same to the history whatever the subscribers' cursors are.
pub proof fn lemma_backlog_bounded(v: RelayView, ops: Seq<Op>, id: u64)
    requires
        v.wf(),
    ensures
        v.run(ops).subscribed(id) ==> v.run(ops).backlog(id) <= v.capacity,
        v.run(ops).window().len() <= v.capacity,
{
    lemma_run_wf(v, ops);
}

/// A publish neither reads nor changes any cursor.
pub proof fn lemma_publish_ignores_subscribers(v: RelayView, w: RelayView, chunk: Seq<u8>)
    requires
        v.history == w.history,
        v.closed == w.closed,
    ensures
        v.publish(chunk).history == w.publish(chunk).history,
        v.publish(chunk).cursors == v.cursors,
        w.publish(chunk).cursors == w.cursors,
{
}

/// Unsubscribing releases the slot: after a subscription is opened and ended
/// again, the set of subscribers, and so their number, is what it was.
pub proof fn lemma_unsubscribe_releases(v: RelayView)
    requires
        v.wf(),
        v.can_subscribe(),
    ensures
        v.subscribe().subscriber_count() == v.subscriber_count() + 1,
        v.subscribe().unsubscribe(v.next_id).cursors == v.cursors,
        v.subscribe().unsubscribe(v.next_id).subscriber_count() == v.subscriber_count(),
{
}

/// Ending any active subscription lowers the number of subscribers by one.
pub proof fn lemma_unsubscribe_counts(v: RelayView, id: u64)
    requires
        v.wf(),
        v.subscribed(id),
    ensures
        v.unsubscribe(id).subscriber_count() + 1 == v.subscriber_count(),
        !v.unsubscribe(id).subscribed(id),
{
}

/// Unsubscribing twice is unsubscribing once.
pub proof fn lemma_unsubscribe_idempotent(v: RelayView, id: u64)
    ensures
        v.unsubscribe(id).unsubscribe(id) == v.unsubscribe(id),
{
    assert(v.cursors.remove(id).remove(id) =~= v.cursors.remove(id));
}

} // verus!
