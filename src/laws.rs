use vstd::prelude::*;
use crate::model::{Track, PlayerState, PlayerEvent};
use crate::player::{Plan, consistent, inserted_next, enter_plan, advance_plan, retreat_plan};
use crate::publish::{Publication, announced};

verus! {

/// The queue after appending each batch in turn, as a sequence of
/// `queue_multiple` calls leaves it (a `queue_single` call is a batch of one).
pub open spec fn after_enqueues(queue: Seq<Track>, batches: Seq<Seq<Track>>) -> Seq<Track>
    decreases batches.len(),
{
    if batches.len() == 0 {
        queue
    } else {
        after_enqueues(queue + batches[0], batches.drop_first())
    }
}

/// The number of tracks in all the batches.
pub open spec fn total_len(batches: Seq<Seq<Track>>) -> int
    decreases batches.len(),
{
    if batches.len() == 0 {
        0
    } else {
        batches[0].len() + total_len(batches.drop_first())
    }
}

/// Enqueued tracks stand after what was queued before, in the exact order in
/// which they were submitted, and the queue grows by exactly their number.
pub proof fn lemma_enqueue_order(queue: Seq<Track>, batches: Seq<Seq<Track>>)
    ensures
        after_enqueues(queue, batches) == queue + batches.flatten(),
        after_enqueues(queue, batches).len() == queue.len() + total_len(batches),
    decreases batches.len(),
{
    if batches.len() > 0 {
        lemma_enqueue_order(queue + batches[0], batches.drop_first());
        assert(queue + batches[0] + batches.drop_first().flatten() =~= queue + batches.flatten());
    }
}

/// Enqueueing one track is enqueueing a batch of one.
pub proof fn lemma_single_is_batch(queue: Seq<Track>, t: Track)
    ensures
        queue.push(t) == queue + seq![t],
{
    assert(queue.push(t) =~= queue + seq![t]);
}

/// With a current track at `index`, `queue_next` puts its track right after
/// it; a second call puts its track right after the current one again, ahead
/// of the first, and nothing up to the cursor moves.
pub proof fn lemma_queue_next_twice(queue: Seq<Track>, index: int, x: Track, y: Track)
    requires
        0 <= index < queue.len(),
    ensures
        inserted_next(queue, index, x) == queue.subrange(0, index + 1) + seq![x]
            + queue.subrange(index + 1, queue.len() as int),
        inserted_next(inserted_next(queue, index, x), index, y) == queue.subrange(0, index + 1)
            + seq![y, x] + queue.subrange(index + 1, queue.len() as int),
        forall|k: int|
            0 <= k <= index ==> #[trigger] inserted_next(inserted_next(queue, index, x), index, y)[k]
                == queue[k],
{
    let once = inserted_next(queue, index, x);
    let twice = inserted_next(once, index, y);
    assert(once =~= queue.subrange(0, index + 1) + seq![x] + queue.subrange(index + 1, queue.len() as int));
    assert(twice =~= queue.subrange(0, index + 1) + seq![y, x] + queue.subrange(
        index + 1,
        queue.len() as int,
    ));
}

/// The queue after `queue_next` with each track of `ts` in turn, the cursor
/// staying at `index`.
pub open spec fn after_queue_nexts(queue: Seq<Track>, index: int, ts: Seq<Track>) -> Seq<Track>
    decreases ts.len(),
{
    if ts.len() == 0 {
        queue
    } else {
        after_queue_nexts(inserted_next(queue, index, ts[0]), index, ts.drop_first())
    }
}

/// With a current track at `index`, any number of `queue_next` calls leave the
/// tracks up to the cursor and those after it in place, with the new tracks
/// between them, each directly after the current track at its call: the
/// latest call's track comes first.
pub proof fn lemma_queue_next_many(queue: Seq<Track>, index: int, ts: Seq<Track>)
    requires
        0 <= index < queue.len(),
    ensures
        after_queue_nexts(queue, index, ts) == queue.subrange(0, index + 1) + ts.reverse()
            + queue.subrange(index + 1, queue.len() as int),
        after_queue_nexts(queue, index, ts).len() == queue.len() + ts.len(),
    decreases ts.len(),
{
    if ts.len() > 0 {
        let once = inserted_next(queue, index, ts[0]);
        assert(once =~= queue.subrange(0, index + 1) + seq![ts[0]] + queue.subrange(
            index + 1,
            queue.len() as int,
        ));
        lemma_queue_next_many(once, index, ts.drop_first());
        assert(once.subrange(0, index + 1) =~= queue.subrange(0, index + 1));
        assert(once.subrange(index + 1, once.len() as int) =~= seq![ts[0]] + queue.subrange(
            index + 1,
            queue.len() as int,
        ));
        assert(ts.reverse() =~= ts.drop_first().reverse() + seq![ts[0]]);
        assert(after_queue_nexts(queue, index, ts) =~= queue.subrange(0, index + 1) + ts.reverse()
            + queue.subrange(index + 1, queue.len() as int));
    } else {
        assert(ts.reverse() =~= Seq::<Track>::empty());
        assert(queue =~= queue.subrange(0, index + 1) + ts.reverse() + queue.subrange(
            index + 1,
            queue.len() as int,
        ));
    }
}

/// Advancing from the last track, or from past the end, stops the player and
/// selects no track.
pub proof fn lemma_advance_past_end(
    queue: Seq<Track>,
    index: int,
    current: Option<Track>,
    st: PlayerState,
)
    requires
        consistent(queue, index, current),
        0 <= index,
        queue.len() <= index + 1,
    ensures
        ({
            let p = advance_plan(queue, index, current, st);
            &&& p.state == PlayerState::Stop
            &&& !p.selects
            &&& p.track is None
            &&& p.events == seq![PlayerEvent::StateChanged(PlayerState::Stop)]
        }),
{
}

/// Retreating from the start of the queue stops the player and selects no
/// track.
pub proof fn lemma_retreat_before_start(queue: Seq<Track>, current: Option<Track>, st: PlayerState)
    ensures
        ({
            let p = retreat_plan(queue, 0, current, st);
            &&& p.state == PlayerState::Stop
            &&& !p.selects
            &&& p.events == seq![PlayerEvent::StateChanged(PlayerState::Stop)]
        }),
{
}

/// A transition that enters `s` announces it first, with exactly one
/// `StateChanged`, which carries `s`; on the bus it is the first event sent.
pub proof fn lemma_set_state_announces(
    queue: Seq<Track>,
    index: int,
    current: Option<Track>,
    st: PlayerState,
    s: PlayerState,
)
    requires
        enter_plan(queue, index, current, st, s) is Some,
    ensures
        ({
            let p = enter_plan(queue, index, current, st, s).unwrap();
            &&& p.state == s
            &&& p.events.len() >= 1
            &&& p.events[0] == PlayerEvent::StateChanged(s)
            &&& forall|k: int| 1 <= k < p.events.len() ==> !(#[trigger] p.events[k] is StateChanged)
            &&& announced(p.events)[0] == Publication::Announced(PlayerEvent::StateChanged(s))
            &&& forall|k: int|
                1 <= k < p.events.len() ==> !(#[trigger] announced(p.events)[k] matches
                    Publication::Announced(PlayerEvent::StateChanged(_)))
        }),
{
}

/// A transition that selects a track announces it with exactly one
/// `TrackChanged`, which carries the track that becomes current; one that
/// selects none announces no track.
pub open spec fn announces_selection(p: Plan) -> bool {
    &&& p.selects ==> (p.track matches Some(t) && exists|k: int|
        0 <= k < p.events.len() && #[trigger] p.events[k] == PlayerEvent::TrackChanged(t))
    &&& forall|k: int|
        0 <= k < p.events.len() ==> (#[trigger] p.events[k] matches PlayerEvent::TrackChanged(t)
            ==> p.selects && p.track == Some(t))
    &&& forall|j: int, k: int|
        0 <= j < p.events.len() && 0 <= k < p.events.len() && #[trigger] p.events[j] is TrackChanged
            && #[trigger] p.events[k] is TrackChanged ==> j == k
}

/// Every transition the player plans announces its track selection exactly
/// once, with the track that becomes current.
pub proof fn lemma_selection_announced(
    queue: Seq<Track>,
    index: int,
    current: Option<Track>,
    st: PlayerState,
    s: PlayerState,
)
    ensures
        enter_plan(queue, index, current, st, s) matches Some(p) ==> announces_selection(p),
        announces_selection(advance_plan(queue, index, current, st)),
        announces_selection(retreat_plan(queue, index, current, st)),
{
    let a = advance_plan(queue, index, current, st);
    let r = retreat_plan(queue, index, current, st);
    if a.selects {
        assert(a.events[0] == PlayerEvent::TrackChanged(a.track.unwrap()));
    }
    if r.selects {
        assert(r.events[0] == PlayerEvent::TrackChanged(r.track.unwrap()));
    }
    if enter_plan(queue, index, current, st, s) is Some {
        let p = enter_plan(queue, index, current, st, s).unwrap();
        if p.selects {
            assert(p.events[1] == PlayerEvent::TrackChanged(p.track.unwrap()));
        }
    }
}

} // verus!
