//! What holds of the order in which an ingestion hands out its events.
//!
//! The order is defined by insertion, one event after the other. The lemmas
//! here say what that comes to: which accepted event stands at which place,
//! and how two places compare.

use crate::event::EventView;
use crate::ingest::{newest_first, place_ascending, stable_ascending};
use vstd::prelude::*;

verus! {

/// Whether two events happened at the same instant.
pub open spec fn same_instant(a: EventView, b: EventView) -> bool {
    !a.timestamp.before(b.timestamp) && !b.timestamp.before(a.timestamp)
}

/// Whether, of two accepted events given by their indices, the one at `a` is
/// shown before the one at `b`: it is later, or of the same instant and
/// further down in the log.
pub open spec fn shown_before(events: Seq<EventView>, a: int, b: int) -> bool {
    events[b].timestamp.before(events[a].timestamp) || (same_instant(events[a], events[b]) && a
        > b)
}

/// Where index `k` goes among indices in ascending order of their events'
/// time: behind every index whose event is not later.
pub open spec fn place_index(order: Seq<int>, events: Seq<EventView>, k: int) -> Seq<int>
    decreases order.len(),
{
    if order.len() > 0 && events[k].timestamp.before(events[order.last()].timestamp) {
        place_index(order.drop_last(), events, k).push(order.last())
    } else {
        order.push(k)
    }
}

/// The indices of the events in ascending order of time, those of one
/// instant in ascending order.
pub open spec fn ascending_order(events: Seq<EventView>) -> Seq<int>
    decreases events.len(),
{
    if events.len() == 0 {
        Seq::empty()
    } else {
        place_index(ascending_order(events.drop_last()), events, events.len() - 1)
    }
}

/// For each place of the list that is handed out, the index of the accepted
/// event that stands there.
pub open spec fn newest_first_order(events: Seq<EventView>) -> Seq<int> {
    ascending_order(events).reverse()
}

/// The index at which `e` is put into events in ascending order of time.
pub open spec fn ascending_slot(sorted: Seq<EventView>, e: EventView) -> int
    decreases sorted.len(),
{
    if sorted.len() > 0 && e.timestamp.before(sorted.last().timestamp) {
        ascending_slot(sorted.drop_last(), e)
    } else {
        sorted.len() as int
    }
}

/// How many events at the head of a list are later than `e`.
pub open spec fn later_prefix(shown: Seq<EventView>, e: EventView) -> int
    decreases shown.len(),
{
    if shown.len() > 0 && e.timestamp.before(shown[0].timestamp) {
        1 + later_prefix(shown.drop_first(), e)
    } else {
        0
    }
}

/// Whether `order` lists indices below `n` in ascending order of their
/// events' time, those of one instant in ascending order.
pub open spec fn ascends(order: Seq<int>, events: Seq<EventView>, n: int) -> bool {
    &&& forall|i: int| 0 <= i < order.len() ==> 0 <= #[trigger] order[i] < n
    &&& forall|i: int, j: int|
        0 <= i < j < order.len() ==> shown_before(events, #[trigger] order[j], #[trigger] order[i])
}

/// Putting an event in ascending order puts it at its slot; every event
/// from there on is later, and the one before is not.
pub proof fn lemma_ascending_slot(sorted: Seq<EventView>, e: EventView)
    ensures
        0 <= ascending_slot(sorted, e) <= sorted.len(),
        place_ascending(sorted, e) == sorted.insert(ascending_slot(sorted, e), e),
        forall|k: int|
            ascending_slot(sorted, e) <= k < sorted.len() ==> e.timestamp.before(
                #[trigger] sorted[k].timestamp,
            ),
        ascending_slot(sorted, e) > 0 ==> !e.timestamp.before(
            sorted[ascending_slot(sorted, e) - 1].timestamp,
        ),
    decreases sorted.len(),
{
    if sorted.len() > 0 && e.timestamp.before(sorted.last().timestamp) {
        let front = sorted.drop_last();
        lemma_ascending_slot(front, e);
        let j = ascending_slot(front, e);
        assert(front.insert(j, e).push(sorted.last()) =~= sorted.insert(j, e));
        assert forall|k: int| j <= k < sorted.len() implies e.timestamp.before(
            #[trigger] sorted[k].timestamp,
        ) by {
            if k < sorted.len() - 1 {
                assert(sorted[k] == front[k]);
            }
        }
    } else {
        assert(sorted.insert(sorted.len() as int, e) =~= sorted.push(e));
    }
}

/// Putting index `k` among indices below `k` that ascend gives indices up
/// to `k` that ascend, and the events at them are the events at the old
/// indices with the event at `k` put in ascending order.
pub proof fn lemma_place_index(order: Seq<int>, events: Seq<EventView>, k: int)
    requires
        0 <= k < events.len(),
        ascends(order, events, k),
    ensures
        ascends(place_index(order, events, k), events, k + 1),
        place_index(order, events, k).len() == order.len() + 1,
        place_index(order, events, k).contains(k),
        forall|x: int| order.contains(x) ==> place_index(order, events, k).contains(x),
        place_index(order, events, k).map_values(|i: int| events[i]) == place_ascending(
            order.map_values(|i: int| events[i]),
            events[k],
        ),
    decreases order.len(),
{
    let placed = place_index(order, events, k);
    let at = |i: int| events[i];
    if order.len() > 0 && events[k].timestamp.before(events[order.last()].timestamp) {
        let front = order.drop_last();
        let last = order.last();
        assert(ascends(front, events, k)) by {
            assert forall|i: int| 0 <= i < front.len() implies 0 <= #[trigger] front[i] < k by {
                assert(front[i] == order[i]);
            }
            assert forall|i: int, j: int| 0 <= i < j < front.len() implies shown_before(
                events,
                #[trigger] front[j],
                #[trigger] front[i],
            ) by {
                assert(front[i] == order[i] && front[j] == order[j]);
            }
        }
        lemma_place_index(front, events, k);
        let inner = place_index(front, events, k);
        assert(placed == inner.push(last));
        assert forall|i: int| 0 <= i < placed.len() implies 0 <= #[trigger] placed[i] < k + 1 by {
            if i < inner.len() {
                assert(placed[i] == inner[i]);
            } else {
                assert(placed[i] == order[order.len() - 1]);
            }
        }
        // every index in `inner` is `k` or one of `front`, and both come before `last`
        assert forall|i: int| 0 <= i < inner.len() implies shown_before(
            events,
            last,
            #[trigger] inner[i],
        ) by {
            lemma_placed_entries(front, events, k, i);
            if inner[i] == k {
            } else {
                let w = choose|w: int| 0 <= w < front.len() && front[w] == inner[i];
                assert(front[w] == order[w]);
                assert(shown_before(events, order[order.len() - 1], order[w]));
            }
        }
        assert forall|i: int, j: int| 0 <= i < j < placed.len() implies shown_before(
            events,
            #[trigger] placed[j],
            #[trigger] placed[i],
        ) by {
            if j < inner.len() {
                assert(placed[i] == inner[i] && placed[j] == inner[j]);
            } else {
                assert(placed[j] == last);
                assert(placed[i] == inner[i]);
            }
        }
        assert(placed.contains(k)) by {
            let w = choose|w: int| 0 <= w < inner.len() && inner[w] == k;
            assert(placed[w] == k);
        }
        assert forall|x: int| order.contains(x) implies placed.contains(x) by {
            let w = choose|w: int| 0 <= w < order.len() && order[w] == x;
            if w < front.len() {
                assert(front[w] == x);
                assert(front.contains(x));
                let v = choose|v: int| 0 <= v < inner.len() && inner[v] == x;
                assert(placed[v] == x);
            } else {
                assert(placed[placed.len() - 1] == x);
            }
        }
        assert(order.map_values(at).drop_last() =~= front.map_values(at));
        assert(order.map_values(at).last() == events[last]);
        assert(placed.map_values(at) =~= inner.map_values(at).push(events[last]));
    } else {
        assert(placed == order.push(k));
        assert forall|i: int| 0 <= i < placed.len() implies 0 <= #[trigger] placed[i] < k + 1 by {
            if i < order.len() {
                assert(placed[i] == order[i]);
            }
        }
        assert forall|i: int, j: int| 0 <= i < j < placed.len() implies shown_before(
            events,
            #[trigger] placed[j],
            #[trigger] placed[i],
        ) by {
            if j < order.len() {
                assert(placed[i] == order[i] && placed[j] == order[j]);
            } else {
                assert(placed[j] == k);
                assert(placed[i] == order[i]);
                // order[i] comes no later than order.last(), which is not later than k
                if i < order.len() - 1 {
                    assert(shown_before(events, order[order.len() - 1], order[i]));
                }
            }
        }
        assert(placed[placed.len() - 1] == k);
        assert forall|x: int| order.contains(x) implies placed.contains(x) by {
            let w = choose|w: int| 0 <= w < order.len() && order[w] == x;
            assert(placed[w] == x);
        }
        assert(placed.map_values(at) =~= order.map_values(at).push(events[k]));
    }
}

/// Each entry of a list into which `k` was put is `k` or was there before.
pub proof fn lemma_placed_entries(order: Seq<int>, events: Seq<EventView>, k: int, i: int)
    requires
        0 <= i < place_index(order, events, k).len(),
    ensures
        place_index(order, events, k)[i] == k || exists|w: int|
            0 <= w < order.len() && order[w] == place_index(order, events, k)[i],
    decreases order.len(),
{
    if order.len() > 0 && events[k].timestamp.before(events[order.last()].timestamp) {
        let inner = place_index(order.drop_last(), events, k);
        if i < inner.len() {
            lemma_placed_entries(order.drop_last(), events, k, i);
            if inner[i] != k {
                let w = choose|w: int|
                    0 <= w < order.drop_last().len() && order.drop_last()[w] == inner[i];
                assert(order[w] == inner[i]);
            }
        } else {
            assert(order[order.len() - 1] == place_index(order, events, k)[i]);
        }
    } else {
        if i < order.len() {
            assert(order[i] == place_index(order, events, k)[i]);
        }
    }
}

/// The indices in ascending order are all the indices, they ascend, and the
/// events at them are the events in ascending order.
pub proof fn lemma_ascending_order(events: Seq<EventView>)
    ensures
        ascending_order(events).len() == events.len(),
        ascends(ascending_order(events), events, events.len() as int),
        forall|k: int| 0 <= k < events.len() ==> ascending_order(events).contains(k),
        ascending_order(events).map_values(|i: int| events[i]) == stable_ascending(events),
    decreases events.len(),
{
    if events.len() == 0 {
        assert(ascending_order(events).map_values(|i: int| events[i]) =~= stable_ascending(
            events,
        ));
    } else {
        let front = events.drop_last();
        let k = events.len() - 1;
        lemma_ascending_order(front);
        let order = ascending_order(front);
        assert(ascends(order, events, k)) by {
            assert forall|i: int, j: int| 0 <= i < j < order.len() implies shown_before(
                events,
                #[trigger] order[j],
                #[trigger] order[i],
            ) by {
                assert(shown_before(front, order[j], order[i]));
                assert(front[order[i]] == events[order[i]]);
                assert(front[order[j]] == events[order[j]]);
            }
        }
        lemma_place_index(order, events, k);
        assert(order.map_values(|i: int| events[i]) =~= order.map_values(|i: int| front[i]));
        assert forall|x: int| 0 <= x < events.len() implies ascending_order(events).contains(
            x,
        ) by {
            if x < k {
                assert(order.contains(x));
            }
        }
    }
}

/// The order of the list that an ingestion hands out. Each place holds one
/// accepted event and each accepted event has a place. Of two places the
/// earlier holds the later event; where both events are of one instant, it
/// holds the one further down in the log.
pub proof fn lemma_newest_first_order(events: Seq<EventView>)
    ensures
        newest_first(events).len() == events.len(),
        newest_first_order(events).len() == events.len(),
        forall|i: int|
            0 <= i < events.len() ==> 0 <= #[trigger] newest_first_order(events)[i] < events.len()
                && newest_first(events)[i] == events[newest_first_order(events)[i]],
        forall|k: int| 0 <= k < events.len() ==> newest_first_order(events).contains(k),
        forall|i: int, j: int|
            0 <= i < j < events.len() ==> shown_before(
                events,
                #[trigger] newest_first_order(events)[i],
                #[trigger] newest_first_order(events)[j],
            ),
{
    lemma_ascending_order(events);
    let up = ascending_order(events);
    let n = events.len() as int;
    let down = newest_first_order(events);
    assert(down.len() == n);
    assert forall|i: int| 0 <= i < n implies down[i] == up[n - 1 - i] by {}
    assert forall|i: int| 0 <= i < n implies 0 <= #[trigger] down[i] < n && newest_first(
        events,
    )[i] == events[down[i]] by {
        assert(down[i] == up[n - 1 - i]);
        assert(stable_ascending(events)[n - 1 - i] == up.map_values(|x: int| events[x])[n - 1
            - i]);
    }
    assert forall|k: int| 0 <= k < n implies down.contains(k) by {
        assert(up.contains(k));
        let w = choose|w: int| 0 <= w < up.len() && up[w] == k;
        assert(down[n - 1 - w] == k);
    }
    assert forall|i: int, j: int| 0 <= i < j < n implies shown_before(
        events,
        #[trigger] down[i],
        #[trigger] down[j],
    ) by {
        assert(down[i] == up[n - 1 - i]);
        assert(down[j] == up[n - 1 - j]);
    }
}

/// Of two accepted events the later is shown first; of two of one instant,
/// the one further down in the log.
pub proof fn lemma_later_event_shown_first(events: Seq<EventView>, a: int, b: int)
    requires
        0 <= a < events.len(),
        0 <= b < events.len(),
        shown_before(events, a, b),
    ensures
        exists|i: int, j: int|
            0 <= i < j < events.len() && newest_first_order(events)[i] == a && newest_first_order(
                events,
            )[j] == b && newest_first(events)[i] == events[a] && newest_first(events)[j]
                == events[b],
{
    lemma_newest_first_order(events);
    let down = newest_first_order(events);
    assert(down.contains(a));
    assert(down.contains(b));
    let i = choose|i: int| 0 <= i < down.len() && down[i] == a;
    let j = choose|j: int| 0 <= j < down.len() && down[j] == b;
    if i == j {
    } else if j < i {
        assert(shown_before(events, down[j], down[i]));
    }
}

/// One more accepted event leaves the others where they were, each behind
/// the one it was behind, and goes behind exactly those that are
/// later than it.
pub proof fn lemma_one_more_event(events: Seq<EventView>, e: EventView)
    ensures
        newest_first(events).len() == events.len(),
        0 <= later_prefix(newest_first(events), e) <= events.len(),
        newest_first(events.push(e)) == newest_first(events).insert(
            later_prefix(newest_first(events), e),
            e,
        ),
        newest_first(events.push(e)).remove(later_prefix(newest_first(events), e)) == newest_first(
            events,
        ),
{
    let up = stable_ascending(events);
    lemma_ascending_order(events);
    assert(up.len() == events.len());
    assert(events.push(e).drop_last() =~= events);
    lemma_ascending_slot(up, e);
    let j = ascending_slot(up, e);
    lemma_later_prefix(up, e);
    let n = up.len() as int;
    assert(up.insert(j, e).reverse() =~= up.reverse().insert(n - j, e));
    assert(up.reverse().insert(n - j, e).remove(n - j) =~= up.reverse());
}

/// The events later than `e` at the head of the reversed list are those
/// behind the slot of `e`.
pub proof fn lemma_later_prefix(sorted: Seq<EventView>, e: EventView)
    ensures
        later_prefix(sorted.reverse(), e) == sorted.len() - ascending_slot(sorted, e),
    decreases sorted.len(),
{
    if sorted.len() > 0 && e.timestamp.before(sorted.last().timestamp) {
        lemma_later_prefix(sorted.drop_last(), e);
        assert(sorted.reverse().drop_first() =~= sorted.drop_last().reverse());
        assert(sorted.reverse()[0] == sorted.last());
    } else if sorted.len() > 0 {
        assert(sorted.reverse()[0] == sorted.last());
    } else {
    }
}

} // verus!
