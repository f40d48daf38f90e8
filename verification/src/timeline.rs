//! Chronological order of provisioning events.
//!
//! Events reach the store in any order. A history is presented oldest first,
//! and events of one instant keep the order in which they were found.

use crate::model::LogEvent;
use vstd::prelude::*;

verus! {

/// No event stands before an earlier one.
pub open spec fn is_time_ordered(events: Seq<LogEvent>) -> bool {
    forall|i: int, j: int|
        0 <= i <= j < events.len() ==> events[i].time.instant() <= events[j].time.instant()
}

/// The events of `events` that happened at `instant`, in their order.
pub open spec fn at_instant(events: Seq<LogEvent>, instant: int) -> Seq<LogEvent> {
    events.filter(|e: LogEvent| e.time.instant() == instant)
}

/// Where `event` goes in the history `ordered`: behind the last event that is
/// not later than it, and at the front if there is none.
pub open spec fn slot(ordered: Seq<LogEvent>, event: LogEvent) -> int
    decreases ordered.len(),
{
    if ordered.len() == 0 {
        0
    } else if ordered.last().time.instant() <= event.time.instant() {
        ordered.len() as int
    } else {
        slot(ordered.drop_last(), event)
    }
}

/// `ordered` with `event` put in at its slot.
pub open spec fn placed(ordered: Seq<LogEvent>, event: LogEvent) -> Seq<LogEvent> {
    ordered.insert(slot(ordered, event), event)
}

/// `events` oldest first, events of one instant in the order they have in
/// `events`.
pub open spec fn time_sorted(events: Seq<LogEvent>) -> Seq<LogEvent>
    decreases events.len(),
{
    if events.len() == 0 {
        events
    } else {
        placed(time_sorted(events.drop_last()), events.last())
    }
}

/// The slot of `event` lies within `ordered`, every event from it on is later
/// than `event`, and the event before it is not.
pub proof fn lemma_slot_bounds(ordered: Seq<LogEvent>, event: LogEvent)
    ensures
        0 <= slot(ordered, event) <= ordered.len(),
        forall|i: int|
            slot(ordered, event) <= i < ordered.len() ==> ordered[i].time.instant()
                > event.time.instant(),
        slot(ordered, event) > 0 ==> ordered[slot(ordered, event) - 1].time.instant()
            <= event.time.instant(),
    decreases ordered.len(),
{
    if ordered.len() > 0 && ordered.last().time.instant() > event.time.instant() {
        let rest = ordered.drop_last();
        lemma_slot_bounds(rest, event);
        assert forall|i: int| slot(ordered, event) <= i < ordered.len() implies ordered[i].time.instant()
            > event.time.instant() by {
            if i < rest.len() {
                assert(ordered[i] == rest[i]);
            }
        }
        if slot(ordered, event) > 0 {
            assert(ordered[slot(ordered, event) - 1] == rest[slot(rest, event) - 1]);
        }
    }
}

/// The slot is the one place that has only later events from it on and an
/// event that is not later before it.
pub proof fn lemma_slot_found(ordered: Seq<LogEvent>, event: LogEvent, k: int)
    requires
        0 <= k <= ordered.len(),
        forall|i: int| k <= i < ordered.len() ==> ordered[i].time.instant() > event.time.instant(),
        k > 0 ==> ordered[k - 1].time.instant() <= event.time.instant(),
    ensures
        slot(ordered, event) == k,
    decreases ordered.len(),
{
    if ordered.len() > 0 && ordered.last().time.instant() > event.time.instant() {
        lemma_slot_found(ordered.drop_last(), event, k);
    }
}

/// Putting an event into an ordered history leaves it ordered.
pub proof fn lemma_placed_keeps_order(ordered: Seq<LogEvent>, event: LogEvent)
    requires
        is_time_ordered(ordered),
    ensures
        is_time_ordered(placed(ordered, event)),
{
    lemma_slot_bounds(ordered, event);
    let k = slot(ordered, event);
    let after = placed(ordered, event);
    assert forall|i: int, j: int| 0 <= i <= j < after.len() implies after[i].time.instant()
        <= after[j].time.instant() by {
        if i < k {
            assert(after[i] == ordered[i]);
            assert(ordered[i].time.instant() <= ordered[k - 1].time.instant());
        } else if i > k {
            assert(after[i] == ordered[i - 1]);
        }
        if j < k {
            assert(after[j] == ordered[j]);
        } else if j > k {
            assert(after[j] == ordered[j - 1]);
        }
    }
}

/// Putting an event in changes the events of each instant as appending it
/// would: the event comes behind those of its own instant.
pub proof fn lemma_placed_is_stable(ordered: Seq<LogEvent>, event: LogEvent, instant: int)
    ensures
        at_instant(placed(ordered, event), instant) == at_instant(ordered.push(event), instant),
{
    lemma_slot_bounds(ordered, event);
    let k = slot(ordered, event);
    let at = |e: LogEvent| e.time.instant() == instant;
    let front = ordered.subrange(0, k);
    let back = ordered.subrange(k, ordered.len() as int);
    let one = seq![event];
    assert(placed(ordered, event) =~= front + one + back);
    assert(ordered.push(event) =~= front + back + one);
    Seq::filter_distributes_over_add(front + one, back, at);
    Seq::filter_distributes_over_add(front, one, at);
    Seq::filter_distributes_over_add(front + back, one, at);
    Seq::filter_distributes_over_add(front, back, at);
    if instant == event.time.instant() {
        back.lemma_all_neg_filter_empty(at);
        assert(back.filter(at) =~= Seq::empty());
    } else {
        one.lemma_all_neg_filter_empty(at);
        assert(one.filter(at) =~= Seq::empty());
    }
    assert(front.filter(at) + one.filter(at) + back.filter(at) =~= front.filter(at) + back.filter(
        at,
    ) + one.filter(at));
}

/// A sorted history is ordered.
pub proof fn lemma_time_sorted_is_ordered(events: Seq<LogEvent>)
    ensures
        is_time_ordered(time_sorted(events)),
    decreases events.len(),
{
    if events.len() > 0 {
        lemma_time_sorted_is_ordered(events.drop_last());
        lemma_placed_keeps_order(time_sorted(events.drop_last()), events.last());
    }
}

/// Sorting neither adds nor loses an event.
pub proof fn lemma_time_sorted_is_permutation(events: Seq<LogEvent>)
    ensures
        time_sorted(events).to_multiset() == events.to_multiset(),
        time_sorted(events).len() == events.len(),
    decreases events.len(),
{
    if events.len() > 0 {
        let rest = events.drop_last();
        lemma_time_sorted_is_permutation(rest);
        lemma_slot_bounds(time_sorted(rest), events.last());
        vstd::seq_lib::to_multiset_insert(
            time_sorted(rest),
            slot(time_sorted(rest), events.last()),
            events.last(),
        );
        vstd::seq_lib::to_multiset_build(rest, events.last());
        assert(rest.push(events.last()) =~= events);
    }
}

/// Sorting keeps the events of each instant in the order in which they came.
pub proof fn lemma_time_sorted_is_stable(events: Seq<LogEvent>, instant: int)
    ensures
        at_instant(time_sorted(events), instant) == at_instant(events, instant),
    decreases events.len(),
{
    if events.len() > 0 {
        let rest = events.drop_last();
        let at = |e: LogEvent| e.time.instant() == instant;
        lemma_time_sorted_is_stable(rest, instant);
        lemma_placed_is_stable(time_sorted(rest), events.last(), instant);
        time_sorted(rest).lemma_filter_push(events.last(), at);
        rest.lemma_filter_push(events.last(), at);
        assert(rest.push(events.last()) =~= events);
    }
}

/// A history that is ordered already is its own sorting.
pub proof fn lemma_time_sorted_keeps_ordered(events: Seq<LogEvent>)
    requires
        is_time_ordered(events),
    ensures
        time_sorted(events) == events,
    decreases events.len(),
{
    if events.len() > 0 {
        let rest = events.drop_last();
        lemma_time_sorted_keeps_ordered(rest);
        lemma_slot_found(rest, events.last(), rest.len() as int);
        assert(rest.insert(rest.len() as int, events.last()) =~= events);
    }
}

/// The last event of a history is the last of the events of its instant, and
/// leaving it out leaves the events of every other instant as they are.
proof fn lemma_last_at_instant(events: Seq<LogEvent>, instant: int)
    requires
        events.len() > 0,
    ensures
        events.last().time.instant() == instant ==> at_instant(events, instant) == at_instant(
            events.drop_last(),
            instant,
        ).push(events.last()),
        events.last().time.instant() != instant ==> at_instant(events, instant) == at_instant(
            events.drop_last(),
            instant,
        ),
{
    let at = |e: LogEvent| e.time.instant() == instant;
    events.drop_last().lemma_filter_push(events.last(), at);
    assert(events.drop_last().push(events.last()) =~= events);
}

/// Two ordered histories that have the same events at every instant, in the
/// same order, are one history.
pub proof fn lemma_ordered_histories_agree(a: Seq<LogEvent>, b: Seq<LogEvent>)
    requires
        is_time_ordered(a),
        is_time_ordered(b),
        forall|instant: int| at_instant(a, instant) == at_instant(b, instant),
    ensures
        a == b,
    decreases a.len(),
{
    if a.len() == 0 {
        if b.len() > 0 {
            let t = b.last().time.instant();
            lemma_last_at_instant(b, t);
            assert(at_instant(a, t).len() == 0) by {
                a.lemma_filter_len(|e: LogEvent| e.time.instant() == t);
            }
            assert(at_instant(a, t) == at_instant(b, t));
        }
        assert(a =~= b);
    } else {
        let x = a.last();
        let t = x.time.instant();
        lemma_last_at_instant(a, t);
        assert(at_instant(a, t) == at_instant(b, t));
        assert(at_instant(b, t).last() == x);
        if b.len() == 0 {
            b.lemma_filter_len(|e: LogEvent| e.time.instant() == t);
        }
        let y = b.last();
        let u = y.time.instant();
        lemma_last_at_instant(b, u);
        assert(at_instant(a, u) == at_instant(b, u));
        assert(at_instant(a, u).last() == y);
        assert(u <= t) by {
            assert(at_instant(a, u).contains(y));
            a.lemma_filter_contains_rev(|e: LogEvent| e.time.instant() == u, y);
            let i = choose|i: int| 0 <= i < a.len() && a[i] == y;
            assert(a[i].time.instant() <= a[a.len() - 1].time.instant());
        }
        assert(t <= u) by {
            assert(at_instant(b, t).contains(x));
            b.lemma_filter_contains_rev(|e: LogEvent| e.time.instant() == t, x);
            let i = choose|i: int| 0 <= i < b.len() && b[i] == x;
            assert(b[i].time.instant() <= b[b.len() - 1].time.instant());
        }
        assert(x == y);
        let shorter_a = a.drop_last();
        let shorter_b = b.drop_last();
        assert(is_time_ordered(shorter_a)) by {
            assert forall|i: int, j: int| 0 <= i <= j < shorter_a.len() implies shorter_a[i].time.instant()
                <= shorter_a[j].time.instant() by {
                assert(shorter_a[i] == a[i] && shorter_a[j] == a[j]);
            }
        }
        assert(is_time_ordered(shorter_b)) by {
            assert forall|i: int, j: int| 0 <= i <= j < shorter_b.len() implies shorter_b[i].time.instant()
                <= shorter_b[j].time.instant() by {
                assert(shorter_b[i] == b[i] && shorter_b[j] == b[j]);
            }
        }
        assert forall|instant: int| at_instant(shorter_a, instant) == at_instant(
            shorter_b,
            instant,
        ) by {
            lemma_last_at_instant(a, instant);
            lemma_last_at_instant(b, instant);
            assert(at_instant(a, instant) == at_instant(b, instant));
            if instant == t {
                assert(at_instant(shorter_a, instant).push(x).drop_last() =~= at_instant(
                    shorter_a,
                    instant,
                ));
                assert(at_instant(shorter_b, instant).push(x).drop_last() =~= at_instant(
                    shorter_b,
                    instant,
                ));
            }
        }
        lemma_ordered_histories_agree(shorter_a, shorter_b);
        assert(a =~= shorter_a.push(x));
        assert(b =~= shorter_b.push(y));
    }
}

/// The sorting of a history is the one ordered history that has, at every
/// instant, the events of that instant in the order in which they came.
pub proof fn lemma_time_sorted_is_unique(events: Seq<LogEvent>, ordered: Seq<LogEvent>)
    requires
        is_time_ordered(ordered),
        forall|instant: int| at_instant(ordered, instant) == at_instant(events, instant),
    ensures
        ordered == time_sorted(events),
{
    lemma_time_sorted_is_ordered(events);
    assert forall|instant: int| at_instant(ordered, instant) == at_instant(
        time_sorted(events),
        instant,
    ) by {
        lemma_time_sorted_is_stable(events, instant);
        assert(at_instant(ordered, instant) == at_instant(events, instant));
    }
    lemma_ordered_histories_agree(ordered, time_sorted(events));
}

/// Sorts a history oldest first. Events of one instant keep their order.
pub fn sort_by_time(events: Vec<LogEvent>) -> (sorted: Vec<LogEvent>)
    ensures
        sorted@ == time_sorted(events@),
{
    let ghost all = events@;
    let mut sorted: Vec<LogEvent> = Vec::new();
    for event in it: events
        invariant
            it.seq() == all,
            sorted@ == time_sorted(all.take(it.index() as int)),
    {
        let mut k: usize = sorted.len();
        while k > 0 && sorted[k - 1].time.is_after(&event.time)
            invariant
                k <= sorted.len(),
                forall|i: int|
                    k <= i < sorted.len() ==> sorted[i].time.instant() > event.time.instant(),
            decreases k,
        {
            k = k - 1;
        }
        proof {
            lemma_slot_found(sorted@, event, k as int);
            assert(all.take(it.index() + 1).drop_last() =~= all.take(it.index() as int));
        }
        sorted.insert(k, event);
    }
    proof {
        assert(all.take(all.len() as int) =~= all);
    }
    sorted
}

} // verus!
