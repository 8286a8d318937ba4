//! What every step keeps of a scenario that is in order: the proofs behind the
//! loop that drives a simulation.
use crate::agenda::{later, Entry, LAST_INSTANT};
use crate::engine::{course, deliverable, delivers, driven, steps, Participant};
use crate::flags::Flag;
use crate::scenario::{pending, Scenario};
use crate::world::World;
use vstd::prelude::*;

verus! {

/// In a scenario that is in order, the entries pending are those of the two
/// sides: an entry that is pending is the producer's or the consumer's, and
/// its side is not suspended.
pub proof fn pending_entries_belong_to_the_sides(
    s: Scenario,
    w: World,
    producer_due: nat,
    consumer_due: nat,
    entry: Entry,
)
    requires
        s.sound(),
        s.paced(w, producer_due, consumer_due),
        w.queue.contains(entry),
    ensures
        entry == (producer_due, s.producer_at()) || entry == (consumer_due, s.consumer_at()),
        entry.1 == s.producer_at() ==> w.flags(s.flags_at()).producer != Flag::Passivated,
        entry.1 == s.consumer_at() ==> w.flags(s.flags_at()).consumer != Flag::Passivated,
{
}

/// In a scenario that is in order each side has one entry pending at most, so
/// a side that was warned has one wake pending and no more: the entry of a
/// warned side is its wake, due at the present time, and a suspended side has
/// no entry at all.
pub proof fn each_side_has_one_entry_at_most(
    s: Scenario,
    w: World,
    producer_due: nat,
    consumer_due: nat,
)
    requires
        s.sound(),
        s.paced(w, producer_due, consumer_due),
    ensures
        w.queue.len() <= 2,
        forall|entry: Entry| #[trigger] w.queue.count(entry) <= 1,
        forall|time: nat| #[trigger]
            w.queue.contains((time, s.producer_at())) ==> time == producer_due && w.flags(
                s.flags_at(),
            ).producer != Flag::Passivated,
        forall|time: nat| #[trigger]
            w.queue.contains((time, s.consumer_at())) ==> time == consumer_due && w.flags(
                s.flags_at(),
            ).consumer != Flag::Passivated,
        w.flags(s.flags_at()).producer == Flag::Warned ==> producer_due == w.now
            && w.queue.contains((w.now, s.producer_at())),
        w.flags(s.flags_at()).consumer == Flag::Warned ==> consumer_due == w.now
            && w.queue.contains((w.now, s.consumer_at())),
{
    let flags = w.flags(s.flags_at());
    assert forall|time: nat| #[trigger]
        w.queue.contains((time, s.producer_at())) implies time == producer_due
        && flags.producer != Flag::Passivated by {
        pending_entries_belong_to_the_sides(
            s,
            w,
            producer_due,
            consumer_due,
            (time, s.producer_at()),
        );
    }
    assert forall|time: nat| #[trigger]
        w.queue.contains((time, s.consumer_at())) implies time == consumer_due
        && flags.consumer != Flag::Passivated by {
        pending_entries_belong_to_the_sides(
            s,
            w,
            producer_due,
            consumer_due,
            (time, s.consumer_at()),
        );
    }
}

/// In a scenario that is in order nothing is due before the clock's time.
pub proof fn an_orderly_world_is_timely(s: Scenario, w: World)
    requires
        s.sound(),
        s.settled(w),
    ensures
        w.timely(),
{
    let (producer_due, consumer_due) = choose|producer_due: nat, consumer_due: nat| #[trigger]
        s.paced(w, producer_due, consumer_due);
    assert forall|entry: Entry| #[trigger] w.queue.contains(entry) implies w.now <= entry.0 by {
        pending_entries_belong_to_the_sides(s, w, producer_due, consumer_due, entry);
    }
}

/// In a scenario that is in order something is always pending: the two sides
/// are never suspended together.
pub proof fn something_is_always_pending(
    s: Scenario,
    w: World,
    producer_due: nat,
    consumer_due: nat,
)
    requires
        s.paced(w, producer_due, consumer_due),
    ensures
        w.queue.len() > 0,
{
}

/// One step of the producer in a scenario that is in order. `before` is the
/// world in which the producer's entry is next, `after` the world that its
/// handler leaves. The result gives the times at which the two sides are due
/// in `after`.
pub proof fn producer_step_keeps_the_pace(
    s: Scenario,
    before: World,
    producer_due: nat,
    consumer_due: nat,
    after: World,
) -> (due: (nat, nat))
    requires
        s.sound(),
        s.furnished(before),
        s.paced(before, producer_due, consumer_due),
        before.next((producer_due, s.producer_at())),
        after == s.producer.outcome(
            s.producer_at(),
            before.taken((producer_due, s.producer_at())),
        ),
    ensures
        s.furnished(after),
        s.paced(after, due.0, due.1),
        after.now == producer_due,
        after.count(s.count_at()) == s.producer.count_after(before.count(s.count_at())),
        after.flags(s.flags_at()) == s.producer.flags_after(
            before.flags(s.flags_at()),
            before.count(s.count_at()),
        ),
        due.0 == if s.producer.proceeds(before.count(s.count_at())) {
            later(producer_due, s.producer.interval)
        } else {
            producer_due
        },
        due.1 == if before.flags(s.flags_at()).consumer == Flag::Passivated {
            producer_due
        } else {
            consumer_due
        },
        before.now <= after.now <= before.now + s.span(),
        s.bounded(before) ==> s.bounded(after),
        s.lively() && after.now == before.now ==> s.slack(after, due.0, due.1) < s.slack(
            before,
            producer_due,
            consumer_due,
        ),
{
    let me = (producer_due, s.producer_at());
    let other = (consumer_due, s.consumer_at());
    let flags = before.flags(s.flags_at());
    let count = before.count(s.count_at());
    pending_entries_belong_to_the_sides(s, before, producer_due, consumer_due, me);
    let wake = flags.consumer == Flag::Passivated;
    let go = s.producer.proceeds(count);
    let due = (
        if go {
            later(producer_due, s.producer.interval)
        } else {
            producer_due
        },
        if wake {
            producer_due
        } else {
            consumer_due
        },
    );
    let left = after.flags(s.flags_at());
    assert(after.queue =~= pending(left.producer, (due.0, s.producer_at())).add(
        pending(left.consumer, (due.1, s.consumer_at())),
    ));
    if !wake {
        assert(before.queue.contains(other));
    }
    due
}

/// One step of the consumer in a scenario that is in order. `before` is the
/// world in which the consumer's entry is next, `after` the world that its
/// handler leaves. The result gives the times at which the two sides are due
/// in `after`.
pub proof fn consumer_step_keeps_the_pace(
    s: Scenario,
    before: World,
    producer_due: nat,
    consumer_due: nat,
    after: World,
) -> (due: (nat, nat))
    requires
        s.sound(),
        s.furnished(before),
        s.paced(before, producer_due, consumer_due),
        before.next((consumer_due, s.consumer_at())),
        after == s.consumer.outcome(
            s.consumer_at(),
            before.taken((consumer_due, s.consumer_at())),
        ),
    ensures
        s.furnished(after),
        s.paced(after, due.0, due.1),
        after.now == consumer_due,
        after.count(s.count_at()) == s.consumer.count_after(before.count(s.count_at())),
        after.flags(s.flags_at()) == s.consumer.flags_after(
            before.flags(s.flags_at()),
            before.count(s.count_at()),
        ),
        due.0 == if before.flags(s.flags_at()).producer == Flag::Passivated {
            consumer_due
        } else {
            producer_due
        },
        due.1 == if s.consumer.proceeds(before.count(s.count_at())) {
            later(consumer_due, s.consumer.interval)
        } else {
            consumer_due
        },
        before.now <= after.now <= before.now + s.span(),
        s.bounded(before) ==> s.bounded(after),
        s.lively() && after.now == before.now ==> s.slack(after, due.0, due.1) < s.slack(
            before,
            producer_due,
            consumer_due,
        ),
{
    let me = (consumer_due, s.consumer_at());
    let other = (producer_due, s.producer_at());
    let flags = before.flags(s.flags_at());
    let count = before.count(s.count_at());
    pending_entries_belong_to_the_sides(s, before, producer_due, consumer_due, me);
    let wake = flags.producer == Flag::Passivated;
    let go = s.consumer.proceeds(count);
    let due = (
        if wake {
            consumer_due
        } else {
            producer_due
        },
        if go {
            later(consumer_due, s.consumer.interval)
        } else {
            consumer_due
        },
    );
    let left = after.flags(s.flags_at());
    assert(after.queue =~= pending(left.producer, (due.0, s.producer_at())).add(
        pending(left.consumer, (due.1, s.consumer_at())),
    ));
    if !wake {
        assert(before.queue.contains(other));
    }
    due
}

/// Where the scenario is in order and registered, every entry that may be
/// taken next can be handed to its component, as long as the clock is two
/// spans short of the last instant.
pub proof fn next_entries_are_deliverable(
    s: Scenario,
    staff: Map<int, Participant>,
    w: World,
    entry: Entry,
)
    requires
        s.sound(),
        s.wired(staff),
        s.settled(w),
        s.fits(),
        w.now + 2 * s.span() <= LAST_INSTANT,
        w.next(entry),
    ensures
        deliverable(staff, w, entry),
{
    let (producer_due, consumer_due) = choose|producer_due: nat, consumer_due: nat| #[trigger]
        s.paced(w, producer_due, consumer_due);
    pending_entries_belong_to_the_sides(s, w, producer_due, consumer_due, entry);
}

/// One step of a simulation in which the scenario is in order: the step hands
/// `entry` out and leaves the world `after`. The scenario is in order in
/// `after`, with the due times that the result gives; the clock stands at the
/// time of the entry, which is not before its old time and at most one span
/// after it; the count stays bounded where it was; and in a lively scenario a
/// step that leaves the clock where it is lowers the slack.
pub proof fn step_keeps_the_pace(
    s: Scenario,
    staff: Map<int, Participant>,
    before: World,
    producer_due: nat,
    consumer_due: nat,
    entry: Entry,
    after: World,
) -> (due: (nat, nat))
    requires
        s.sound(),
        s.wired(staff),
        s.furnished(before),
        s.paced(before, producer_due, consumer_due),
        delivers(staff, before, entry, after),
    ensures
        s.furnished(after),
        s.paced(after, due.0, due.1),
        after.now == entry.0,
        before.now <= after.now <= before.now + s.span(),
        s.bounded(before) ==> s.bounded(after),
        s.lively() && after.now == before.now ==> s.slack(after, due.0, due.1) < s.slack(
            before,
            producer_due,
            consumer_due,
        ),
{
    pending_entries_belong_to_the_sides(s, before, producer_due, consumer_due, entry);
    if entry.1 == s.producer_at() {
        producer_step_keeps_the_pace(s, before, producer_due, consumer_due, after)
    } else {
        consumer_step_keeps_the_pace(s, before, producer_due, consumer_due, after)
    }
}

/// A step keeps the scenario in order and the count bounded, and moves the
/// clock forward by one span at most.
pub proof fn step_stays_in_order(
    s: Scenario,
    staff: Map<int, Participant>,
    before: World,
    after: World,
)
    requires
        s.sound(),
        s.wired(staff),
        s.settled(before),
        steps(staff, before, after),
    ensures
        s.settled(after),
        s.bounded(before) ==> s.bounded(after),
        before.now <= after.now <= before.now + s.span(),
{
    let entry = choose|entry: Entry| #[trigger] delivers(staff, before, entry, after);
    let (producer_due, consumer_due) = choose|producer_due: nat, consumer_due: nat| #[trigger]
        s.paced(before, producer_due, consumer_due);
    step_keeps_the_pace(s, staff, before, producer_due, consumer_due, entry, after);
}

/// Every world of a course that starts in order is in order, and bounded
/// where the first is; and the clock never goes back.
pub proof fn course_stays_in_order(
    s: Scenario,
    staff: Map<int, Participant>,
    worlds: Seq<World>,
    i: int,
)
    requires
        s.sound(),
        s.wired(staff),
        course(staff, worlds),
        0 <= i < worlds.len(),
        s.settled(worlds[0]),
    ensures
        s.settled(worlds[i]),
        s.bounded(worlds[0]) ==> s.bounded(worlds[i]),
        worlds[0].now <= worlds[i].now,
    decreases i,
{
    if i > 0 {
        course_stays_in_order(s, staff, worlds, i - 1);
        step_stays_in_order(s, staff, worlds[i - 1], worlds[i]);
    }
}

/// A course that starts in order and is driven to `stop` ends in order, with
/// the count bounded where it was at the start, and with the clock at `stop`
/// or later, but at most one span after the later of `stop` and the time at
/// which the course began.
pub proof fn driven_course_ends_in_order(
    s: Scenario,
    staff: Map<int, Participant>,
    worlds: Seq<World>,
    stop: nat,
)
    requires
        s.sound(),
        s.wired(staff),
        s.settled(worlds.first()),
        driven(staff, worlds, stop),
    ensures
        s.settled(worlds.last()),
        s.bounded(worlds.first()) ==> s.bounded(worlds.last()),
        worlds.first().now <= worlds.last().now,
        stop <= worlds.last().now,
        worlds.last().now <= s.span() + if worlds.first().now < stop {
            stop
        } else {
            worlds.first().now
        },
{
    let last = worlds.len() - 1;
    course_stays_in_order(s, staff, worlds, last);
    course_stays_in_order(s, staff, worlds, last - 1);
    step_stays_in_order(s, staff, worlds[last - 1], worlds[last]);
}

} // verus!
