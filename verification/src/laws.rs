//! What holds of the handlers and of every step, whatever the scenario.
use crate::agenda::{consumer_index, later, producer_index, Entry};
use crate::consumer::Consumer;
use crate::engine::{delivers, steps, Participant};
use crate::flags::{Flag, Flags};
use crate::producer::Producer;
use crate::store::{address_key, count_key, flags_key};
use crate::world::World;
use vstd::multiset::Multiset;
use vstd::prelude::*;

verus! {

/// A flag goes from `Passivated` to `Warned`.
pub open spec fn warned(before: Flag, after: Flag) -> bool {
    before == Flag::Passivated && after == Flag::Warned
}

/// The entries that a handler adds for the other side: one wake entry, due at
/// the present time, where it warns the other side, and none where it does
/// not.
pub open spec fn wakes(warns: bool, now: nat, other: int) -> Multiset<Entry> {
    if warns {
        Multiset::singleton((now, other))
    } else {
        Multiset::empty()
    }
}

/// The entries that a handler adds for its own side: its next entry, due one
/// interval later, where it goes on, and none where it suspends itself.
pub open spec fn resumes(proceeds: bool, now: nat, interval: u64, me: int) -> Multiset<Entry> {
    if proceeds {
        Multiset::singleton((later(now, interval), me))
    } else {
        Multiset::empty()
    }
}

/// The producer takes its own flag for `Active` whatever it was, and never
/// leaves it at `Warned`: the flag ends `Active` where the producer goes on
/// and `Passivated` where it suspends itself.
pub proof fn producer_settles_its_own_flag(producer: Producer, flags: Flags, count: usize)
    ensures
        producer.flags_after(flags, count) == producer.flags_after(
            Flags { producer: Flag::Active, ..flags },
            count,
        ),
        producer.flags_after(flags, count).producer != Flag::Warned,
        producer.flags_after(flags, count).producer == Flag::Active <==> producer.proceeds(count),
        !warned(flags.producer, producer.flags_after(flags, count).producer),
{
}

/// The consumer takes its own flag for `Active` whatever it was, and never
/// leaves it at `Warned`: the flag ends `Active` where the consumer goes on
/// and `Passivated` where it suspends itself.
pub proof fn consumer_settles_its_own_flag(consumer: Consumer, flags: Flags, count: usize)
    ensures
        consumer.flags_after(flags, count) == consumer.flags_after(
            Flags { consumer: Flag::Active, ..flags },
            count,
        ),
        consumer.flags_after(flags, count).consumer != Flag::Warned,
        consumer.flags_after(flags, count).consumer == Flag::Active <==> consumer.proceeds(count),
        !warned(flags.consumer, consumer.flags_after(flags, count).consumer),
{
}

/// The producer warns the consumer exactly when it finds it suspended, and
/// touches the consumer's flag in no other way. The warning and the wake go
/// together: the queue gains the consumer's wake entry, due at the present
/// time, exactly when the flag goes from `Passivated` to `Warned`; beside it
/// the queue gains only the producer's own next entry.
pub proof fn producer_wakes_as_it_warns(producer: Producer, me: int, w: World)
    ensures
        ({
            let flags = w.flags(flags_key(producer.flags));
            let count = w.count(count_key(producer.count));
            let left = producer.flags_after(flags, count);
            let warns = warned(flags.consumer, left.consumer);
            &&& warns <==> flags.consumer == Flag::Passivated
            &&& !warns ==> left.consumer == flags.consumer
            &&& producer.outcome(me, w).queue == w.queue.add(
                wakes(warns, w.now, consumer_index(producer.consumer)),
            ).add(resumes(producer.proceeds(count), w.now, producer.interval, me))
        }),
{
}

/// The consumer warns the producer exactly when it finds it suspended, and
/// touches the producer's flag in no other way. The warning and the wake go
/// together: the queue gains the producer's wake entry, due at the present
/// time, exactly when the flag goes from `Passivated` to `Warned`; beside it
/// the queue gains only the consumer's own next entry.
pub proof fn consumer_wakes_as_it_warns(consumer: Consumer, me: int, w: World)
    ensures
        ({
            let flags = w.flags(flags_key(consumer.flags));
            let count = w.count(count_key(consumer.count));
            let left = consumer.flags_after(flags, count);
            let warns = warned(flags.producer, left.producer);
            let producer = w.address(address_key(consumer.producer)).unwrap();
            &&& warns <==> flags.producer == Flag::Passivated
            &&& !warns ==> left.producer == flags.producer
            &&& consumer.outcome(me, w).queue == w.queue.add(
                wakes(warns, w.now, producer_index(producer)),
            ).add(resumes(consumer.proceeds(count), w.now, consumer.interval, me))
        }),
{
}

/// The producer keeps the count under its threshold plus what one production
/// adds, where it was under it; and a production adds exactly the amount
/// where the sum fits a `usize`.
pub proof fn producer_keeps_the_count_bounded(producer: Producer, count: usize)
    ensures
        count < producer.threshold + producer.produce_amount ==> producer.count_after(count)
            < producer.threshold + producer.produce_amount,
        producer.proceeds(count) && count + producer.produce_amount <= usize::MAX
            ==> producer.count_after(count) == count + producer.produce_amount,
        !producer.proceeds(count) ==> producer.count_after(count) == count,
{
}

/// The consumer never takes more than the count holds: the count does not go
/// under zero, and it does not grow.
pub proof fn consumer_takes_what_the_count_covers(consumer: Consumer, count: usize)
    ensures
        consumer.proceeds(count) ==> consumer.count_after(count) + consumer.consume_amount
            == count,
        !consumer.proceeds(count) ==> consumer.count_after(count) == count,
        consumer.count_after(count) <= count,
{
}

/// A handler schedules nothing before the present time and leaves the clock
/// where it is.
pub proof fn handlers_schedule_ahead(participant: Participant, me: int, w: World)
    requires
        w.timely(),
    ensures
        participant.outcome(me, w).timely(),
        participant.outcome(me, w).now == w.now,
{
    let left = participant.outcome(me, w);
    assert forall|entry: Entry| #[trigger] left.queue.contains(entry) implies left.now
        <= entry.0 by {
        match participant {
            Participant::Producer(producer) => {
                producer_wakes_as_it_warns(producer, me, w);
            },
            Participant::Consumer(consumer) => {
                consumer_wakes_as_it_warns(consumer, me, w);
            },
        }
        // An entry that was not pending is one that the handler added.
        assert(w.queue.contains(entry) || w.now <= entry.0);
    }
}

/// A step sets the clock to the time of the entry that it hands out, and the
/// clock never goes back: where nothing was due before the clock's time,
/// nothing is after the step.
pub proof fn step_moves_the_clock_forward(
    staff: Map<int, Participant>,
    before: World,
    entry: Entry,
    after: World,
)
    requires
        before.timely(),
        delivers(staff, before, entry, after),
    ensures
        after.now == entry.0,
        before.now <= after.now,
        after.timely(),
{
    let taken = before.taken(entry);
    assert forall|other: Entry| #[trigger] taken.queue.contains(other) implies taken.now
        <= other.0 by {
        assert(before.queue.contains(other));
    }
    handlers_schedule_ahead(staff[entry.1], entry.1, taken);
}

/// Entries are handed out in the order of their times: of two steps in a row,
/// the second hands out an entry that is not due before the entry of the
/// first.
pub proof fn steps_follow_the_order_of_time(
    staff: Map<int, Participant>,
    before: World,
    first: Entry,
    between: World,
    second: Entry,
    after: World,
)
    requires
        before.timely(),
        delivers(staff, before, first, between),
        delivers(staff, between, second, after),
    ensures
        first.0 <= second.0,
        before.now <= between.now <= after.now,
{
    step_moves_the_clock_forward(staff, before, first, between);
    step_moves_the_clock_forward(staff, between, second, after);
}

/// A simulation starts timely, with nothing pending, and scheduling keeps it
/// so: an entry is scheduled for the present time or later.
pub proof fn scheduling_looks_ahead(w: World, delay: u64, target: int)
    requires
        w.timely(),
    ensures
        World::blank().timely(),
        w.scheduled((later(w.now, delay), target)).timely(),
        w.scheduled((w.now, target)).timely(),
{
    let delayed = w.scheduled((later(w.now, delay), target));
    assert forall|entry: Entry| #[trigger] delayed.queue.contains(entry) implies delayed.now
        <= entry.0 by {
        if entry != (later(w.now, delay), target) {
            assert(w.queue.contains(entry));
        }
    }
    let woken = w.scheduled((w.now, target));
    assert forall|entry: Entry| #[trigger] woken.queue.contains(entry) implies woken.now
        <= entry.0 by {
        if entry != (w.now, target) {
            assert(w.queue.contains(entry));
        }
    }
}

/// With nothing pending no entry can be taken, so no step leads anywhere.
/// (`Simulation::step` then returns `false` and leaves the simulation as it
/// is, as its specification in [`crate::engine`] says.)
pub proof fn an_empty_queue_allows_no_step(
    staff: Map<int, Participant>,
    before: World,
    after: World,
)
    requires
        before.queue.len() == 0,
    ensures
        !steps(staff, before, after),
        forall|entry: Entry| !#[trigger] before.next(entry),
{
}

/// The world that a step leaves is a function of the world before it and of
/// the entry that it hands out. So a step has one outcome wherever one entry
/// alone is due first; only entries that are due at the same time leave the
/// choice to the scheduler.
pub proof fn step_is_determined_by_its_entry(
    staff: Map<int, Participant>,
    before: World,
    first: Entry,
    one: World,
    second: Entry,
    other: World,
)
    requires
        delivers(staff, before, first, one),
        delivers(staff, before, second, other),
        first == second || forall|entry: Entry| #[trigger]
            before.queue.contains(entry) && entry != first ==> first.0 < entry.0,
    ensures
        first == second,
        one == other,
{
}

} // verus!
