//! The trial: the standard scenario with a consumer that comes back every
//! second, and where its run stands when the clock reaches the limit.
//!
//! The producer ticks every two seconds. Each tick adds one to the count and
//! wakes the consumer, which goes back to sleep until the eighth tick in a
//! row has brought the count to 8. It then takes all 8, comes back one second
//! later, finds nothing and suspends itself. So the run goes through the same
//! few phases every 16 seconds.
use crate::agenda::{Entry, NANOS_PER_SEC};
use crate::engine::{course, delivers, driven, steps, Participant};
use crate::flags::{Flag, Flags};
use crate::pacing::{
    consumer_step_keeps_the_pace, pending_entries_belong_to_the_sides,
    producer_step_keeps_the_pace,
};
use crate::scenario::Scenario;
use crate::standard::{standard, TRIAL_CONSUMER_INTERVAL, TRIAL_LIMIT};
use crate::world::World;
use vstd::prelude::*;

verus! {

/// The time `seconds` after the start, in nanoseconds.
pub open spec fn at(seconds: int) -> nat {
    (seconds * NANOS_PER_SEC) as nat
}

/// The world holds this count and these flags at this time, and is paced with
/// the two sides due at these times. All times are in seconds.
pub open spec fn placed(
    s: Scenario,
    w: World,
    count: int,
    producer: Flag,
    consumer: Flag,
    now: int,
    producer_due: int,
    consumer_due: int,
) -> bool {
    &&& w.count(s.count_at()) == count
    &&& w.flags(s.flags_at()) == (Flags { producer, consumer })
    &&& w.now == at(now)
    &&& s.paced(w, at(producer_due), at(consumer_due))
}

/// The phases that the trial goes through.
pub enum Phase {
    /// The start: both sides are due at once.
    Opening,
    /// The start, once the consumer has run first and suspended itself.
    ConsumerFirst,
    /// The start, once the producer has run first.
    ProducerFirst,
    /// The producer has just ticked and warned the consumer.
    Ticked,
    /// The consumer has gone back to sleep after a tick.
    Resting,
    /// The consumer has taken the 8 that the eighth tick in a row completed.
    Fed,
    /// The consumer has come back a second later, found nothing and
    /// suspended itself.
    Sated,
}

/// The world is in the given phase of the trial, with `ticks` productions
/// after the first.
pub open spec fn phase(s: Scenario, w: World, phase: Phase, ticks: int) -> bool {
    match phase {
        Phase::Opening => placed(s, w, 0, Flag::Active, Flag::Active, 0, 0, 0),
        Phase::ConsumerFirst => placed(s, w, 0, Flag::Active, Flag::Passivated, 0, 0, 0),
        Phase::ProducerFirst => placed(s, w, 1, Flag::Active, Flag::Active, 0, 2, 0),
        Phase::Ticked => placed(
            s,
            w,
            ticks % 8 + 1,
            Flag::Active,
            Flag::Warned,
            2 * ticks,
            2 * ticks + 2,
            2 * ticks,
        ),
        Phase::Resting => ticks % 8 != 7 && placed(
            s,
            w,
            ticks % 8 + 1,
            Flag::Active,
            Flag::Passivated,
            2 * ticks,
            2 * ticks + 2,
            2 * ticks,
        ),
        Phase::Fed => ticks % 8 == 7 && placed(
            s,
            w,
            0,
            Flag::Active,
            Flag::Active,
            2 * ticks,
            2 * ticks + 2,
            2 * ticks + 1,
        ),
        Phase::Sated => ticks % 8 == 7 && placed(
            s,
            w,
            0,
            Flag::Active,
            Flag::Passivated,
            2 * ticks + 1,
            2 * ticks + 2,
            2 * ticks + 1,
        ),
    }
}

/// The times at which the two sides are due in a phase, in seconds.
pub open spec fn due_in(phase: Phase, ticks: int) -> (int, int) {
    match phase {
        Phase::Opening => (0, 0),
        Phase::ConsumerFirst => (0, 0),
        Phase::ProducerFirst => (2, 0),
        Phase::Ticked => (2 * ticks + 2, 2 * ticks),
        Phase::Resting => (2 * ticks + 2, 2 * ticks),
        Phase::Fed => (2 * ticks + 2, 2 * ticks + 1),
        Phase::Sated => (2 * ticks + 2, 2 * ticks + 1),
    }
}

/// The world is furnished and in one of the phases of the trial.
pub open spec fn on_track(s: Scenario, w: World) -> bool {
    &&& s.furnished(w)
    &&& exists|kind: Phase, ticks: int| 0 <= ticks && #[trigger] phase(s, w, kind, ticks)
}

/// Where the clock reaches the limit of the trial: at the limit itself, with a
/// count of 6.
pub open spec fn arrived(s: Scenario, w: World) -> bool {
    &&& w.now == at(TRIAL_LIMIT as int)
    &&& w.count(s.count_at()) == 6
}

/// A step of the trial leads from one phase to the next, and the step that
/// brings the clock to the limit is the producer's tick at the limit.
pub proof fn trial_step_stays_on_track(
    s: Scenario,
    staff: Map<int, Participant>,
    before: World,
    after: World,
)
    requires
        s.sound(),
        s.wired(staff),
        standard(s, TRIAL_CONSUMER_INTERVAL),
        on_track(s, before),
        steps(staff, before, after),
    ensures
        on_track(s, after),
        before.now < at(TRIAL_LIMIT as int) <= after.now ==> arrived(s, after),
{
    let (kind, ticks) = choose|kind: Phase, ticks: int|
        0 <= ticks && #[trigger] phase(s, before, kind, ticks);
    let entry = choose|entry: Entry| #[trigger] delivers(staff, before, entry, after);
    let producer_due = at(due_in(kind, ticks).0);
    let consumer_due = at(due_in(kind, ticks).1);
    pending_entries_belong_to_the_sides(s, before, producer_due, consumer_due, entry);
    if entry.1 == s.producer_at() {
        producer_step_keeps_the_pace(s, before, producer_due, consumer_due, after);
        match kind {
            Phase::Opening => {
                assert(phase(s, after, Phase::ProducerFirst, 0));
            },
            Phase::ConsumerFirst => {
                assert(phase(s, after, Phase::Ticked, 0));
            },
            Phase::Resting => {
                assert(phase(s, after, Phase::Ticked, ticks + 1));
            },
            Phase::Sated => {
                assert(phase(s, after, Phase::Ticked, ticks + 1));
            },
            // In the other phases the consumer is due before the producer.
            _ => {},
        }
    } else {
        consumer_step_keeps_the_pace(s, before, producer_due, consumer_due, after);
        match kind {
            Phase::Opening => {
                assert(phase(s, after, Phase::ConsumerFirst, 0));
            },
            Phase::ProducerFirst => {
                assert(phase(s, after, Phase::Resting, 0));
            },
            Phase::Ticked => {
                if ticks % 8 == 7 {
                    assert(phase(s, after, Phase::Fed, ticks));
                } else {
                    assert(phase(s, after, Phase::Resting, ticks));
                }
            },
            Phase::Fed => {
                assert(phase(s, after, Phase::Sated, ticks));
            },
            // In the other phases the consumer has nothing pending.
            _ => {},
        }
    }
}

/// Every world of a course of the trial that starts on track is on track.
pub proof fn trial_course_stays_on_track(
    s: Scenario,
    staff: Map<int, Participant>,
    worlds: Seq<World>,
    i: int,
)
    requires
        s.sound(),
        s.wired(staff),
        standard(s, TRIAL_CONSUMER_INTERVAL),
        course(staff, worlds),
        0 <= i < worlds.len(),
        on_track(s, worlds[0]),
    ensures
        on_track(s, worlds[i]),
    decreases i,
{
    if i > 0 {
        trial_course_stays_on_track(s, staff, worlds, i - 1);
        trial_step_stays_on_track(s, staff, worlds[i - 1], worlds[i]);
    }
}

/// The trial, driven from its start to its limit, ends at the limit with a
/// count of 6.
pub proof fn trial_arrives(s: Scenario, staff: Map<int, Participant>, worlds: Seq<World>)
    requires
        s.sound(),
        s.wired(staff),
        standard(s, TRIAL_CONSUMER_INTERVAL),
        driven(staff, worlds, at(TRIAL_LIMIT as int)),
        s.furnished(worlds.first()),
        phase(s, worlds.first(), Phase::Opening, 0),
    ensures
        arrived(s, worlds.last()),
{
    let last = worlds.len() - 1;
    trial_course_stays_on_track(s, staff, worlds, last - 1);
    trial_step_stays_on_track(s, staff, worlds[last - 1], worlds[last]);
}

} // verus!
