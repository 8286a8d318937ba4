//! The loop that drives a simulation, and the two runs of the standard
//! scenario.
use crate::agenda::{clock, now, Entry, LAST_INSTANT, NANOS_PER_SEC};
use crate::engine::{course, deliverable, delivers, driven, registry, scene};
use crate::pacing::{
    driven_course_ends_in_order, next_entries_are_deliverable, something_is_always_pending,
    step_keeps_the_pace,
};
use crate::scenario::Scenario;
use crate::standard::{
    set_simulation, standard, test_simulation, CONSUMER_INTERVAL, TRIAL_CONSUMER_INTERVAL,
    TRIAL_LIMIT,
};
use crate::store::{count_key, get};
use crate::trial::trial_arrives;
use crate::world::World;
use simrs::Simulation;
use vstd::prelude::*;

verus! {

/// The greatest limit that [`simulation`] takes, in seconds: the entries that
/// the last handlers schedule must fit the scheduler.
pub const LAST_LIMIT: u64 = 18_446_744_073_709_551_598;

/// Steps the simulation until the clock has reached `stop`, a time in
/// nanoseconds. It steps once at least, and then for as long as the clock is
/// before `stop`.
///
/// The simulation must hold a scenario that can be driven to `stop`. The
/// worlds that the steps leave then make a course that is driven to `stop`,
/// from the world at the call to the world at the return. Every scenario that
/// was in order stays in order, with its count bounded where it was. Since
/// its two sides are never suspended together, the queue never runs dry, so
/// the run ends with the clock at `stop` or later, and at most one span after
/// the later of `stop` and the time at which it began. That the run ends at
/// all needs a lively scenario.
pub fn drive(simulation: &mut Simulation, stop: u128)
    requires
        exists|scenario: Scenario| #[trigger] scenario.drivable(*old(simulation), stop as nat),
    ensures
        registry(final(simulation).components) == registry(old(simulation).components),
        exists|worlds: Seq<World>| #[trigger]
            driven(registry(old(simulation).components), worlds, stop as nat) && worlds.first()
                == scene(*old(simulation)) && worlds.last() == scene(*final(simulation)),
        forall|scenario: Scenario| #[trigger]
            scenario.steady(*old(simulation)) ==> {
                &&& scenario.steady(*final(simulation))
                &&& scenario.bounded(scene(*old(simulation))) ==> scenario.bounded(
                    scene(*final(simulation)),
                )
                &&& now(final(simulation).scheduler) <= scenario.span() + if now(
                    old(simulation).scheduler,
                ) < stop {
                    stop as nat
                } else {
                    now(old(simulation).scheduler)
                }
            },
        now(old(simulation).scheduler) <= now(final(simulation).scheduler),
        stop <= now(final(simulation).scheduler),
{
    let ghost start = scene(*simulation);
    let ghost staff = registry(simulation.components);
    let ghost scenario = choose|scenario: Scenario| #[trigger]
        scenario.drivable(*simulation, stop as nat);
    let ghost (mut producer_due, mut consumer_due) = choose|producer_due: nat, consumer_due: nat|
     #[trigger]
        scenario.paced(scene(*simulation), producer_due, consumer_due);
    let ghost mut worlds = seq![start];
    loop
        invariant_except_break
            scenario.sound(),
            scenario.wired(staff),
            scenario.fits(),
            scenario.lively(),
            registry(simulation.components) == staff,
            scenario.furnished(scene(*simulation)),
            scenario.paced(scene(*simulation), producer_due, consumer_due),
            scene(*simulation).now + 2 * scenario.span() <= LAST_INSTANT,
            stop + 2 * scenario.span() <= LAST_INSTANT,
            scene(*simulation).now < stop || worlds.len() == 1,
            worlds.len() >= 1,
            worlds.first() == start,
            worlds.last() == scene(*simulation),
            course(staff, worlds),
            forall|i: int| 0 < i < worlds.len() ==> (#[trigger] worlds[i]).now < stop,
        ensures
            registry(simulation.components) == staff,
            driven(staff, worlds, stop as nat),
            worlds.first() == start,
            worlds.last() == scene(*simulation),
        decreases stop - scene(*simulation).now, scenario.slack(
            scene(*simulation),
            producer_due,
            consumer_due,
        ),
    {
        let ghost before = scene(*simulation);
        proof {
            assert forall|entry: Entry| #[trigger] before.next(entry) implies deliverable(
                staff,
                before,
                entry,
            ) by {
                next_entries_are_deliverable(scenario, staff, before, entry);
            }
            something_is_always_pending(scenario, before, producer_due, consumer_due);
        }
        let dispatched = simulation.step();
        proof {
            let after = scene(*simulation);
            let entry = choose|entry: Entry| #[trigger] delivers(staff, before, entry, after);
            let due = step_keeps_the_pace(
                scenario,
                staff,
                before,
                producer_due,
                consumer_due,
                entry,
                after,
            );
            producer_due = due.0;
            consumer_due = due.1;
            worlds = worlds.push(after);
        }
        if !dispatched {
            break ;
        }
        if clock(&simulation.scheduler) >= stop {
            break ;
        }
    }
    proof {
        driven_course_ends_in_order(scenario, staff, worlds, stop as nat);
        assert forall|other: Scenario| #[trigger] other.steady(*old(simulation)) implies {
            &&& other.steady(*simulation)
            &&& other.bounded(start) ==> other.bounded(scene(*simulation))
            &&& scene(*simulation).now <= other.span() + if start.now < stop {
                stop as nat
            } else {
                start.now
            }
        } by {
            driven_course_ends_in_order(other, staff, worlds, stop as nat);
        }
    }
}

/// Runs the standard scenario until the clock has passed `limit`, a time in
/// seconds.
pub fn simulation(limit: u64)
    requires
        limit <= LAST_LIMIT,
{
    let mut simulation = set_simulation();
    proof {
        let scenario = choose|scenario: Scenario|
            standard(scenario, CONSUMER_INTERVAL) && #[trigger] scenario.starts(simulation, 0)
                && scenario.steady(simulation);
        assert(scenario.drivable(simulation, (limit as u128 * NANOS_PER_SEC + 1) as nat));
    }
    drive(&mut simulation, limit as u128 * NANOS_PER_SEC + 1);
}

/// Runs the trial: the standard scenario with a consumer that comes back
/// every second, until the clock has reached 1002 seconds. Returns the count
/// and the clock's time, in nanoseconds, as the run leaves them: the run ends
/// with the producer's tick at 1002 seconds, which brings the count to 6.
pub fn testing_simulation() -> (left: (usize, u128))
    ensures
        left == (6usize, 1_002_000_000_000u128),
{
    let (mut simulation, key) = test_simulation();
    let ghost start = scene(simulation);
    let ghost staff = registry(simulation.components);
    let ghost scenario = choose|scenario: Scenario|
        standard(scenario, TRIAL_CONSUMER_INTERVAL) && #[trigger] scenario.starts(simulation, 0)
            && scenario.steady(simulation) && count_key(key) == scenario.count_at();
    proof {
        assert(scenario.drivable(simulation, (TRIAL_LIMIT as u128 * NANOS_PER_SEC) as nat));
    }
    drive(&mut simulation, TRIAL_LIMIT as u128 * NANOS_PER_SEC);
    proof {
        let worlds = choose|worlds: Seq<World>| #[trigger]
            driven(staff, worlds, (TRIAL_LIMIT as u128 * NANOS_PER_SEC) as nat) && worlds.first()
                == start && worlds.last() == scene(simulation);
        trial_arrives(scenario, staff, worlds);
    }
    let count = *get(&simulation.state, key).unwrap();
    let time = clock(&simulation.scheduler);
    (count, time)
}

} // verus!
