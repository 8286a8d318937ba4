//! The scheduler of the simulation: `simrs::Scheduler`, seen as a virtual clock
//! and the entries that are pending, and the two events that it carries.
use simrs::{ComponentId, Scheduler};
use std::fmt::Debug;
use std::time::Duration;
use vstd::multiset::Multiset;
use vstd::prelude::*;

verus! {

/// Nanoseconds in a second. Virtual time is counted in nanoseconds, delays are
/// given in whole seconds.
pub const NANOS_PER_SEC: u128 = 1_000_000_000;

/// The last instant at which an entry may be scheduled, in nanoseconds:
/// `u64::MAX` seconds. `std::time::Duration` holds every time up to it, and
/// `simrs` adds the delay to the clock without a check.
pub const LAST_INSTANT: u128 = 18_446_744_073_709_551_615_000_000_000;

/// `simrs::Scheduler`: the clock and the queue of pending entries, both
/// private to `simrs`.
#[verifier::external_type_specification]
#[verifier::external_body]
pub struct ExScheduler(Scheduler);

/// `simrs::ComponentId`, the typed handle of a registered component. It wraps a
/// number that `simrs` keeps private.
#[verifier::external_type_specification]
#[verifier::external_body]
#[verifier::reject_recursive_types(V)]
pub struct ExComponentId<V>(ComponentId<V>);

/// The event that makes the producer run.
#[derive(Debug)]
pub struct ProducerEvent;

/// The event that makes the consumer run.
#[derive(Debug)]
pub struct ConsumerEvent;

/// A pending entry: the time at which it is due, in nanoseconds, and the
/// number of the component that it is for.
pub type Entry = (nat, int);

/// The entries that are pending in a scheduler. (The events of this crate
/// carry no data, so an entry is known by its time and its target.)
pub uninterp spec fn queue(scheduler: Scheduler) -> Multiset<Entry>;

/// The virtual time of a scheduler, in nanoseconds.
pub uninterp spec fn now(scheduler: Scheduler) -> nat;

/// The handle of a component of one of the two kinds.
pub enum Target {
    Producer(ComponentId<ProducerEvent>),
    Consumer(ComponentId<ConsumerEvent>),
}

/// An event of this crate.
pub trait Signal: Sized + Debug {
    /// The handle of a component that takes this event, as one of the two
    /// kinds.
    spec fn target(id: ComponentId<Self>) -> Target;
}

impl Signal for ProducerEvent {
    open spec fn target(id: ComponentId<ProducerEvent>) -> Target {
        Target::Producer(id)
    }
}

impl Signal for ConsumerEvent {
    open spec fn target(id: ComponentId<ConsumerEvent>) -> Target {
        Target::Consumer(id)
    }
}

/// The number inside the handle of a component. `simrs` draws the numbers
/// from one counter for the whole process, so no two components share one.
pub uninterp spec fn index(target: Target) -> int;

/// The number inside the handle of a component that takes [`ProducerEvent`].
pub open spec fn producer_index(id: ComponentId<ProducerEvent>) -> int {
    index(Target::Producer(id))
}

/// The number inside the handle of a component that takes [`ConsumerEvent`].
pub open spec fn consumer_index(id: ComponentId<ConsumerEvent>) -> int {
    index(Target::Consumer(id))
}

/// The time at which an entry is due that is scheduled at `time` with a delay
/// of `delay` seconds.
pub open spec fn later(time: nat, delay: u64) -> nat {
    (time + delay * NANOS_PER_SEC) as nat
}

/// `simrs::Scheduler::schedule`, with the delay in whole seconds. The entry is
/// added for the clock's time plus the delay; the clock stays. `simrs` panics
/// where that sum does not fit a `Duration`: the `requires` keeps it in range.
#[verifier::external_body]
pub(crate) fn schedule<E: Signal + 'static>(
    scheduler: &mut Scheduler,
    delay: u64,
    target: ComponentId<E>,
    event: E,
)
    requires
        later(now(*old(scheduler)), delay) <= LAST_INSTANT,
    ensures
        now(*final(scheduler)) == now(*old(scheduler)),
        queue(*final(scheduler)) == queue(*old(scheduler)).insert(
            (later(now(*old(scheduler)), delay), index(E::target(target))),
        ),
{
    scheduler.schedule(Duration::from_secs(delay), target, event);
}

/// `simrs::Scheduler::schedule_now`. The entry is added for the clock's time;
/// the clock stays.
#[verifier::external_body]
pub(crate) fn schedule_now<E: Signal + 'static>(
    scheduler: &mut Scheduler,
    target: ComponentId<E>,
    event: E,
)
    ensures
        now(*final(scheduler)) == now(*old(scheduler)),
        queue(*final(scheduler)) == queue(*old(scheduler)).insert(
            (now(*old(scheduler)), index(E::target(target))),
        ),
{
    scheduler.schedule_now(target, event);
}

/// `simrs::Scheduler::time`, in nanoseconds.
#[verifier::external_body]
pub(crate) fn clock(scheduler: &Scheduler) -> (time: u128)
    ensures
        time == now(*scheduler),
{
    scheduler.time().as_nanos()
}

} // verus!
