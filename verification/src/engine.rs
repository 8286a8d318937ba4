//! The simulation as a whole: `simrs::Simulation`, which joins the store, the
//! scheduler and the registered components, and hands each pending entry to
//! the component that it is for.
use crate::agenda::{
    consumer_index, producer_index, queue, ConsumerEvent, Entry, ProducerEvent,
};
use crate::consumer::Consumer;
use crate::producer::Producer;
use crate::world::{world, World};
use simrs::{ComponentId, Components, Simulation};
use vstd::prelude::*;

verus! {

/// `simrs::Components`: the registered components, private to `simrs`.
#[verifier::external_type_specification]
#[verifier::external_body]
pub struct ExComponents(Components);

/// `simrs::Simulation`: a store, a scheduler and the registered components, in
/// three public fields.
#[verifier::external_type_specification]
pub struct ExSimulation(Simulation);

/// A component of this crate, as it is registered.
pub enum Participant {
    Producer(Producer),
    Consumer(Consumer),
}

impl Participant {
    /// What the component's handler needs of the world in which it runs.
    pub open spec fn ready(self, w: World) -> bool {
        match self {
            Participant::Producer(producer) => producer.ready(w),
            Participant::Consumer(consumer) => consumer.ready(w),
        }
    }

    /// The world that the component's handler leaves, run under the number
    /// `me` in the world `w`.
    pub open spec fn outcome(self, me: int, w: World) -> World {
        match self {
            Participant::Producer(producer) => producer.outcome(me, w),
            Participant::Consumer(consumer) => consumer.outcome(me, w),
        }
    }
}

/// The producers and consumers among the registered components, each under
/// the number of its handle.
pub uninterp spec fn registry(components: Components) -> Map<int, Participant>;

/// A registry without a producer or a consumer.
pub open spec fn nobody() -> Map<int, Participant> {
    Map::empty()
}

/// The world of a simulation: its store and its scheduler.
pub open spec fn scene(simulation: Simulation) -> World {
    world(simulation.state, simulation.scheduler)
}

/// The entry can be handed to its component: the component is among `staff`,
/// the registered components, and its handler is ready for the world that it
/// will find.
pub open spec fn deliverable(staff: Map<int, Participant>, w: World, entry: Entry) -> bool {
    &&& staff.contains_key(entry.1)
    &&& staff[entry.1].ready(w.taken(entry))
}

/// One step from `before` to `after` that hands out `entry`: the entry was
/// next, and `after` is what its component's handler leaves of the world in
/// which the entry is taken.
pub open spec fn delivers(
    staff: Map<int, Participant>,
    before: World,
    entry: Entry,
    after: World,
) -> bool {
    &&& before.next(entry)
    &&& after == staff[entry.1].outcome(entry.1, before.taken(entry))
}

/// Every entry that may be taken next can be handed to its component.
pub open spec fn receptive(staff: Map<int, Participant>, w: World) -> bool {
    forall|entry: Entry| #[trigger] w.next(entry) ==> deliverable(staff, w, entry)
}

/// One step leads from `before` to `after`.
pub open spec fn steps(staff: Map<int, Participant>, before: World, after: World) -> bool {
    exists|entry: Entry| #[trigger] delivers(staff, before, entry, after)
}

/// A course: each world is left by one step from the world before it.
pub open spec fn course(staff: Map<int, Participant>, worlds: Seq<World>) -> bool {
    forall|i: int|
        0 <= i && i + 1 < worlds.len() ==> steps(staff, #[trigger] worlds[i], worlds[i + 1])
}

/// A course that is driven to `stop`: it makes one step at least, goes on
/// while the clock is before `stop`, and ends with the first step after which
/// it is not.
pub open spec fn driven(staff: Map<int, Participant>, worlds: Seq<World>, stop: nat) -> bool {
    &&& worlds.len() >= 2
    &&& course(staff, worlds)
    &&& forall|i: int| 0 < i && i + 1 < worlds.len() ==> (#[trigger] worlds[i]).now < stop
    &&& stop <= worlds.last().now
}

/// `Default::default` of `simrs::Simulation`: nothing stored, nothing pending,
/// nothing registered, and the clock at zero.
pub assume_specification[ <Simulation as Default>::default ]() -> (made: Simulation)
    ensures
        scene(made) == World::blank(),
        registry(made.components) == nobody(),
;

/// `simrs::Simulation::add_component` for a producer. It is registered under a
/// handle whose number no registered component had; store and scheduler stay.
#[verifier::external_body]
pub(crate) fn add_producer(simulation: &mut Simulation, producer: Producer) -> (id: ComponentId<
    ProducerEvent,
>)
    ensures
        !registry(old(simulation).components).contains_key(producer_index(id)),
        registry(final(simulation).components) == registry(old(simulation).components).insert(
            producer_index(id),
            Participant::Producer(producer),
        ),
        scene(*final(simulation)) == scene(*old(simulation)),
{
    simulation.add_component(producer)
}

/// `simrs::Simulation::add_component` for a consumer. It is registered under a
/// handle whose number no registered component had; store and scheduler stay.
#[verifier::external_body]
pub(crate) fn add_consumer(simulation: &mut Simulation, consumer: Consumer) -> (id: ComponentId<
    ConsumerEvent,
>)
    ensures
        !registry(old(simulation).components).contains_key(consumer_index(id)),
        registry(final(simulation).components) == registry(old(simulation).components).insert(
            consumer_index(id),
            Participant::Consumer(consumer),
        ),
        scene(*final(simulation)) == scene(*old(simulation)),
{
    simulation.add_component(consumer)
}

/// `simrs::Simulation::step`. With nothing pending it returns `false` and
/// leaves the simulation as it is. Otherwise it takes an entry that is due
/// first from the queue, sets the clock to the time of that entry, runs the
/// `process_event` of the component that the entry is for, and returns `true`:
/// the world that it leaves is the one that the contract of that
/// `process_event` states, which is proved where the handler stands. Which of
/// several entries that are due at the same time it takes is left open.
///
/// `simrs` panics where the component is not registered, and the handlers have
/// a `requires` of their own: the `requires` here asks both of every entry
/// that may be taken.
pub assume_specification[ Simulation::step ](sim: &mut Simulation) -> (dispatched: bool)
    requires
        receptive(registry(old(sim).components), scene(*old(sim))),
    ensures
        registry(final(sim).components) == registry(old(sim).components),
        dispatched == (queue(old(sim).scheduler).len() > 0),
        !dispatched ==> scene(*final(sim)) == scene(*old(sim)),
        dispatched ==> steps(registry(old(sim).components), scene(*old(sim)), scene(*final(sim))),
;

} // verus!
