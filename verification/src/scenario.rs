//! A scenario: one producer and one consumer wired to the same count and the
//! same flags, and what holds of it while the simulation runs.
use crate::agenda::{
    consumer_index, later, producer_index, schedule, ConsumerEvent, Entry, ProducerEvent,
    LAST_INSTANT,
};
use crate::consumer::Consumer;
use crate::engine::{add_consumer, add_producer, registry, scene, Participant};
use crate::flags::{Flag, Flags};
use crate::producer::Producer;
use crate::store::{address_key, count_key, flags_key, get_mut, insert, Address, Cell};
use crate::world::World;
use simrs::{ComponentId, Key, Simulation};
use vstd::multiset::Multiset;
use vstd::prelude::*;

verus! {

/// The two components of a scenario, as they were registered, and the
/// producer's handle. (The consumer's handle is in the producer.)
#[derive(Clone, Copy)]
pub struct Scenario {
    pub producer: Producer,
    pub consumer: Consumer,
    pub producer_id: ComponentId<ProducerEvent>,
}

/// What one side has pending: nothing while it is suspended, else one entry.
pub open spec fn pending(flag: Flag, entry: Entry) -> Multiset<Entry> {
    if flag == Flag::Passivated {
        Multiset::empty()
    } else {
        Multiset::singleton(entry)
    }
}

/// When the entry of one side is due: an active side has scheduled it at most
/// one interval ahead, a warned side is woken at the present time.
pub open spec fn on_time(flag: Flag, due: nat, now: nat, interval: u64) -> bool {
    match flag {
        Flag::Active => now <= due <= later(now, interval),
        Flag::Warned => due == now,
        Flag::Passivated => true,
    }
}

impl Scenario {
    /// The number under which the producer is registered.
    pub open spec fn producer_at(self) -> int {
        producer_index(self.producer_id)
    }

    /// The number under which the consumer is registered.
    pub open spec fn consumer_at(self) -> int {
        consumer_index(self.producer.consumer)
    }

    /// The number of the count cell.
    pub open spec fn count_at(self) -> int {
        count_key(self.producer.count)
    }

    /// The number of the flags cell.
    pub open spec fn flags_at(self) -> int {
        flags_key(self.producer.flags)
    }

    /// The number of the address cell.
    pub open spec fn address_at(self) -> int {
        address_key(self.consumer.producer)
    }

    /// The scenario is well made: the two components have different
    /// numbers and share the count cell and the flags cell.
    pub open spec fn sound(self) -> bool {
        &&& self.producer_at() != self.consumer_at()
        &&& count_key(self.consumer.count) == self.count_at()
        &&& flags_key(self.consumer.flags) == self.flags_at()
    }

    /// The two components are among `staff`, the registered components.
    pub open spec fn wired(self, staff: Map<int, Participant>) -> bool {
        &&& staff.contains_pair(self.producer_at(), Participant::Producer(self.producer))
        &&& staff.contains_pair(self.consumer_at(), Participant::Consumer(self.consumer))
    }

    /// The three cells are in the store, and the address cell holds the
    /// producer's handle.
    pub open spec fn furnished(self, w: World) -> bool {
        &&& w.cells.contains_key(self.count_at())
        &&& w.cells[self.count_at()] is Count
        &&& w.cells.contains_key(self.flags_at())
        &&& w.cells[self.flags_at()] is Flags
        &&& w.cells.contains_key(self.address_at())
        &&& w.cells[self.address_at()] == Cell::Address(Some(self.producer_id))
    }

    /// The handshake's invariant, with the times at which the two sides are
    /// due: the queue holds one entry for each side that is not suspended and
    /// nothing else, each entry is due as its side's flag says, and the two
    /// sides are never suspended together.
    pub open spec fn paced(self, w: World, producer_due: nat, consumer_due: nat) -> bool {
        let flags = w.flags(self.flags_at());
        &&& w.queue == pending(flags.producer, (producer_due, self.producer_at())).add(
            pending(flags.consumer, (consumer_due, self.consumer_at())),
        )
        &&& on_time(flags.producer, producer_due, w.now, self.producer.interval)
        &&& on_time(flags.consumer, consumer_due, w.now, self.consumer.interval)
        &&& !(flags.producer == Flag::Passivated && flags.consumer == Flag::Passivated)
    }

    /// The world is in order: furnished, and paced for some pair of due
    /// times.
    pub open spec fn settled(self, w: World) -> bool {
        &&& self.furnished(w)
        &&& exists|producer_due: nat, consumer_due: nat| #[trigger]
            self.paced(w, producer_due, consumer_due)
    }

    /// The scenario is in order in this simulation: well made, registered,
    /// and the world in order.
    pub open spec fn steady(self, simulation: Simulation) -> bool {
        &&& self.sound()
        &&& self.wired(registry(simulation.components))
        &&& self.settled(scene(simulation))
    }

    /// The scenario can be driven to `stop` in this simulation: it is in
    /// order, the count has room, the run cannot stall, and neither the clock
    /// nor `stop` is within two spans of the last instant, so that the entries
    /// of the last handlers fit the scheduler.
    pub open spec fn drivable(self, simulation: Simulation, stop: nat) -> bool {
        &&& self.steady(simulation)
        &&& self.fits()
        &&& self.lively()
        &&& scene(simulation).now + 2 * self.span() <= LAST_INSTANT
        &&& stop + 2 * self.span() <= LAST_INSTANT
    }

    /// The bounded buffer: the count stays under the threshold plus what one
    /// production adds.
    pub open spec fn bounded(self, w: World) -> bool {
        w.count(self.count_at()) < self.producer.threshold + self.producer.produce_amount
    }

    /// The longer of the two intervals, in nanoseconds: no entry is due
    /// further ahead.
    pub open spec fn span(self) -> nat {
        if self.producer.interval >= self.consumer.interval {
            later(0, self.producer.interval)
        } else {
            later(0, self.consumer.interval)
        }
    }

    /// Where the producer produces, the new count fits a `usize`.
    pub open spec fn fits(self) -> bool {
        self.producer.threshold == 0 || self.producer.threshold - 1
            + self.producer.produce_amount <= usize::MAX
    }

    /// The run cannot stall: both intervals are positive, and one side at
    /// least can go on at any count, since the consumer takes no more than
    /// the threshold.
    pub open spec fn lively(self) -> bool {
        &&& self.producer.interval >= 1
        &&& self.consumer.interval >= 1
        &&& self.consumer.consume_amount <= self.producer.threshold
    }

    /// How much one side can still do at the present time: nothing once its
    /// entry is due later, and more where it is due now and cannot go on,
    /// since it will then suspend itself and may be woken once more.
    pub open spec fn weight(flag: Flag, due: nat, now: nat, proceeds: bool) -> nat {
        if flag == Flag::Passivated {
            2
        } else if due > now {
            0
        } else if proceeds {
            2
        } else {
            3
        }
    }

    /// How much the two sides can still do at the present time. Each step
    /// that leaves the clock where it is lowers it.
    pub open spec fn slack(self, w: World, producer_due: nat, consumer_due: nat) -> nat {
        let flags = w.flags(self.flags_at());
        let count = w.count(self.count_at());
        Self::weight(flags.producer, producer_due, w.now, self.producer.proceeds(count))
            + Self::weight(flags.consumer, consumer_due, w.now, self.consumer.proceeds(count))
    }

    /// The scenario as it starts: the count at `count`, both sides active with
    /// their first entries due at once, and the clock at zero.
    pub open spec fn starts(self, simulation: Simulation, count: usize) -> bool {
        &&& self.sound()
        &&& self.wired(registry(simulation.components))
        &&& registry(simulation.components).dom() == set![self.producer_at(), self.consumer_at()]
        &&& scene(simulation) == World {
            cells: map![
                self.count_at() => Cell::Count(count),
                self.address_at() => Cell::Address(Some(self.producer_id)),
                self.flags_at() => Cell::Flags(Flags { producer: Flag::Active, consumer: Flag::Active }),
            ],
            queue: Multiset::singleton((0nat, self.producer_at())).insert(
                (0nat, self.consumer_at()),
            ),
            now: 0,
        }
    }
}

/// Builds a simulation with one producer and one consumer. Three cells are
/// made: the count, at zero; the address of the producer, empty at first; the
/// flags, both active. The consumer is registered first, since the producer
/// holds its handle; then the producer; then the address cell is filled with
/// the producer's handle. Each side gets a first entry that is due at once,
/// the producer's before the consumer's.
pub fn assemble(
    threshold: usize,
    produce_amount: usize,
    producer_interval: u64,
    consume_amount: usize,
    consumer_interval: u64,
) -> (made: (Simulation, Scenario))
    ensures
        made.1.starts(made.0, 0),
        made.1.steady(made.0),
        made.1.producer.threshold == threshold,
        made.1.producer.produce_amount == produce_amount,
        made.1.producer.interval == producer_interval,
        made.1.consumer.consume_amount == consume_amount,
        made.1.consumer.interval == consumer_interval,
{
    let mut simulation = Simulation::default();
    let count = insert(&mut simulation.state, 0usize);
    let producer_key: Key<Address> = insert(&mut simulation.state, None);
    let flags = insert(&mut simulation.state, Flags::new());

    let consumer_parts = Consumer {
        count,
        producer: producer_key,
        interval: consumer_interval,
        flags,
        consume_amount,
    };
    let consumer = add_consumer(&mut simulation, consumer_parts);
    let producer_parts = Producer {
        count,
        consumer,
        threshold,
        interval: producer_interval,
        produce_amount,
        flags,
    };
    let producer = add_producer(&mut simulation, producer_parts);

    let slot = get_mut(&mut simulation.state, producer_key).unwrap();
    *slot = Some(producer);

    schedule(&mut simulation.scheduler, 0, producer, ProducerEvent);
    schedule(&mut simulation.scheduler, 0, consumer, ConsumerEvent);

    let scenario = Scenario { producer: producer_parts, consumer: consumer_parts, producer_id: producer };
    proof {
        let w = scene(simulation);
        assert(w.cells =~= map![
            scenario.count_at() => Cell::Count(0usize),
            scenario.address_at() => Cell::Address(Some(scenario.producer_id)),
            scenario.flags_at() => Cell::Flags(Flags { producer: Flag::Active, consumer: Flag::Active }),
        ]);
        assert(registry(simulation.components).dom() =~= set![
            scenario.producer_at(),
            scenario.consumer_at(),
        ]);
        assert(w.queue =~= pending(Flag::Active, (0nat, scenario.producer_at())).add(
            pending(Flag::Active, (0nat, scenario.consumer_at())),
        ));
        assert(scenario.paced(w, 0, 0));
    }
    (simulation, scenario)
}

} // verus!
