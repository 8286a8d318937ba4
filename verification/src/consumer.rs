//! The consumer: takes from the shared count at a fixed pace while the count
//! covers what it takes, and suspends itself when it does not.
use crate::agenda::{
    consumer_index, later, producer_index, schedule, schedule_now, ConsumerEvent,
    ProducerEvent, LAST_INSTANT,
};
use crate::flags::{Flag, Flags};
use crate::store::{address_key, count_key, flags_key, get, get_mut, Address, Cell};
use crate::world::{world, World};
use simrs::{Component, ComponentId, Key, Scheduler, State};
use vstd::prelude::*;

verus! {

/// What the consumer is made with. It holds no state of its own: the count and
/// the flags live in the store, and so does the producer's handle, which is
/// not known yet when the consumer is made.
#[derive(Clone, Copy)]
pub struct Consumer {
    /// The cell of the shared count.
    pub count: Key<usize>,
    /// The cell that holds the producer's handle, to wake it.
    pub producer: Key<Address>,
    /// Seconds from one consumption to the next.
    pub interval: u64,
    /// The cell of the passivation flags.
    pub flags: Key<Flags>,
    /// What one consumption takes from the count.
    pub consume_amount: usize,
}

impl Consumer {
    /// Whether the consumer consumes at this count. Where it does not, it
    /// suspends itself.
    pub open spec fn proceeds(self, count: usize) -> bool {
        count >= self.consume_amount
    }

    /// What the handler needs: its three cells are in the store, the address
    /// cell is filled, and where it consumes, the time of the next consumption
    /// fits the scheduler.
    pub open spec fn ready(self, w: World) -> bool {
        &&& w.cells.contains_key(address_key(self.producer))
        &&& w.address(address_key(self.producer)).is_some()
        &&& w.cells.contains_key(flags_key(self.flags))
        &&& w.cells.contains_key(count_key(self.count))
        &&& self.proceeds(w.count(count_key(self.count))) ==> later(w.now, self.interval)
            <= LAST_INSTANT
    }

    /// The flags that the handler leaves: its own flag says whether it goes
    /// on, and a suspended producer is marked as warned.
    pub open spec fn flags_after(self, flags: Flags, count: usize) -> Flags {
        Flags {
            producer: if flags.producer == Flag::Passivated {
                Flag::Warned
            } else {
                flags.producer
            },
            consumer: if self.proceeds(count) {
                Flag::Active
            } else {
                Flag::Passivated
            },
        }
    }

    /// The count that the handler leaves.
    pub open spec fn count_after(self, count: usize) -> usize {
        if self.proceeds(count) {
            (count - self.consume_amount) as usize
        } else {
            count
        }
    }

    /// The world that the handler leaves, run as the component with the number
    /// `me` in the world `w`. A suspended producer gets a wake entry for the
    /// present time; a consumer that goes on gets its next entry one interval
    /// later.
    pub open spec fn outcome(self, me: int, w: World) -> World {
        let flags = w.flags(flags_key(self.flags));
        let count = w.count(count_key(self.count));
        let woken = if flags.producer == Flag::Passivated {
            w.queue.insert(
                (w.now, producer_index(w.address(address_key(self.producer)).unwrap())),
            )
        } else {
            w.queue
        };
        World {
            cells: w.cells.insert(
                flags_key(self.flags),
                Cell::Flags(self.flags_after(flags, count)),
            ).insert(count_key(self.count), Cell::Count(self.count_after(count))),
            queue: if self.proceeds(count) {
                woken.insert((later(w.now, self.interval), me))
            } else {
                woken
            },
            now: w.now,
        }
    }
}

impl Component for Consumer {
    type Event = ConsumerEvent;

    /// Handles the consumer's event: marks the consumer active, wakes a
    /// suspended producer, then consumes and schedules the next consumption,
    /// or suspends the consumer where the count does not cover a consumption.
    ///
    /// `simrs` calls this from `Simulation::step`. The specification of that
    /// function in [`crate::engine`] asks for the `requires` here, of every
    /// entry that may be taken.
    fn process_event(
        &self,
        self_id: ComponentId<ConsumerEvent>,
        _event: &ConsumerEvent,
        scheduler: &mut Scheduler,
        state: &mut State,
    )
        requires
            self.ready(world(*old(state), *old(scheduler))),
        ensures
            world(*final(state), *final(scheduler)) == self.outcome(
                consumer_index(self_id),
                world(*old(state), *old(scheduler)),
            ),
    {
        let producer = get(state, self.producer).unwrap().unwrap();

        let flags = get_mut(state, self.flags).unwrap();
        flags.consumer = Flag::Active;
        if flags.producer == Flag::Passivated {
            flags.producer = Flag::Warned;
            schedule_now(scheduler, producer, ProducerEvent);
        }
        let count = get_mut(state, self.count).unwrap();
        if *count >= self.consume_amount {
            *count -= self.consume_amount;
            schedule(scheduler, self.interval, self_id, ConsumerEvent);
        } else {
            let flags = get_mut(state, self.flags).unwrap();
            flags.consumer = Flag::Passivated;
        }
    }
}

} // verus!
