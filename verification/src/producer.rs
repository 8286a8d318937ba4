//! The producer: adds to the shared count at a fixed pace while the count is
//! under its threshold, and suspends itself when it is not.
use crate::agenda::{
    consumer_index, later, producer_index, schedule, schedule_now, ConsumerEvent,
    ProducerEvent, LAST_INSTANT,
};
use crate::flags::{Flag, Flags};
use crate::store::{count_key, flags_key, get_mut, Cell};
use crate::world::{world, World};
use simrs::{Component, ComponentId, Key, Scheduler, State};
use vstd::prelude::*;

verus! {

/// What the producer is made with. It holds no state of its own: the count and
/// the flags live in the store.
#[derive(Clone, Copy)]
pub struct Producer {
    /// The cell of the shared count.
    pub count: Key<usize>,
    /// The consumer, to wake it.
    pub consumer: ComponentId<ConsumerEvent>,
    /// The producer adds to the count while the count is under this.
    pub threshold: usize,
    /// Seconds from one production to the next.
    pub interval: u64,
    /// What one production adds to the count.
    pub produce_amount: usize,
    /// The cell of the passivation flags.
    pub flags: Key<Flags>,
}

impl Producer {
    /// Whether the producer produces at this count. Where it does not, it
    /// suspends itself.
    pub open spec fn proceeds(self, count: usize) -> bool {
        count < self.threshold
    }

    /// What the handler needs: its two cells are in the store, and where it
    /// produces, the new count fits a `usize` and the time of the next
    /// production fits the scheduler.
    pub open spec fn ready(self, w: World) -> bool {
        &&& w.cells.contains_key(flags_key(self.flags))
        &&& w.cells.contains_key(count_key(self.count))
        &&& self.proceeds(w.count(count_key(self.count))) ==> {
            &&& w.count(count_key(self.count)) + self.produce_amount <= usize::MAX
            &&& later(w.now, self.interval) <= LAST_INSTANT
        }
    }

    /// The flags that the handler leaves: its own flag says whether it goes
    /// on, and a suspended consumer is marked as warned.
    pub open spec fn flags_after(self, flags: Flags, count: usize) -> Flags {
        Flags {
            producer: if self.proceeds(count) {
                Flag::Active
            } else {
                Flag::Passivated
            },
            consumer: if flags.consumer == Flag::Passivated {
                Flag::Warned
            } else {
                flags.consumer
            },
        }
    }

    /// The count that the handler leaves.
    pub open spec fn count_after(self, count: usize) -> usize {
        if self.proceeds(count) {
            (count + self.produce_amount) as usize
        } else {
            count
        }
    }

    /// The world that the handler leaves, run as the component with the number
    /// `me` in the world `w`. A suspended consumer gets a wake entry for the
    /// present time; a producer that goes on gets its next entry one interval
    /// later.
    pub open spec fn outcome(self, me: int, w: World) -> World {
        let flags = w.flags(flags_key(self.flags));
        let count = w.count(count_key(self.count));
        let woken = if flags.consumer == Flag::Passivated {
            w.queue.insert((w.now, consumer_index(self.consumer)))
        } else {
            w.queue
        };
        World {
            cells: w.cells.insert(
                flags_key(self.flags),
                Cell::Flags(self.flags_after(flags, count)),
            ).insert(count_key(self.count), Cell::Count(self.count_after(count))),
            queue: if self.proceeds(count) {
                woken.insert((later(w.now, self.interval), me))
            } else {
                woken
            },
            now: w.now,
        }
    }
}

impl Component for Producer {
    type Event = ProducerEvent;

    /// Handles the producer's event: marks the producer active, wakes a
    /// suspended consumer, then produces and schedules the next production, or
    /// suspends the producer where the count has reached the threshold.
    ///
    /// `simrs` calls this from `Simulation::step`. The specification of that
    /// function in [`crate::engine`] asks for the `requires` here, of every
    /// entry that may be taken.
    fn process_event(
        &self,
        self_id: ComponentId<ProducerEvent>,
        _event: &ProducerEvent,
        scheduler: &mut Scheduler,
        state: &mut State,
    )
        requires
            self.ready(world(*old(state), *old(scheduler))),
        ensures
            world(*final(state), *final(scheduler)) == self.outcome(
                producer_index(self_id),
                world(*old(state), *old(scheduler)),
            ),
    {
        let flags = get_mut(state, self.flags).unwrap();
        flags.producer = Flag::Active;
        if flags.consumer == Flag::Passivated {
            flags.consumer = Flag::Warned;
            schedule_now(scheduler, self.consumer, ConsumerEvent);
        }
        let count = get_mut(state, self.count).unwrap();
        if *count < self.threshold {
            *count += self.produce_amount;
            schedule(scheduler, self.interval, self_id, ProducerEvent);
        } else {
            let flags = get_mut(state, self.flags).unwrap();
            flags.producer = Flag::Passivated;
        }
    }
}

} // verus!
