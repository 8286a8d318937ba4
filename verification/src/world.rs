//! The model that the contracts are stated over: what the store holds, what is
//! pending in the scheduler, and the virtual time.
use crate::agenda::{now, queue, Entry};
use crate::flags::{Flag, Flags};
use crate::store::{cells, Address, Cell};
use simrs::{Scheduler, State};
use vstd::multiset::Multiset;
use vstd::prelude::*;

verus! {

/// A store and a scheduler, as the components see them.
#[verifier::ext_equal]
pub struct World {
    /// The cells of the store, by the number of their key.
    pub cells: Map<int, Cell>,
    /// The entries pending in the scheduler.
    pub queue: Multiset<Entry>,
    /// The virtual time, in nanoseconds.
    pub now: nat,
}

/// The world that a store and a scheduler make up.
pub open spec fn world(state: State, scheduler: Scheduler) -> World {
    World { cells: cells(state), queue: queue(scheduler), now: now(scheduler) }
}

impl World {
    /// The world of a simulation that was just made: no cell, no entry, and
    /// the clock at zero.
    pub open spec fn blank() -> World {
        World { cells: Map::empty(), queue: Multiset::empty(), now: 0 }
    }

    /// The count in the cell at `at`, where that is a count cell.
    pub open spec fn count(self, at: int) -> usize {
        match self.cells[at] {
            Cell::Count(count) => count,
            _ => 0,
        }
    }

    /// The flags in the cell at `at`, where that is a flags cell.
    pub open spec fn flags(self, at: int) -> Flags {
        match self.cells[at] {
            Cell::Flags(flags) => flags,
            _ => Flags { producer: Flag::Active, consumer: Flag::Active },
        }
    }

    /// The address in the cell at `at`, where that is an address cell.
    pub open spec fn address(self, at: int) -> Address {
        match self.cells[at] {
            Cell::Address(address) => address,
            _ => None,
        }
    }

    /// `entry` is pending and no pending entry is due before it: the scheduler
    /// may hand it out next.
    pub open spec fn next(self, entry: Entry) -> bool {
        &&& self.queue.contains(entry)
        &&& forall|other: Entry| #[trigger] self.queue.contains(other) ==> entry.0 <= other.0
    }

    /// The world once `entry` has been taken from the queue: the clock stands
    /// at the time of the entry.
    pub open spec fn taken(self, entry: Entry) -> World {
        World { cells: self.cells, queue: self.queue.remove(entry), now: entry.0 }
    }

    /// The world once `entry` has been scheduled.
    pub open spec fn scheduled(self, entry: Entry) -> World {
        World { queue: self.queue.insert(entry), ..self }
    }

    /// No pending entry is due before the clock's time.
    pub open spec fn timely(self) -> bool {
        forall|entry: Entry| #[trigger] self.queue.contains(entry) ==> self.now <= entry.0
    }
}

} // verus!
