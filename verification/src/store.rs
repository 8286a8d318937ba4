//! The value store of the simulation: `simrs::State`, seen through the cells
//! that the protocol keeps in it.
use crate::agenda::ProducerEvent;
use crate::flags::Flags;
use simrs::{ComponentId, Key, State};
use vstd::prelude::*;

verus! {

/// `simrs::State`, the store of typed cells. Its contents are private to
/// `simrs`; [`cells`] names the part of them that this crate works with.
#[verifier::external_type_specification]
#[verifier::external_body]
pub struct ExState(State);

/// `simrs::Key`, the typed handle of a cell. It wraps a number that `simrs`
/// keeps private.
#[verifier::external_type_specification]
#[verifier::external_body]
#[verifier::reject_recursive_types(V)]
pub struct ExKey<V>(Key<V>);

/// The cell that tells the consumer where the producer is: empty until both
/// components are registered.
pub type Address = Option<ComponentId<ProducerEvent>>;

/// What a cell holds, for the three kinds of cell that the protocol keeps.
pub enum Cell {
    /// The shared count.
    Count(usize),
    /// The pair of passivation flags.
    Flags(Flags),
    /// The producer's handle, once it is known.
    Address(Address),
}

/// A key of one of the three kinds.
pub enum Handle {
    Count(Key<usize>),
    Flags(Key<Flags>),
    Address(Key<Address>),
}

/// A type of value that the protocol keeps in the store.
pub trait Stored: Sized {
    /// The cell that holds this value.
    spec fn cell(self) -> Cell;

    /// A key for this type of value, as one of the three kinds.
    spec fn handle(key: Key<Self>) -> Handle;
}

impl Stored for usize {
    open spec fn cell(self) -> Cell {
        Cell::Count(self)
    }

    open spec fn handle(key: Key<usize>) -> Handle {
        Handle::Count(key)
    }
}

impl Stored for Flags {
    open spec fn cell(self) -> Cell {
        Cell::Flags(self)
    }

    open spec fn handle(key: Key<Flags>) -> Handle {
        Handle::Flags(key)
    }
}

impl Stored for Address {
    open spec fn cell(self) -> Cell {
        Cell::Address(self)
    }

    open spec fn handle(key: Key<Address>) -> Handle {
        Handle::Address(key)
    }
}

/// The cells of a store that hold a `usize`, a [`Flags`] or an [`Address`],
/// each under the number of its key.
pub uninterp spec fn cells(state: State) -> Map<int, Cell>;

/// The number inside a key. `simrs` draws the numbers from one counter for
/// the whole process, so no two cells share one.
pub uninterp spec fn number(handle: Handle) -> int;

/// The number inside the key of a count cell.
pub open spec fn count_key(key: Key<usize>) -> int {
    number(Handle::Count(key))
}

/// The number inside the key of a flags cell.
pub open spec fn flags_key(key: Key<Flags>) -> int {
    number(Handle::Flags(key))
}

/// The number inside the key of an address cell.
pub open spec fn address_key(key: Key<Address>) -> int {
    number(Handle::Address(key))
}

/// `simrs::State::insert`. The store gains one cell with the given value,
/// under a key whose number no cell of the store had.
#[verifier::external_body]
pub(crate) fn insert<V: Stored + 'static>(state: &mut State, value: V) -> (key: Key<V>)
    ensures
        !cells(*old(state)).contains_key(number(V::handle(key))),
        cells(*final(state)) == cells(*old(state)).insert(number(V::handle(key)), value.cell()),
{
    state.insert(value)
}

/// `simrs::State::get_mut`. With no cell under the key it returns `None` and
/// the store stays as it is. Otherwise it lends the cell's value: the store
/// ends with what the borrower leaves there, in that cell alone.
#[verifier::external_body]
pub(crate) fn get_mut<V: Stored + 'static>(state: &mut State, key: Key<V>) -> (slot: Option<
    &mut V,
>)
    ensures
        slot.is_some() == cells(*old(state)).contains_key(number(V::handle(key))),
        slot.is_some() ==> cells(*old(state))[number(V::handle(key))] == (*slot.unwrap()).cell(),
        slot.is_some() ==> cells(*final(state)) == cells(*old(state)).insert(
            number(V::handle(key)),
            (*final(slot.unwrap())).cell(),
        ),
        slot.is_none() ==> cells(*final(state)) == cells(*old(state)),
{
    state.get_mut(key)
}

/// `simrs::State::get`: the cell's value, or `None` with no cell under the
/// key.
#[verifier::external_body]
pub(crate) fn get<V: Stored + 'static>(state: &State, key: Key<V>) -> (found: Option<&V>)
    ensures
        found.is_some() == cells(*state).contains_key(number(V::handle(key))),
        found.is_some() ==> cells(*state)[number(V::handle(key))] == (*found.unwrap()).cell(),
{
    state.get(key)
}

} // verus!
