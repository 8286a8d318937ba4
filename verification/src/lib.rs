//! A producer and a consumer that throttle each other through a passivation
//! handshake, run as components of a `simrs` discrete-event simulation.
//!
//! The producer adds to a shared count while the count is under a threshold;
//! the consumer takes from it while it covers what the consumer takes. A side
//! that cannot go on suspends itself instead of polling, and the other side
//! wakes it with one event that is due at once. The flags that the two sides
//! keep for this are in [`flags`], the two handlers in [`producer`] and
//! [`consumer`].
//!
//! The engine is the `simrs` crate's: the value store ([`store`]), the
//! scheduler ([`agenda`]) and the simulation that hands each entry to its
//! component ([`engine`]). What this crate takes from it is stated there, over
//! the model in [`world`]: the cells of the store, the entries that are
//! pending, and the virtual time.
//!
//! [`scenario`] wires one producer and one consumer and says what it means for
//! them to be in order; [`pacing`] proves that every step keeps them so, and
//! [`laws`] what holds of every handler and every step. [`run`] drives a
//! simulation to a limit of virtual time, and [`standard`] and [`trial`] hold
//! the scenario that it is run on.
pub mod agenda;
pub mod consumer;
pub mod engine;
pub mod flags;
pub mod laws;
pub mod pacing;
pub mod producer;
pub mod run;
pub mod scenario;
pub mod standard;
pub mod store;
pub mod trial;
pub mod world;

pub use agenda::{ConsumerEvent, ProducerEvent};
pub use consumer::Consumer;
pub use flags::{Flag, Flags};
pub use producer::Producer;
pub use run::{drive, simulation, testing_simulation};
pub use scenario::{assemble, Scenario};
pub use standard::{set_simulation, test_simulation};
pub use store::Address;
