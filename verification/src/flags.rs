//! The passivation flags: one tri-state flag for each side of the pair.
use vstd::prelude::*;

verus! {

/// Where one side stands in the handshake.
#[derive(Clone, Copy, Debug, PartialEq, Eq, Structural)]
pub enum Flag {
    /// The side keeps itself going: its next event is pending.
    Active,
    /// The side has suspended itself: it has no event pending and waits to be
    /// woken by the other side.
    Passivated,
    /// The other side has scheduled a wake event for this suspended side, and
    /// the event has not been handled yet.
    Warned,
}

/// The pair of flags, kept together in one cell of the value store.
#[derive(Clone, Copy, Debug, PartialEq, Eq, Structural)]
pub struct Flags {
    pub producer: Flag,
    pub consumer: Flag,
}

impl Flags {
    /// Both sides active: the state in which a scenario starts.
    pub fn new() -> (flags: Flags)
        ensures
            flags == (Flags { producer: Flag::Active, consumer: Flag::Active }),
    {
        Flags { producer: Flag::Active, consumer: Flag::Active }
    }
}

} // verus!
