//! The standard scenario: a producer that adds one unit every 2 seconds up to
//! a threshold of 15, and a consumer that takes 8 units at a time.
use crate::scenario::{assemble, Scenario};
use crate::store::count_key;
use simrs::{Key, Simulation};
use vstd::prelude::*;

verus! {

/// The threshold of the standard producer.
pub const THRESHOLD: usize = 15;

/// What the standard producer adds in one production.
pub const PRODUCE_AMOUNT: usize = 1;

/// Seconds between two productions of the standard producer.
pub const PRODUCER_INTERVAL: u64 = 2;

/// What the standard consumer takes in one consumption.
pub const CONSUME_AMOUNT: usize = 8;

/// Seconds between two consumptions of the standard consumer.
pub const CONSUMER_INTERVAL: u64 = 8;

/// Seconds between two consumptions of the consumer in the trial.
pub const TRIAL_CONSUMER_INTERVAL: u64 = 1;

/// The virtual time at which the trial stops, in seconds.
pub const TRIAL_LIMIT: u64 = 1002;

/// The scenario has the standard parameters, with the given interval for the
/// consumer.
pub open spec fn standard(scenario: Scenario, consumer_interval: u64) -> bool {
    &&& scenario.producer.threshold == THRESHOLD
    &&& scenario.producer.produce_amount == PRODUCE_AMOUNT
    &&& scenario.producer.interval == PRODUCER_INTERVAL
    &&& scenario.consumer.consume_amount == CONSUME_AMOUNT
    &&& scenario.consumer.interval == consumer_interval
}

/// The standard scenario, ready to run: threshold 15, one unit produced every
/// 2 seconds, 8 units consumed every 8 seconds, the count at zero.
pub fn set_simulation() -> (simulation: Simulation)
    ensures
        exists|scenario: Scenario|
            standard(scenario, CONSUMER_INTERVAL) && #[trigger] scenario.starts(simulation, 0)
                && scenario.steady(simulation),
{
    assemble(THRESHOLD, PRODUCE_AMOUNT, PRODUCER_INTERVAL, CONSUME_AMOUNT, CONSUMER_INTERVAL).0
}

/// The standard scenario with a consumer that comes back every second, ready
/// to run, and the key of its count cell.
pub fn test_simulation() -> (made: (Simulation, Key<usize>))
    ensures
        exists|scenario: Scenario|
            standard(scenario, TRIAL_CONSUMER_INTERVAL) && #[trigger] scenario.starts(made.0, 0)
                && scenario.steady(made.0) && count_key(made.1) == scenario.count_at(),
{
    let (simulation, scenario) = assemble(
        THRESHOLD,
        PRODUCE_AMOUNT,
        PRODUCER_INTERVAL,
        CONSUME_AMOUNT,
        TRIAL_CONSUMER_INTERVAL,
    );
    let made = (simulation, scenario.producer.count);
    proof {
        assert(scenario.starts(made.0, 0));
    }
    made
}

} // verus!
