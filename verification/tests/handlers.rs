use simrs::{Component, ComponentId, Key, Simulation};
use simrs_benchmark::{
    Address, Consumer, ConsumerEvent, Flag, Flags, Producer, ProducerEvent,
};
use std::time::Duration;

struct Bench {
    simulation: Simulation,
    count: Key<usize>,
    flags: Key<Flags>,
    producer: Producer,
    producer_id: ComponentId<ProducerEvent>,
    consumer: Consumer,
    consumer_id: ComponentId<ConsumerEvent>,
}

/// A simulation with the standard components, the given count and flags,
/// and nothing scheduled.
fn bench(count: usize, producer: Flag, consumer: Flag) -> Bench {
    bench_with(15, count, producer, consumer)
}

/// The same with a threshold of one's own.
fn bench_with(threshold: usize, count: usize, producer: Flag, consumer: Flag) -> Bench {
    let mut simulation = Simulation::default();
    let count = simulation.state.insert(count);
    let address = simulation.state.insert::<Address>(None);
    let flags = simulation.state.insert(Flags { producer, consumer });
    let consumer = Consumer { count, producer: address, interval: 8, flags, consume_amount: 8 };
    let consumer_id = simulation.add_component(consumer);
    let producer =
        Producer { count, consumer: consumer_id, threshold, interval: 2, produce_amount: 1, flags };
    let producer_id = simulation.add_component(producer);
    *simulation.state.get_mut(address).unwrap() = Some(producer_id);
    Bench { simulation, count, flags, producer, producer_id, consumer, consumer_id }
}

/// The times at which the pending entries are due, in the order in which the
/// scheduler hands them out.
fn drain(simulation: &mut Simulation) -> Vec<Duration> {
    let mut times = Vec::new();
    while simulation.scheduler.pop().is_some() {
        times.push(simulation.scheduler.time());
    }
    times
}

fn run_producer(bench: &mut Bench) {
    bench.producer.process_event(
        bench.producer_id,
        &ProducerEvent,
        &mut bench.simulation.scheduler,
        &mut bench.simulation.state,
    );
}

fn run_consumer(bench: &mut Bench) {
    bench.consumer.process_event(
        bench.consumer_id,
        &ConsumerEvent,
        &mut bench.simulation.scheduler,
        &mut bench.simulation.state,
    );
}

fn count_of(bench: &Bench) -> usize {
    *bench.simulation.state.get(bench.count).unwrap()
}

fn flags_of(bench: &Bench) -> Flags {
    *bench.simulation.state.get(bench.flags).unwrap()
}

#[test]
fn producer_produces_under_the_threshold() {
    let mut bench = bench(14, Flag::Active, Flag::Active);
    run_producer(&mut bench);
    assert_eq!(count_of(&bench), 15);
    assert_eq!(flags_of(&bench), Flags { producer: Flag::Active, consumer: Flag::Active });
    assert_eq!(drain(&mut bench.simulation), vec![Duration::from_secs(2)]);
}

#[test]
fn producer_suspends_itself_at_the_threshold() {
    let mut bench = bench(15, Flag::Active, Flag::Active);
    run_producer(&mut bench);
    assert_eq!(count_of(&bench), 15);
    assert_eq!(flags_of(&bench), Flags { producer: Flag::Passivated, consumer: Flag::Active });
    assert_eq!(drain(&mut bench.simulation), Vec::<Duration>::new());
}

#[test]
fn producer_wakes_a_suspended_consumer_at_once() {
    let mut bench = bench(3, Flag::Active, Flag::Passivated);
    run_producer(&mut bench);
    assert_eq!(count_of(&bench), 4);
    assert_eq!(flags_of(&bench), Flags { producer: Flag::Active, consumer: Flag::Warned });
    assert_eq!(
        drain(&mut bench.simulation),
        vec![Duration::from_secs(0), Duration::from_secs(2)]
    );
}

#[test]
fn producer_wakes_the_consumer_even_when_it_suspends_itself() {
    let mut bench = bench(20, Flag::Active, Flag::Passivated);
    run_producer(&mut bench);
    assert_eq!(count_of(&bench), 20);
    assert_eq!(flags_of(&bench), Flags { producer: Flag::Passivated, consumer: Flag::Warned });
    assert_eq!(drain(&mut bench.simulation), vec![Duration::from_secs(0)]);
}

#[test]
fn producer_does_not_wake_a_warned_consumer_again() {
    let mut bench = bench(3, Flag::Active, Flag::Warned);
    run_producer(&mut bench);
    assert_eq!(flags_of(&bench), Flags { producer: Flag::Active, consumer: Flag::Warned });
    assert_eq!(drain(&mut bench.simulation), vec![Duration::from_secs(2)]);
}

#[test]
fn producer_clears_its_own_warning() {
    let mut bench = bench(3, Flag::Warned, Flag::Active);
    run_producer(&mut bench);
    assert_eq!(flags_of(&bench), Flags { producer: Flag::Active, consumer: Flag::Active });
    let mut bench = self::bench(15, Flag::Warned, Flag::Active);
    run_producer(&mut bench);
    assert_eq!(flags_of(&bench), Flags { producer: Flag::Passivated, consumer: Flag::Active });
}

#[test]
fn producer_schedules_from_the_present_time() {
    let mut bench = bench(0, Flag::Active, Flag::Passivated);
    bench.simulation.scheduler.schedule(Duration::from_secs(5), bench.producer_id, ProducerEvent);
    assert!(bench.simulation.scheduler.pop().is_some());
    run_producer(&mut bench);
    assert_eq!(
        drain(&mut bench.simulation),
        vec![Duration::from_secs(5), Duration::from_secs(7)]
    );
}

#[test]
fn consumer_consumes_what_the_count_covers() {
    let mut bench = bench(8, Flag::Active, Flag::Active);
    run_consumer(&mut bench);
    assert_eq!(count_of(&bench), 0);
    assert_eq!(flags_of(&bench), Flags { producer: Flag::Active, consumer: Flag::Active });
    assert_eq!(drain(&mut bench.simulation), vec![Duration::from_secs(8)]);
}

#[test]
fn consumer_suspends_itself_under_its_amount() {
    let mut bench = bench(7, Flag::Active, Flag::Active);
    run_consumer(&mut bench);
    assert_eq!(count_of(&bench), 7);
    assert_eq!(flags_of(&bench), Flags { producer: Flag::Active, consumer: Flag::Passivated });
    assert_eq!(drain(&mut bench.simulation), Vec::<Duration>::new());
}

#[test]
fn consumer_wakes_a_suspended_producer_at_once() {
    let mut bench = bench(15, Flag::Passivated, Flag::Active);
    run_consumer(&mut bench);
    assert_eq!(count_of(&bench), 7);
    assert_eq!(flags_of(&bench), Flags { producer: Flag::Warned, consumer: Flag::Active });
    assert_eq!(
        drain(&mut bench.simulation),
        vec![Duration::from_secs(0), Duration::from_secs(8)]
    );
}

#[test]
fn consumer_does_not_wake_a_warned_producer_again() {
    let mut bench = bench(15, Flag::Warned, Flag::Active);
    run_consumer(&mut bench);
    assert_eq!(flags_of(&bench), Flags { producer: Flag::Warned, consumer: Flag::Active });
    assert_eq!(drain(&mut bench.simulation), vec![Duration::from_secs(8)]);
}

#[test]
fn consumer_clears_its_own_warning() {
    let mut bench = bench(9, Flag::Active, Flag::Warned);
    run_consumer(&mut bench);
    assert_eq!(count_of(&bench), 1);
    assert_eq!(flags_of(&bench), Flags { producer: Flag::Active, consumer: Flag::Active });
    let mut bench = self::bench(2, Flag::Active, Flag::Warned);
    run_consumer(&mut bench);
    assert_eq!(flags_of(&bench), Flags { producer: Flag::Active, consumer: Flag::Passivated });
}

#[test]
fn the_wake_reaches_the_other_side() {
    // The producer wakes the consumer: the step that follows runs the
    // consumer, which clears the warning and suspends itself again.
    let mut bench = bench(3, Flag::Active, Flag::Passivated);
    run_producer(&mut bench);
    assert!(bench.simulation.step());
    assert_eq!(bench.simulation.scheduler.time(), Duration::from_secs(0));
    assert_eq!(count_of(&bench), 4);
    assert_eq!(flags_of(&bench), Flags { producer: Flag::Active, consumer: Flag::Passivated });
    // The consumer wakes the producer through the address cell.
    let mut bench = self::bench(15, Flag::Passivated, Flag::Active);
    run_consumer(&mut bench);
    assert!(bench.simulation.step());
    assert_eq!(bench.simulation.scheduler.time(), Duration::from_secs(0));
    assert_eq!(count_of(&bench), 8);
    assert_eq!(flags_of(&bench), Flags { producer: Flag::Active, consumer: Flag::Active });
}

#[test]
fn new_flags_are_both_active() {
    assert_eq!(Flags::new(), Flags { producer: Flag::Active, consumer: Flag::Active });
}

#[test]
fn entries_due_together_are_all_handed_out_at_their_time() {
    // Six entries for the same time: each is handed out at that time, three
    // to the producer and three to the consumer, in the scheduler's order.
    let mut bench = bench_with(1000, 100, Flag::Active, Flag::Active);
    let producer = bench.producer_id;
    let consumer = bench.consumer_id;
    let scheduler = &mut bench.simulation.scheduler;
    scheduler.schedule(Duration::from_secs(5), producer, ProducerEvent);
    scheduler.schedule(Duration::from_secs(5), consumer, ConsumerEvent);
    scheduler.schedule(Duration::from_secs(5), consumer, ConsumerEvent);
    scheduler.schedule(Duration::from_secs(5), producer, ProducerEvent);
    scheduler.schedule(Duration::from_secs(5), producer, ProducerEvent);
    scheduler.schedule(Duration::from_secs(5), consumer, ConsumerEvent);
    let mut produced = 0;
    let mut consumed = 0;
    let mut last = count_of(&bench);
    for _ in 0..6 {
        assert!(bench.simulation.step());
        assert_eq!(bench.simulation.scheduler.time(), Duration::from_secs(5));
        let count = count_of(&bench);
        if count == last + 1 {
            produced += 1;
        } else {
            assert_eq!(count + 8, last);
            consumed += 1;
        }
        last = count;
    }
    assert_eq!((produced, consumed), (3, 3));
    assert_eq!(count_of(&bench), 79);
}

#[test]
fn an_entry_that_is_due_earlier_is_handed_out_first() {
    let mut bench = bench(0, Flag::Active, Flag::Active);
    let producer = bench.producer_id;
    let consumer = bench.consumer_id;
    let scheduler = &mut bench.simulation.scheduler;
    scheduler.schedule(Duration::from_secs(9), consumer, ConsumerEvent);
    scheduler.schedule(Duration::from_secs(4), producer, ProducerEvent);
    assert!(bench.simulation.step());
    assert_eq!(bench.simulation.scheduler.time(), Duration::from_secs(4));
    assert_eq!(count_of(&bench), 1);
    assert!(bench.simulation.step());
    assert_eq!(bench.simulation.scheduler.time(), Duration::from_secs(6));
    assert_eq!(count_of(&bench), 2);
    assert!(bench.simulation.step());
    assert_eq!(bench.simulation.scheduler.time(), Duration::from_secs(8));
    assert!(bench.simulation.step());
    assert_eq!(bench.simulation.scheduler.time(), Duration::from_secs(9));
    assert_eq!(count_of(&bench), 3);
    assert_eq!(flags_of(&bench), Flags { producer: Flag::Active, consumer: Flag::Passivated });
}
