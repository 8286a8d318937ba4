use simrs::Simulation;
use simrs_benchmark::{
    assemble, drive, set_simulation, simulation, test_simulation, testing_simulation, Flag, Flags,
    Scenario,
};
use std::time::Duration;

const SECOND: u128 = 1_000_000_000;

fn count_of(simulation: &Simulation, scenario: &Scenario) -> usize {
    *simulation.state.get(scenario.producer.count).unwrap()
}

fn flags_of(simulation: &Simulation, scenario: &Scenario) -> Flags {
    *simulation.state.get(scenario.producer.flags).unwrap()
}

/// What can be seen of a simulation after each step, up to `limit` seconds.
fn trace(
    simulation: &mut Simulation,
    scenario: &Scenario,
    limit: u64,
) -> Vec<(Duration, usize, Flags)> {
    let mut seen = Vec::new();
    while simulation.step() {
        seen.push((
            simulation.scheduler.time(),
            count_of(simulation, scenario),
            flags_of(simulation, scenario),
        ));
        if simulation.scheduler.time() > Duration::from_secs(limit) {
            break;
        }
    }
    seen
}

#[test]
fn assemble_leaves_both_sides_due_at_once() {
    let (mut simulation, scenario) = assemble(15, 1, 2, 8, 8);
    assert_eq!(scenario.producer.threshold, 15);
    assert_eq!(scenario.producer.produce_amount, 1);
    assert_eq!(scenario.producer.interval, 2);
    assert_eq!(scenario.consumer.consume_amount, 8);
    assert_eq!(scenario.consumer.interval, 8);
    assert_eq!(count_of(&simulation, &scenario), 0);
    assert_eq!(
        flags_of(&simulation, &scenario),
        Flags { producer: Flag::Active, consumer: Flag::Active }
    );
    assert_eq!(
        format!("{:?}", simulation.state.get(scenario.consumer.producer).unwrap()),
        format!("{:?}", Some(scenario.producer_id))
    );
    assert_ne!(
        format!("{:?}", scenario.producer_id),
        format!("{:?}", scenario.producer.consumer)
    );
    assert_eq!(scenario.consumer.count, scenario.producer.count);
    assert_eq!(scenario.consumer.flags, scenario.producer.flags);
    assert_eq!(simulation.scheduler.time(), Duration::from_secs(0));
    assert!(simulation.scheduler.pop().is_some());
    assert_eq!(simulation.scheduler.time(), Duration::from_secs(0));
    assert!(simulation.scheduler.pop().is_some());
    assert_eq!(simulation.scheduler.time(), Duration::from_secs(0));
    assert!(simulation.scheduler.pop().is_none());
}

#[test]
fn the_producer_runs_first() {
    let (mut simulation, scenario) = assemble(15, 1, 2, 8, 8);
    assert!(simulation.step());
    assert_eq!(count_of(&simulation, &scenario), 1);
    assert_eq!(
        flags_of(&simulation, &scenario),
        Flags { producer: Flag::Active, consumer: Flag::Active }
    );
    assert!(simulation.step());
    assert_eq!(count_of(&simulation, &scenario), 1);
    assert_eq!(
        flags_of(&simulation, &scenario),
        Flags { producer: Flag::Active, consumer: Flag::Passivated }
    );
    assert_eq!(simulation.scheduler.time(), Duration::from_secs(0));
}

#[test]
fn standard_run_by_steps() {
    let (mut simulation, scenario) = assemble(15, 1, 2, 8, 8);
    let seen = trace(&mut simulation, &scenario, 22);
    let active = Flags { producer: Flag::Active, consumer: Flag::Active };
    let asleep = Flags { producer: Flag::Active, consumer: Flag::Passivated };
    let warned = Flags { producer: Flag::Active, consumer: Flag::Warned };
    let mut expected = vec![
        (Duration::from_secs(0), 1, active),
        (Duration::from_secs(0), 1, asleep),
    ];
    for tick in 1..8u64 {
        let count = tick as usize + 1;
        expected.push((Duration::from_secs(2 * tick), count, warned));
        if tick < 7 {
            expected.push((Duration::from_secs(2 * tick), count, asleep));
        }
    }
    expected.push((Duration::from_secs(14), 0, active));
    expected.push((Duration::from_secs(16), 1, active));
    expected.push((Duration::from_secs(18), 2, active));
    expected.push((Duration::from_secs(20), 3, active));
    assert_eq!(&seen[..expected.len()], &expected[..]);
    // At 22 seconds both sides are due. Whichever runs first, the consumer
    // ends suspended and the producer has produced once.
    let last = seen.last().unwrap();
    assert_eq!(last.0, Duration::from_secs(24));
    assert_eq!(last.1, 5);
    assert_eq!(last.2, warned);
}

#[test]
fn set_simulation_is_the_standard_scenario() {
    let mut simulation = set_simulation();
    let mut times = Vec::new();
    for _ in 0..20 {
        assert!(simulation.step());
        times.push(simulation.scheduler.time().as_secs());
    }
    assert_eq!(times, vec![0, 0, 2, 2, 4, 4, 6, 6, 8, 8, 10, 10, 12, 12, 14, 14, 16, 18, 20, 22]);
}

#[test]
fn test_simulation_hands_out_the_count() {
    let (mut simulation, count) = test_simulation();
    assert_eq!(*simulation.state.get(count).unwrap(), 0);
    let mut seen = Vec::new();
    while simulation.step() && simulation.scheduler.time() < Duration::from_secs(17) {
        seen.push((simulation.scheduler.time().as_secs(), *simulation.state.get(count).unwrap()));
    }
    assert_eq!(
        seen,
        vec![
            (0, 1), (0, 1), (2, 2), (2, 2), (4, 3), (4, 3), (6, 4), (6, 4), (8, 5), (8, 5),
            (10, 6), (10, 6), (12, 7), (12, 7), (14, 8), (14, 0), (15, 0), (16, 1), (16, 1),
        ]
    );
}

#[test]
fn testing_simulation_ends_at_its_limit() {
    assert_eq!(testing_simulation(), (6, 1002 * SECOND));
}

#[test]
fn testing_simulation_is_the_loop_over_test_simulation() {
    let (mut simulation, count) = test_simulation();
    let limit = Duration::from_secs(1002);
    let clock = simulation.scheduler.clock();
    while simulation.step() && clock.time() < limit {}
    let left = testing_simulation();
    assert_eq!(*simulation.state.get(count).unwrap(), left.0);
    assert_eq!(clock.time().as_nanos(), left.1);
}

#[test]
fn drive_is_the_loop_over_steps() {
    let (mut driven, scenario) = assemble(15, 1, 2, 8, 8);
    drive(&mut driven, 333 * SECOND + 1);
    let (mut stepped, other) = assemble(15, 1, 2, 8, 8);
    let limit = Duration::from_secs(333);
    let clock = stepped.scheduler.clock();
    while stepped.step() && clock.time() <= limit {}
    assert_eq!(driven.scheduler.time(), clock.time());
    assert_eq!(count_of(&driven, &scenario), count_of(&stepped, &other));
    assert_eq!(flags_of(&driven, &scenario), flags_of(&stepped, &other));
    assert_eq!(clock.time(), Duration::from_secs(334));
}

#[test]
fn simulation_returns() {
    simulation(0);
    simulation(50);
    simulation(50_000);
}

#[test]
fn drive_stops_with_the_first_step_past_the_limit() {
    let (mut simulation, scenario) = assemble(15, 1, 2, 8, 8);
    drive(&mut simulation, 50 * SECOND + 1);
    assert_eq!(simulation.scheduler.time(), Duration::from_secs(52));
    assert_eq!(count_of(&simulation, &scenario), 3);
}

#[test]
fn drive_always_steps_once() {
    let (mut simulation, scenario) = assemble(15, 1, 2, 8, 8);
    drive(&mut simulation, 0);
    assert_eq!(simulation.scheduler.time(), Duration::from_secs(0));
    assert_eq!(count_of(&simulation, &scenario), 1);
    drive(&mut simulation, 0);
    assert_eq!(
        flags_of(&simulation, &scenario),
        Flags { producer: Flag::Active, consumer: Flag::Passivated }
    );
    drive(&mut simulation, 2 * SECOND);
    assert_eq!(simulation.scheduler.time(), Duration::from_secs(2));
    assert_eq!(count_of(&simulation, &scenario), 2);
}

#[test]
fn drive_takes_a_limit_between_seconds() {
    let (mut simulation, scenario) = assemble(15, 1, 2, 8, 8);
    drive(&mut simulation, 3 * SECOND + 1);
    assert_eq!(simulation.scheduler.time(), Duration::from_secs(4));
    assert_eq!(count_of(&simulation, &scenario), 3);
}

#[test]
fn the_count_stays_bounded() {
    let (mut simulation, scenario) = assemble(15, 1, 2, 8, 8);
    let seen = trace(&mut simulation, &scenario, 2000);
    assert!(seen.len() > 1000);
    assert!(seen.iter().all(|step| step.1 <= 15));
    assert_eq!(seen.iter().map(|step| step.1).max(), Some(8));
}

#[test]
fn a_slow_consumer_makes_the_producer_wait() {
    let (mut simulation, scenario) = assemble(3, 1, 1, 2, 10);
    let seen = trace(&mut simulation, &scenario, 40);
    let brief: Vec<(u64, usize, Flag, Flag)> =
        seen.iter().map(|step| (step.0.as_secs(), step.1, step.2.producer, step.2.consumer)).collect();
    let start = vec![
        (0, 1, Flag::Active, Flag::Active),
        (0, 1, Flag::Active, Flag::Passivated),
        (1, 2, Flag::Active, Flag::Warned),
        (1, 0, Flag::Active, Flag::Active),
        (2, 1, Flag::Active, Flag::Active),
        (3, 2, Flag::Active, Flag::Active),
        (4, 3, Flag::Active, Flag::Active),
        (5, 3, Flag::Passivated, Flag::Active),
        (11, 1, Flag::Warned, Flag::Active),
        (11, 2, Flag::Active, Flag::Active),
        (12, 3, Flag::Active, Flag::Active),
        (13, 3, Flag::Passivated, Flag::Active),
        (21, 1, Flag::Warned, Flag::Active),
    ];
    assert_eq!(&brief[..start.len()], &start[..]);
    assert_eq!(seen.iter().map(|step| step.1).max(), Some(3));
    assert_eq!(brief.last(), Some(&(41, 1, Flag::Warned, Flag::Active)));
}

#[test]
fn the_clock_never_goes_back() {
    let (mut simulation, scenario) = assemble(6, 3, 3, 5, 7);
    let seen = trace(&mut simulation, &scenario, 500);
    assert!(seen.len() > 100);
    assert!(seen.windows(2).all(|pair| pair[0].0 <= pair[1].0));
}

#[test]
fn a_side_that_has_run_is_not_left_warned() {
    // After a step at most one flag is `Warned`, and the two sides are never
    // suspended together.
    let (mut simulation, scenario) = assemble(6, 3, 3, 5, 7);
    let seen = trace(&mut simulation, &scenario, 500);
    assert!(seen.iter().all(|step| {
        !(step.2.producer == Flag::Warned && step.2.consumer == Flag::Warned)
            && !(step.2.producer == Flag::Passivated && step.2.consumer == Flag::Passivated)
    }));
}

#[test]
fn a_consumer_that_takes_more_than_the_threshold_stalls_the_run() {
    // With a threshold of 4 and 5 taken at a time, a count of 4 lets neither
    // side go on: they wake each other for ever and the clock stands still.
    let (mut simulation, scenario) = assemble(4, 3, 3, 5, 7);
    let mut seen = Vec::new();
    for _ in 0..100 {
        assert!(simulation.step());
        seen.push((simulation.scheduler.time().as_secs(), count_of(&simulation, &scenario)));
    }
    assert_eq!(&seen[..7], &[(0, 3), (0, 3), (3, 6), (3, 1), (6, 4), (9, 4), (10, 4)]);
    assert!(seen[6..].iter().all(|step| *step == (10, 4)));
}

#[test]
fn step_on_an_empty_queue_changes_nothing() {
    let mut simulation = Simulation::default();
    let cell = simulation.state.insert(7usize);
    assert!(!simulation.step());
    assert!(!simulation.step());
    assert_eq!(simulation.scheduler.time(), Duration::from_secs(0));
    assert_eq!(*simulation.state.get(cell).unwrap(), 7);
}

#[test]
fn the_same_run_twice_is_the_same() {
    let (mut first, scenario) = assemble(15, 1, 2, 8, 8);
    let one = trace(&mut first, &scenario, 300);
    let (mut second, scenario) = assemble(15, 1, 2, 8, 8);
    let two = trace(&mut second, &scenario, 300);
    assert_eq!(one, two);
}
