use status_bar::network_speed::{
    CounterDelta, ElapsedTime, NetworkCounters, NetworkSpeedCalculator,
};

fn secs(s: u128) -> ElapsedTime {
    ElapsedTime { nanos: s * 1_000_000_000 }
}

fn bytes_per_second(bytes: u64, elapsed: ElapsedTime) -> f64 {
    let d = std::time::Duration::from_nanos(elapsed.nanos as u64);
    bytes as f64 / d.as_secs_f64()
}

#[test]
fn calculates_speed_from_counter_delta() {
    let previous = NetworkCounters { received_bytes: 1_000, transmitted_bytes: 2_000 };
    let current = NetworkCounters { received_bytes: 5_000, transmitted_bytes: 6_000 };

    let delta = NetworkSpeedCalculator::calculate(previous, current, secs(2)).unwrap();

    assert_eq!(
        delta,
        CounterDelta { received_bytes: 4_000, transmitted_bytes: 4_000, elapsed: secs(2) }
    );
    assert_eq!(bytes_per_second(delta.received_bytes, delta.elapsed), 2_000.0);
    assert_eq!(bytes_per_second(delta.transmitted_bytes, delta.elapsed), 2_000.0);
}

#[test]
fn handles_counter_reset_without_negative_speed() {
    let previous = NetworkCounters { received_bytes: 10_000, transmitted_bytes: 10_000 };
    let current = NetworkCounters { received_bytes: 1_000, transmitted_bytes: 2_000 };

    let delta = NetworkSpeedCalculator::calculate(previous, current, secs(1));

    assert_eq!(delta, None);
}

#[test]
fn one_counter_reset_is_enough_for_zero() {
    let previous = NetworkCounters { received_bytes: 10, transmitted_bytes: 10_000 };
    let current = NetworkCounters { received_bytes: 20, transmitted_bytes: 2_000 };
    assert_eq!(NetworkSpeedCalculator::calculate(previous, current, secs(1)), None);
}

#[test]
fn sample_window_is_a_tenth_of_a_second_to_an_hour() {
    let previous = NetworkCounters { received_bytes: 0, transmitted_bytes: 0 };
    let current = NetworkCounters { received_bytes: 10, transmitted_bytes: 10 };
    let at = |nanos: u128| {
        NetworkSpeedCalculator::calculate(previous, current, ElapsedTime { nanos }).is_some()
    };
    assert!(!at(0));
    assert!(!at(99_999_999));
    assert!(at(100_000_000));
    assert!(at(3_600_000_000_000));
    assert!(!at(3_600_000_000_001));
    // The same window, read the way a duration in seconds is compared.
    for nanos in [99_999_999u64, 100_000_000, 3_600_000_000_000, 3_600_000_000_001] {
        let s = std::time::Duration::from_nanos(nanos).as_secs_f64();
        assert_eq!((0.1..=3_600.0).contains(&s), at(nanos as u128));
    }
}

#[test]
fn first_update_reports_nothing_then_measures_against_previous() {
    let mut calc = NetworkSpeedCalculator::new();
    let a = NetworkCounters { received_bytes: 100, transmitted_bytes: 50 };
    let b = NetworkCounters { received_bytes: 1_100, transmitted_bytes: 60 };
    assert_eq!(calc.update(a, secs(1)), None);
    assert_eq!(
        calc.update(b, secs(1)),
        Some(CounterDelta { received_bytes: 1_000, transmitted_bytes: 10, elapsed: secs(1) })
    );
    // A reset is followed by a sample measured against the reset values.
    let c = NetworkCounters { received_bytes: 5, transmitted_bytes: 5 };
    assert_eq!(calc.update(c, secs(1)), None);
    let d = NetworkCounters { received_bytes: 15, transmitted_bytes: 25 };
    assert_eq!(
        calc.update(d, secs(1)),
        Some(CounterDelta { received_bytes: 10, transmitted_bytes: 20, elapsed: secs(1) })
    );
}

#[test]
fn totals_add_interfaces_and_saturate() {
    let list = [
        NetworkCounters { received_bytes: 1, transmitted_bytes: 2 },
        NetworkCounters { received_bytes: 10, transmitted_bytes: u64::MAX - 1 },
        NetworkCounters { received_bytes: 100, transmitted_bytes: 5 },
    ];
    assert_eq!(
        NetworkCounters::total(&list),
        NetworkCounters { received_bytes: 111, transmitted_bytes: u64::MAX }
    );
    assert_eq!(NetworkCounters::total(&[]), NetworkCounters::default());
}
