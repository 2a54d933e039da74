use ntp_clock::aggregate::{adjustment_millis, aggregate, weighted_mean, Sample};
use ntp_clock::errors::TimeError;
use ntp_clock::roundtrip::NTPResult;
use ntp_clock::timestamp::UnixTime;

fn at_millis(ms: i64) -> UnixTime {
    UnixTime { secs: ms / 1000, nanos: ((ms % 1000) * 1_000_000) as u32 }
}

#[test]
fn delay_sign_and_magnitude() {
    // Server processing 5 ms, symmetric transit of about 100 ms each way.
    let result = NTPResult {
        t1: at_millis(0),
        t2: at_millis(100),
        t3: at_millis(105),
        t4: at_millis(210),
    };
    assert!(result.delay_in_range());
    assert_eq!(result.delay(), 205);
    assert_eq!(result.offset(), 102);
}

#[test]
fn negative_delay_keeps_offset_magnitude() {
    let result = NTPResult {
        t1: at_millis(0),
        t2: at_millis(0),
        t3: at_millis(100),
        t4: at_millis(10),
    };
    assert_eq!(result.delay(), -90);
    assert_eq!(result.offset(), 45);
}

#[test]
fn weighted_mean_favors_low_delay() {
    let samples = vec![
        Sample { offset: 10, delay: 10 },
        Sample { offset: 20, delay: 100 },
    ];
    let mean = weighted_mean(&samples).unwrap();
    // Weights are proportional to 10000 and 100: the mean is
    // 102000 / 10100, about 10.099 ms.
    assert_eq!(mean.num, 102_000_000_000);
    assert_eq!(mean.den, 10_100_000_000);
    assert_eq!(mean.millis(), 10);
    assert_eq!(mean.num * 1000 / mean.den, 10099);
}

#[test]
fn zero_delay_sample_is_excluded() {
    let with_zero = vec![
        Sample { offset: 10, delay: 10 },
        Sample { offset: 999, delay: 0 },
    ];
    let without = vec![Sample { offset: 10, delay: 10 }];
    assert_eq!(weighted_mean(&with_zero), weighted_mean(&without));
    assert_eq!(weighted_mean(&with_zero).unwrap().millis(), 10);
}

#[test]
fn huge_delay_sample_is_excluded() {
    // Beyond a million milliseconds the integer weight truncates to zero.
    let with_huge = vec![
        Sample { offset: 10, delay: 10 },
        Sample { offset: 42, delay: 2_000_000 },
    ];
    let without = vec![Sample { offset: 10, delay: 10 }];
    assert_eq!(weighted_mean(&with_huge), weighted_mean(&without));
    assert_eq!(
        weighted_mean(&vec![Sample { offset: 42, delay: 2_000_000 }]),
        Err(TimeError::NoUsableSamples)
    );
}

#[test]
fn no_samples_yields_no_usable_samples() {
    assert_eq!(weighted_mean(&Vec::new()), Err(TimeError::NoUsableSamples));
}

#[test]
fn all_zero_delay_yields_no_usable_samples() {
    let samples = vec![
        Sample { offset: 5, delay: 0 },
        Sample { offset: 7, delay: 0 },
    ];
    assert_eq!(weighted_mean(&samples), Err(TimeError::NoUsableSamples));
}

#[test]
fn aggregate_combines_exchanges() {
    // Two exchanges with delays 10 ms and 100 ms and offsets 5 ms and 50 ms.
    let quick = NTPResult {
        t1: at_millis(0),
        t2: at_millis(0),
        t3: at_millis(0),
        t4: at_millis(10),
    };
    let slow = NTPResult {
        t1: at_millis(0),
        t2: at_millis(0),
        t3: at_millis(0),
        t4: at_millis(100),
    };
    assert_eq!(quick.offset(), 5);
    assert_eq!(slow.offset(), 50);
    let mean = aggregate(&vec![quick, slow]).unwrap();
    // Weighted toward the quick exchange: (5*10000 + 50*100) / 10100.
    assert_eq!(mean.num * 1000 / mean.den, 5445);
    assert_eq!(mean.millis(), 5);
}

#[test]
fn aggregate_of_no_exchanges_fails() {
    assert_eq!(aggregate(&Vec::new()), Err(TimeError::NoUsableSamples));
}

#[test]
fn adjustment_is_capped_and_scaled() {
    assert_eq!(adjustment_millis(0), 0);
    assert_eq!(adjustment_millis(102), 20);
    assert_eq!(adjustment_millis(1000), 40);
    assert_eq!(adjustment_millis(-102), -20);
    assert_eq!(adjustment_millis(-1000), -40);
}
