use netstatsd::error::{ConnectionCause, Error, ErrorKind};
use netstatsd::retry::{ConnectStep, Connecting, RetryPolicy};

fn exhausted(attempts: u32) -> ConnectStep {
    ConnectStep::GiveUp {
        error: Error::Connection { cause: ConnectionCause::RetriesExhausted { attempts } },
    }
}

#[test]
fn standard_policy() {
    let policy = RetryPolicy::standard();
    assert_eq!(policy.base_delay_ms, 1000);
    assert_eq!(policy.multiplier, 2);
    assert_eq!(policy.max_delay_ms, u64::MAX);
    assert_eq!(policy.max_attempts, 6);
}

#[test]
fn delays_double() {
    let policy = RetryPolicy::standard();
    assert_eq!(policy.delay_ms(0), 1000);
    assert_eq!(policy.delay_ms(1), 2000);
    assert_eq!(policy.delay_ms(2), 4000);
    assert_eq!(policy.delay_ms(3), 8000);
    assert_eq!(policy.delay_ms(4), 16000);
    assert_eq!(policy.delay_ms(10), 1_024_000);
}

#[test]
fn delays_are_capped() {
    let policy =
        RetryPolicy { base_delay_ms: 100, multiplier: 3, max_delay_ms: 1000, max_attempts: 9 };
    assert_eq!(policy.delay_ms(0), 100);
    assert_eq!(policy.delay_ms(1), 300);
    assert_eq!(policy.delay_ms(2), 900);
    assert_eq!(policy.delay_ms(3), 1000);
    assert_eq!(policy.delay_ms(200), 1000);
    let low = RetryPolicy { base_delay_ms: 5000, multiplier: 2, max_delay_ms: 10, max_attempts: 2 };
    assert_eq!(low.delay_ms(0), 10);
    assert_eq!(low.delay_ms(1), 10);
}

#[test]
fn delays_saturate_without_overflow() {
    let policy = RetryPolicy::standard();
    assert_eq!(policy.delay_ms(63), u64::MAX);
    assert_eq!(policy.delay_ms(u32::MAX >> 12), u64::MAX);
    let wide = RetryPolicy {
        base_delay_ms: u64::MAX,
        multiplier: u32::MAX,
        max_delay_ms: u64::MAX,
        max_attempts: 3,
    };
    assert_eq!(wide.delay_ms(0), u64::MAX);
    assert_eq!(wide.delay_ms(5), u64::MAX);
}

#[test]
fn late_retries_are_computed_at_once() {
    for multiplier in [0u32, 1, 2, 3, u32::MAX] {
        for base_delay_ms in [0u64, 1, 1000, u64::MAX] {
            for max_delay_ms in [0u64, 1, 500, 60_000, u64::MAX] {
                let policy =
                    RetryPolicy { base_delay_ms, multiplier, max_delay_ms, max_attempts: 2 };
                let late = policy.delay_ms(u32::MAX);
                assert!(late <= max_delay_ms);
                let expected = match multiplier {
                    0 => 0,
                    1 => base_delay_ms.min(max_delay_ms),
                    _ if base_delay_ms == 0 => 0,
                    _ => max_delay_ms,
                };
                assert_eq!(late, expected, "{policy:?}");
                assert_eq!(policy.delay_ms(0), base_delay_ms.min(max_delay_ms));
            }
        }
    }
}

#[test]
fn delays_agree_with_the_formula() {
    for multiplier in 0u32..5 {
        for base_delay_ms in [0u64, 1, 7, 1000] {
            for max_delay_ms in [0u64, 10, 5000, 1 << 40] {
                let policy =
                    RetryPolicy { base_delay_ms, multiplier, max_delay_ms, max_attempts: 2 };
                for retry in 0u32..20 {
                    let grown = (base_delay_ms as u128) * (multiplier as u128).pow(retry);
                    let expected = grown.min(max_delay_ms as u128) as u64;
                    assert_eq!(policy.delay_ms(retry), expected, "{policy:?} {retry}");
                }
            }
        }
    }
}

#[test]
fn multiplier_one_and_zero() {
    let fixed = RetryPolicy { base_delay_ms: 250, multiplier: 1, max_delay_ms: 9999, max_attempts: 4 };
    assert_eq!(fixed.delay_ms(0), 250);
    assert_eq!(fixed.delay_ms(7), 250);
    let zero = RetryPolicy { base_delay_ms: 250, multiplier: 0, max_delay_ms: 9999, max_attempts: 4 };
    assert_eq!(zero.delay_ms(0), 250);
    assert_eq!(zero.delay_ms(1), 0);
    assert_eq!(zero.delay_ms(2), 0);
    let zero_capped =
        RetryPolicy { base_delay_ms: 250, multiplier: 0, max_delay_ms: 100, max_attempts: 4 };
    assert_eq!(zero_capped.delay_ms(0), 100);
    assert_eq!(zero_capped.delay_ms(1), 0);
}

#[test]
fn never_accepting_endpoint_is_given_up() {
    let policy = RetryPolicy { base_delay_ms: 10, multiplier: 2, max_delay_ms: 25, max_attempts: 4 };
    let mut state = Connecting::new(policy);
    assert_eq!(state.step(), ConnectStep::Attempt { after_ms: 0 });
    assert_eq!(state.attempt_failed(), ConnectStep::Attempt { after_ms: 10 });
    assert_eq!(state.attempt_failed(), ConnectStep::Attempt { after_ms: 20 });
    assert_eq!(state.attempt_failed(), ConnectStep::Attempt { after_ms: 25 });
    assert_eq!(state.attempt_failed(), exhausted(4));
    assert_eq!(state.attempt_failed(), exhausted(4));
    assert_eq!(state.step(), exhausted(4));
}

#[test]
fn attempts_never_exceed_the_policy() {
    for max_attempts in 0u32..20 {
        let policy =
            RetryPolicy { base_delay_ms: 1, multiplier: 2, max_delay_ms: 8, max_attempts };
        let mut state = Connecting::new(policy);
        let mut step = state.step();
        let mut attempts = 0u32;
        while let ConnectStep::Attempt { after_ms } = step {
            assert!(after_ms <= 8);
            attempts += 1;
            assert!(attempts <= max_attempts);
            step = state.attempt_failed();
        }
        assert_eq!(attempts, max_attempts);
        match step {
            ConnectStep::GiveUp { error } => assert_eq!(error.kind(), ErrorKind::Connection),
            ConnectStep::Attempt { .. } => unreachable!(),
        }
    }
}

#[test]
fn exhaustion_can_be_forced_at_once() {
    let once = RetryPolicy { base_delay_ms: 1000, multiplier: 2, max_delay_ms: 1000, max_attempts: 1 };
    let mut state = Connecting::new(once);
    assert_eq!(state.step(), ConnectStep::Attempt { after_ms: 0 });
    assert_eq!(state.attempt_failed(), exhausted(1));
    let never = RetryPolicy { base_delay_ms: 1000, multiplier: 2, max_delay_ms: 1000, max_attempts: 0 };
    let state = Connecting::new(never);
    assert_eq!(state.step(), exhausted(0));
}
