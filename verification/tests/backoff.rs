use saga::backoff::Backoff;
use saga::constants::REGISTRATION_RETRY_MILLIS;

#[test]
fn fixed_wait_is_always_the_same() {
    let backoff = Backoff::Fixed { millis: REGISTRATION_RETRY_MILLIS };
    assert_eq!(REGISTRATION_RETRY_MILLIS, 5000);
    for failures in [0u32, 1, 2, 100, u32::MAX] {
        assert_eq!(backoff.delay(failures), 5000);
    }
}

#[test]
fn exponential_wait_doubles_up_to_its_limit() {
    let backoff = Backoff::Exponential { first_millis: 100, max_millis: 1000 };
    assert_eq!(backoff.delay(0), 100);
    assert_eq!(backoff.delay(1), 200);
    assert_eq!(backoff.delay(2), 400);
    assert_eq!(backoff.delay(3), 800);
    assert_eq!(backoff.delay(4), 1000);
    assert_eq!(backoff.delay(5), 1000);
    assert_eq!(backoff.delay(u32::MAX), 1000);
}

#[test]
fn exponential_wait_reaches_an_exact_limit() {
    let backoff = Backoff::Exponential { first_millis: 125, max_millis: 1000 };
    assert_eq!(backoff.delay(3), 1000);
    assert_eq!(backoff.delay(4), 1000);
    let backoff = Backoff::Exponential { first_millis: 1, max_millis: u64::MAX };
    assert_eq!(backoff.delay(63), 1u64 << 63);
    assert_eq!(backoff.delay(64), u64::MAX);
}

#[test]
fn exponential_wait_of_nothing_stays_nothing() {
    let backoff = Backoff::Exponential { first_millis: 0, max_millis: 1000 };
    assert_eq!(backoff.delay(0), 0);
    assert_eq!(backoff.delay(1000), 0);
}

#[test]
fn exponential_wait_that_starts_over_its_limit_is_the_limit() {
    let backoff = Backoff::Exponential { first_millis: 5000, max_millis: 1000 };
    assert_eq!(backoff.delay(0), 1000);
    assert_eq!(backoff.delay(7), 1000);
}
