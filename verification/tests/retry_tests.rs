use auth0_mgmt_api::retry::is_retryable_status;
use auth0_mgmt_api::RetryConfig;

fn config(max_retries: u32, initial: u64, max: u64, permille: u32) -> RetryConfig {
    RetryConfig {
        max_retries,
        initial_delay_ms: initial,
        max_delay_ms: max,
        multiplier_permille: permille,
    }
}

#[test]
fn default_policy() {
    let d = RetryConfig::default();
    assert_eq!(d.max_retries, 3);
    assert_eq!(d.initial_delay_ms, 100);
    assert_eq!(d.max_delay_ms, 10_000);
    assert_eq!(d.multiplier_permille, 2000);
}

#[test]
fn default_schedule_doubles_up_to_the_cap() {
    let d = RetryConfig::default();
    let expected = [100u64, 200, 400, 800, 1600, 3200, 6400, 10_000, 10_000, 10_000];
    for (i, want) in expected.iter().enumerate() {
        assert_eq!(d.scheduled_delay(i as u32 + 1), *want, "attempt {}", i + 1);
    }
    assert_eq!(d.scheduled_delay(0), 100);
    assert_eq!(d.first_delay(), 100);
    assert_eq!(d.scheduled_delay(1000), 10_000);
}

#[test]
fn schedule_is_the_closed_form_for_whole_factors() {
    let c = config(10, 7, 1_000_000, 3000);
    let mut power: u64 = 1;
    for k in 1..=12u32 {
        assert_eq!(c.scheduled_delay(k), (7 * power).min(1_000_000));
        power *= 3;
    }
}

#[test]
fn schedule_never_shrinks_and_stays_under_the_cap() {
    for permille in [1000u32, 1001, 1500, 2000, 7777] {
        let c = config(5, 13, 5000, permille);
        let mut previous: u64 = 0;
        for k in 1..=40u32 {
            let d = c.scheduled_delay(k);
            assert!(d >= previous);
            assert!(d <= 5000);
            previous = d;
        }
    }
}

#[test]
fn advance_rounds_down() {
    let c = config(3, 101, 10_000, 1500);
    assert_eq!(c.advance(101), 151);
    assert_eq!(c.advance(151), 226);
    assert_eq!(c.advance(1), 1);
    assert_eq!(c.advance(0), 0);
    assert_eq!(c.scheduled_delay(3), 226);
}

#[test]
fn advance_is_capped() {
    let c = config(3, 100, 250, 2000);
    assert_eq!(c.advance(100), 200);
    assert_eq!(c.advance(200), 250);
    assert_eq!(c.advance(u64::MAX as u128), 250);
    assert_eq!(c.advance(u128::MAX), 250);
    assert_eq!(c.advance(1u128 << 96), 250);
    assert_eq!(c.advance((1u128 << 96) - 1), 250);
}

#[test]
fn advance_with_extreme_factors() {
    let zero = config(3, 100, 10_000, 0);
    assert_eq!(zero.advance(100), 0);
    assert_eq!(zero.advance(u128::MAX), 0);
    assert_eq!(zero.scheduled_delay(1), 100);
    assert_eq!(zero.scheduled_delay(2), 0);

    let shrinking = config(3, 100, 10_000, 500);
    assert_eq!(shrinking.scheduled_delay(1), 100);
    assert_eq!(shrinking.scheduled_delay(2), 50);
    assert_eq!(shrinking.scheduled_delay(3), 25);

    let huge = config(3, u64::MAX, u64::MAX, u32::MAX);
    assert_eq!(huge.advance(u64::MAX as u128), u64::MAX);
    assert_eq!(huge.scheduled_delay(5), u64::MAX);
}

#[test]
fn initial_delay_over_the_cap_is_capped() {
    let c = config(3, 500, 100, 2000);
    assert_eq!(c.first_delay(), 100);
    assert_eq!(c.scheduled_delay(1), 100);
    assert_eq!(c.scheduled_delay(2), 100);
}

#[test]
fn server_wait_overrides_the_schedule() {
    let c = config(3, 10, 5000, 2000);
    assert_eq!(c.delay_before(1, None), 10);
    assert_eq!(c.delay_before(2, None), 20);
    assert_eq!(c.delay_before(1, Some(1)), 1000);
    assert_eq!(c.delay_before(3, Some(0)), 0);
    assert_eq!(c.delay_before(1, Some(60)), 60_000);
    assert_eq!(c.delay_before(1, Some(u64::MAX)), u64::MAX as u128 * 1000);
}

#[test]
fn retries_are_counted() {
    let c = config(2, 10, 100, 2000);
    assert!(c.allows_retry(0));
    assert!(c.allows_retry(1));
    assert!(!c.allows_retry(2));
    assert!(!c.allows_retry(3));
    assert!(!config(0, 10, 100, 2000).allows_retry(0));
    assert!(config(u32::MAX, 10, 100, 2000).allows_retry(u32::MAX - 1));
    assert!(!config(u32::MAX, 10, 100, 2000).allows_retry(u32::MAX));
}

#[test]
fn retryable_statuses() {
    for status in [429u16, 502, 503, 504] {
        assert!(is_retryable_status(status));
    }
    for status in [100u16, 200, 204, 301, 400, 401, 403, 404, 428, 430, 500, 501, 505, 599] {
        assert!(!is_retryable_status(status));
    }
}
