//! Tests of the retry policy and of the decision taken after each attempt.

use allscreenshots_sdk::{
    with_retry, AllscreenshotsError, ErrorCode, HttpFailure, RetryConfig, RetryStep,
};

fn policy(initial: u32, max: u32, multiplier: u32, jitter: u32) -> RetryConfig {
    RetryConfig {
        max_retries: 3,
        initial_delay_ms: initial,
        max_delay_ms: max,
        multiplier_permille: multiplier,
        jitter_permille: jitter,
    }
}

#[test]
fn test_default_config() {
    let config = RetryConfig::default();
    assert_eq!(config.max_retries, 3);
    assert_eq!(config.initial_delay_ms, 500);
    assert_eq!(config.max_delay_ms, 30_000);
}

#[test]
fn test_delay_calculation() {
    let config = RetryConfig {
        max_retries: 3,
        initial_delay_ms: 1_000,
        max_delay_ms: 60_000,
        multiplier_permille: 2_000,
        jitter_permille: 0,
    };

    assert_eq!(config.delay_for_attempt(0), 0);
    assert_eq!(config.delay_for_attempt(1), 1_000);
    assert_eq!(config.delay_for_attempt(2), 2_000);
    assert_eq!(config.delay_for_attempt(3), 4_000);
}

#[test]
fn test_delay_capped_at_max() {
    let config = RetryConfig {
        max_retries: 10,
        initial_delay_ms: 10_000,
        max_delay_ms: 30_000,
        multiplier_permille: 2_000,
        jitter_permille: 0,
    };

    let delay = config.delay_for_attempt(5);
    assert!(delay <= 30_000);
}

#[test]
fn default_config_doubles_with_a_tenth_of_jitter() {
    let config = RetryConfig::default();
    assert_eq!(config.multiplier_permille, 2_000);
    assert_eq!(config.jitter_permille, 100);
    assert_eq!(config.base_delay_for_attempt(1), 500);
    assert_eq!(config.base_delay_for_attempt(2), 1_000);
    assert_eq!(config.base_delay_for_attempt(6), 16_000);
    assert_eq!(config.base_delay_for_attempt(7), 30_000);
}

#[test]
fn first_try_is_never_delayed() {
    for config in [
        RetryConfig::default(),
        policy(1_000, 60_000, 2_000, 0),
        policy(u32::MAX, u32::MAX, u32::MAX, u32::MAX),
        policy(0, 0, 0, 1_000),
        policy(7, 3, 1_500, 5_000),
    ] {
        for _ in 0..20 {
            assert_eq!(config.delay_for_attempt(0), 0);
        }
        assert_eq!(config.base_delay_for_attempt(0), 0);
    }
}

#[test]
fn without_jitter_the_delay_is_reproducible() {
    let config = policy(300, 20_000, 1_500, 0);
    for attempt in 0..40 {
        let first = config.delay_for_attempt(attempt);
        for _ in 0..5 {
            assert_eq!(config.delay_for_attempt(attempt), first);
        }
        assert_eq!(first, u64::from(config.base_delay_for_attempt(attempt)));
    }
}

#[test]
fn without_jitter_the_delay_never_shrinks_and_stops_at_the_maximum() {
    for config in [
        policy(1_000, 60_000, 2_000, 0),
        policy(300, 20_000, 1_500, 0),
        policy(1, 100, 1_010, 0),
        policy(50, 2_000, 1_010, 0),
        policy(1, 30_000, 1_999, 0),
        policy(500, 500, 3_000, 0),
        policy(900, 100, 2_000, 0),
        policy(5, 4_000_000_000, 4_000_000, 0),
    ] {
        let mut previous = 0;
        let mut saturated = false;
        for attempt in 0..500 {
            let delay = config.delay_for_attempt(attempt);
            assert!(delay >= previous);
            assert!(delay <= u64::from(config.max_delay_ms));
            if saturated {
                assert_eq!(delay, u64::from(config.max_delay_ms));
            }
            if attempt >= 1 && delay == u64::from(config.max_delay_ms) {
                saturated = true;
            }
            previous = delay;
        }
        // every one of these policies grows, so it has reached its maximum
        assert!(saturated);
    }
}

#[test]
fn whole_multipliers_give_powers() {
    let config = policy(3, 1_000_000, 3_000, 0);
    let expected = [0u32, 3, 9, 27, 81, 243, 729, 2_187, 6_561, 19_683, 59_049, 177_147, 531_441];
    for (attempt, delay) in expected.iter().enumerate() {
        assert_eq!(config.base_delay_for_attempt(attempt as u32), *delay);
    }
    assert_eq!(config.base_delay_for_attempt(13), 1_000_000);
    assert_eq!(config.base_delay_for_attempt(u32::MAX), 1_000_000);
}

#[test]
fn fractional_multipliers_round_down_once() {
    let config = policy(500, 30_000, 1_500, 0);
    assert_eq!(config.base_delay_for_attempt(1), 500);
    assert_eq!(config.base_delay_for_attempt(2), 750);
    assert_eq!(config.base_delay_for_attempt(3), 1_125);
    // 1687.5 ms
    assert_eq!(config.base_delay_for_attempt(4), 1_687);
    // 2531.25 ms
    assert_eq!(config.base_delay_for_attempt(5), 2_531);
    assert_eq!(config.base_delay_for_attempt(6), 3_796);
    assert_eq!(config.base_delay_for_attempt(7), 5_695);

    let config = policy(300, 20_000, 1_500, 0);
    let expected = [0u32, 300, 450, 675, 1_012, 1_518, 2_278, 3_417, 5_125, 7_688, 11_533, 17_299];
    for (attempt, delay) in expected.iter().enumerate() {
        assert_eq!(config.base_delay_for_attempt(attempt as u32), *delay);
    }
    assert_eq!(config.base_delay_for_attempt(12), 20_000);

    let config = policy(7, 100, 1_250, 0);
    let expected = [0u32, 7, 8, 10, 13, 17, 21, 26, 33, 41, 52, 65, 81, 100, 100];
    for (attempt, delay) in expected.iter().enumerate() {
        assert_eq!(config.base_delay_for_attempt(attempt as u32), *delay);
    }
}

#[test]
fn small_delays_grow_under_fractional_multipliers() {
    // 1 ms times 1.5 squared is 2.25 ms, which the maximum cuts to 2 ms
    let config = policy(1, 2, 1_500, 0);
    assert_eq!(config.delay_for_attempt(1), 1);
    assert_eq!(config.delay_for_attempt(2), 1);
    assert_eq!(config.delay_for_attempt(3), 2);
    assert_eq!(config.delay_for_attempt(4), 2);

    // one per cent more with each attempt
    let config = policy(50, 30_000, 1_010, 0);
    assert_eq!(config.delay_for_attempt(1), 50);
    assert_eq!(config.delay_for_attempt(2), 50);
    assert_eq!(config.delay_for_attempt(3), 51);
    assert_eq!(config.delay_for_attempt(10), 54);
    assert_eq!(config.delay_for_attempt(50), 81);
    assert_eq!(config.delay_for_attempt(100), 133);
    assert_eq!(config.delay_for_attempt(200), 362);
    assert_eq!(config.delay_for_attempt(644), 30_000);
    assert_eq!(config.delay_for_attempt(u32::MAX), 30_000);

    // just below doubling
    let config = policy(1, 30_000, 1_999, 0);
    let expected = [
        0u64, 1, 1, 3, 7, 15, 31, 63, 127, 254, 509, 1_018, 2_036, 4_071, 8_138, 16_269, 30_000,
        30_000,
    ];
    for (attempt, delay) in expected.iter().enumerate() {
        assert_eq!(config.delay_for_attempt(attempt as u32), *delay);
    }

    // a thousandth more with each attempt
    let config = policy(1, 1_000, 1_001, 0);
    assert_eq!(config.delay_for_attempt(693), 1);
    assert_eq!(config.delay_for_attempt(694), 1);
    assert_eq!(config.delay_for_attempt(695), 2);
    assert_eq!(config.delay_for_attempt(1_000), 2);
    assert_eq!(config.delay_for_attempt(6_912), 999);
    assert_eq!(config.delay_for_attempt(7_000), 1_000);
    assert_eq!(config.delay_for_attempt(4_000_000_000), 1_000);
}

#[test]
fn jitter_moves_around_the_exact_delay() {
    // backoff 2 ms at attempt 3; a tenth of it is less than a millisecond
    let config = policy(1, 2, 1_500, 100);
    for _ in 0..50 {
        assert_eq!(config.delay_for_attempt(3), 2);
    }
    // backoff 2531 ms at attempt 5, jitter range 253 ms
    let config = policy(500, 30_000, 1_500, 100);
    assert_eq!(config.delay_with_draw(5, 0), 2_278);
    assert_eq!(config.delay_with_draw(5, 253), 2_531);
    assert_eq!(config.delay_with_draw(5, 506), 2_784);
    for _ in 0..200 {
        assert!((2_278..=2_784).contains(&config.delay_for_attempt(5)));
    }
}

#[test]
fn multipliers_below_one_shrink_the_delay() {
    let config = policy(1_000, 30_000, 500, 0);
    assert_eq!(config.base_delay_for_attempt(1), 1_000);
    assert_eq!(config.base_delay_for_attempt(2), 500);
    assert_eq!(config.base_delay_for_attempt(3), 250);
    assert_eq!(config.base_delay_for_attempt(10), 1);
    assert_eq!(config.base_delay_for_attempt(11), 0);
    assert_eq!(config.base_delay_for_attempt(4_000_000_000), 0);
    let config = policy(1_000, 30_000, 0, 0);
    assert_eq!(config.base_delay_for_attempt(1), 1_000);
    assert_eq!(config.base_delay_for_attempt(2), 0);
    let config = policy(1_000, 30_000, 999, 0);
    assert_eq!(config.base_delay_for_attempt(2), 999);
    assert_eq!(config.base_delay_for_attempt(3), 998);
    assert_eq!(config.base_delay_for_attempt(100), 905);
    assert_eq!(config.base_delay_for_attempt(1_000), 368);
    assert_eq!(config.base_delay_for_attempt(6_905), 1);
    assert_eq!(config.base_delay_for_attempt(6_908), 0);
    assert_eq!(config.base_delay_for_attempt(u32::MAX), 0);
}

#[test]
fn the_maximum_is_applied_to_the_product_not_to_each_step() {
    // the product stays above the maximum for a long time, then falls below
    let config = policy(1_000, 10, 999, 0);
    assert_eq!(config.base_delay_for_attempt(1), 10);
    assert_eq!(config.base_delay_for_attempt(2), 10);
    assert_eq!(config.base_delay_for_attempt(4_000), 10);
    assert_eq!(config.base_delay_for_attempt(4_603), 10);
    assert_eq!(config.base_delay_for_attempt(4_610), 9);
}

#[test]
fn initial_delay_is_capped_too() {
    let config = policy(90_000, 30_000, 2_000, 0);
    assert_eq!(config.base_delay_for_attempt(1), 30_000);
    assert_eq!(config.base_delay_for_attempt(2), 30_000);
}

#[test]
fn extreme_policies_do_not_overflow() {
    let config = policy(u32::MAX, u32::MAX, u32::MAX, u32::MAX);
    assert_eq!(config.base_delay_for_attempt(u32::MAX), u32::MAX);
    let base = u64::from(u32::MAX);
    let range = base * base / 1_000;
    assert_eq!(config.delay_with_draw(5, 0), 0);
    assert_eq!(config.delay_with_draw(5, range), base);
    assert_eq!(config.delay_with_draw(5, 2 * range), base + range);
    for _ in 0..50 {
        assert!(config.delay_for_attempt(9) <= base + range);
    }
}

#[test]
fn a_draw_moves_the_delay_within_the_jitter_range() {
    let config = policy(1_000, 60_000, 2_000, 100);
    // attempt 3: backoff 4000 ms, jitter range 400 ms
    assert_eq!(config.delay_with_draw(3, 0), 3_600);
    assert_eq!(config.delay_with_draw(3, 400), 4_000);
    assert_eq!(config.delay_with_draw(3, 800), 4_400);
    assert_eq!(config.delay_with_draw(3, 1), 3_601);
    // attempt 0 has no range
    assert_eq!(config.delay_with_draw(0, 0), 0);
}

#[test]
fn a_delay_below_zero_becomes_zero() {
    let config = policy(1_000, 60_000, 2_000, 2_500);
    // attempt 1: backoff 1000 ms, jitter range 2500 ms
    assert_eq!(config.delay_with_draw(1, 0), 0);
    assert_eq!(config.delay_with_draw(1, 1_499), 0);
    assert_eq!(config.delay_with_draw(1, 1_500), 0);
    assert_eq!(config.delay_with_draw(1, 1_501), 1);
    assert_eq!(config.delay_with_draw(1, 5_000), 3_500);
}

#[test]
fn jittered_delays_stay_in_range_and_vary() {
    let config = policy(1_000, 60_000, 2_000, 100);
    let mut below_top = false;
    let mut distinct = std::collections::BTreeSet::new();
    for _ in 0..400 {
        let delay = config.delay_for_attempt(3);
        assert!((3_600..=4_400).contains(&delay));
        if delay < 4_400 {
            below_top = true;
        }
        distinct.insert(delay);
    }
    assert!(below_top);
    assert!(distinct.len() > 1);
}

fn unavailable() -> AllscreenshotsError {
    AllscreenshotsError::ApiError {
        code: ErrorCode::Unknown("UNKNOWN".to_string()),
        message: "HTTP 503 error".to_string(),
        status: 503,
    }
}

fn not_found() -> AllscreenshotsError {
    AllscreenshotsError::ApiError {
        code: ErrorCode::NotFound,
        message: "no such job".to_string(),
        status: 404,
    }
}

#[test]
fn a_success_ends_the_operation() {
    let config = RetryConfig::default();
    for attempt in [0, 1, 3, 100] {
        match with_retry(&config, attempt, Ok::<u8, AllscreenshotsError>(7)) {
            RetryStep::Finished(Ok(value)) => assert_eq!(value, 7),
            other => panic!("unexpected step {:?}", other),
        }
    }
}

#[test]
fn a_permanent_error_ends_the_operation_with_that_error() {
    let config = RetryConfig::default();
    for attempt in [0, 2, 3] {
        match with_retry(&config, attempt, Err::<u8, AllscreenshotsError>(not_found())) {
            RetryStep::Finished(Err(error)) => assert_eq!(error, not_found()),
            other => panic!("unexpected step {:?}", other),
        }
    }
    let decode = AllscreenshotsError::JsonError("expected value at line 1".to_string());
    match with_retry(&config, 0, Err::<u8, AllscreenshotsError>(decode.clone())) {
        RetryStep::Finished(Err(error)) => assert_eq!(error, decode),
        other => panic!("unexpected step {:?}", other),
    }
}

#[test]
fn a_retryable_error_leads_to_the_next_attempt() {
    let config = policy(1_000, 60_000, 2_000, 0);
    match with_retry(&config, 0, Err::<u8, AllscreenshotsError>(unavailable())) {
        RetryStep::Retry { attempt, delay_ms } => {
            assert_eq!(attempt, 1);
            assert_eq!(delay_ms, 1_000);
        }
        other => panic!("unexpected step {:?}", other),
    }
    match with_retry(&config, 2, Err::<u8, AllscreenshotsError>(AllscreenshotsError::Timeout)) {
        RetryStep::Retry { attempt, delay_ms } => {
            assert_eq!(attempt, 3);
            assert_eq!(delay_ms, 4_000);
        }
        other => panic!("unexpected step {:?}", other),
    }
}

#[test]
fn a_retryable_error_on_the_last_attempt_exhausts_the_retries() {
    let config = policy(1_000, 60_000, 2_000, 0);
    match with_retry(&config, 3, Err::<u8, AllscreenshotsError>(unavailable())) {
        RetryStep::Finished(Err(AllscreenshotsError::RetriesExhausted(text))) => {
            assert_eq!(text, "API error (UNKNOWN): HTTP 503 error");
        }
        other => panic!("unexpected step {:?}", other),
    }
    let failure = HttpFailure { timeout: true, connect: false, message: "timed out".to_string() };
    let error = AllscreenshotsError::HttpError(failure);
    match with_retry(&config, 3, Err::<u8, AllscreenshotsError>(error)) {
        RetryStep::Finished(Err(exhausted)) => {
            assert_eq!(
                exhausted.to_string(),
                "All retries exhausted: HTTP error: timed out"
            );
            assert!(!exhausted.is_retryable());
        }
        other => panic!("unexpected step {:?}", other),
    }
}

#[test]
fn without_retries_the_first_failure_is_final() {
    let config = RetryConfig { max_retries: 0, ..RetryConfig::default() };
    match with_retry(&config, 0, Err::<u8, AllscreenshotsError>(unavailable())) {
        RetryStep::Finished(Err(AllscreenshotsError::RetriesExhausted(_))) => {}
        other => panic!("unexpected step {:?}", other),
    }
    match with_retry(&config, 0, Err::<u8, AllscreenshotsError>(not_found())) {
        RetryStep::Finished(Err(error)) => assert_eq!(error, not_found()),
        other => panic!("unexpected step {:?}", other),
    }
}

/// Runs the retry loop over a list of outcomes and returns the result, the
/// number of attempts made and the delays waited.
fn run(
    config: &RetryConfig,
    outcomes: Vec<Result<u8, AllscreenshotsError>>,
) -> (Result<u8, AllscreenshotsError>, usize, Vec<u64>) {
    let mut attempt = 0;
    let mut attempts = 0;
    let mut waits = Vec::new();
    for outcome in outcomes {
        attempts += 1;
        match with_retry(config, attempt, outcome) {
            RetryStep::Finished(result) => return (result, attempts, waits),
            RetryStep::Retry { attempt: next, delay_ms } => {
                assert_eq!(next, attempt + 1);
                waits.push(delay_ms);
                attempt = next;
            }
        }
    }
    panic!("the operation did not finish within the outcomes given");
}

#[test]
fn an_operation_makes_at_most_one_attempt_more_than_its_retries() {
    for retries in [0u32, 1, 2, 5, 9] {
        let config = RetryConfig {
            max_retries: retries,
            initial_delay_ms: 10,
            max_delay_ms: 1_000,
            multiplier_permille: 2_000,
            jitter_permille: 0,
        };
        let outcomes = (0..50).map(|_| Err(unavailable())).collect();
        let (result, attempts, waits) = run(&config, outcomes);
        assert_eq!(attempts, retries as usize + 1);
        assert_eq!(waits.len(), retries as usize);
        match result {
            Err(AllscreenshotsError::RetriesExhausted(text)) => {
                assert_eq!(text, unavailable().to_string());
            }
            other => panic!("unexpected result {:?}", other),
        }
    }
}

#[test]
fn exhaustion_reports_the_last_error() {
    let config = policy(1, 10, 2_000, 0);
    let outcomes = vec![
        Err(unavailable()),
        Err(AllscreenshotsError::Timeout),
        Err(unavailable()),
        Err(AllscreenshotsError::Timeout),
    ];
    let (result, attempts, waits) = run(&config, outcomes);
    assert_eq!(attempts, 4);
    assert_eq!(waits, vec![1, 2, 4]);
    assert_eq!(
        result,
        Err(AllscreenshotsError::RetriesExhausted("Request timeout".to_string()))
    );
}

#[test]
fn a_permanent_error_stops_the_retries() {
    let config = policy(1, 10, 2_000, 0);
    let outcomes = vec![Err(unavailable()), Err(not_found()), Ok(1)];
    let (result, attempts, waits) = run(&config, outcomes);
    assert_eq!(attempts, 2);
    assert_eq!(waits, vec![1]);
    assert_eq!(result, Err(not_found()));
}

#[test]
fn a_late_success_is_the_result() {
    let config = policy(1, 10, 2_000, 0);
    let outcomes = vec![Err(unavailable()), Err(unavailable()), Err(unavailable()), Ok(9)];
    let (result, attempts, waits) = run(&config, outcomes);
    assert_eq!(attempts, 4);
    assert_eq!(waits, vec![1, 2, 4]);
    assert_eq!(result, Ok(9));
}

#[test]
fn an_attempt_beyond_the_budget_is_treated_as_the_last() {
    let config = policy(1, 10, 2_000, 0);
    match with_retry(&config, 7, Err::<u8, AllscreenshotsError>(unavailable())) {
        RetryStep::Finished(Err(AllscreenshotsError::RetriesExhausted(_))) => {}
        other => panic!("unexpected step {:?}", other),
    }
    match with_retry(&config, u32::MAX, Err::<u8, AllscreenshotsError>(unavailable())) {
        RetryStep::Finished(Err(AllscreenshotsError::RetriesExhausted(_))) => {}
        other => panic!("unexpected step {:?}", other),
    }
}

#[test]
fn the_last_retry_of_a_large_budget_does_not_overflow() {
    let config = RetryConfig {
        max_retries: u32::MAX,
        initial_delay_ms: 1,
        max_delay_ms: 5,
        multiplier_permille: 2_000,
        jitter_permille: 0,
    };
    match with_retry(&config, u32::MAX - 1, Err::<u8, AllscreenshotsError>(unavailable())) {
        RetryStep::Retry { attempt, delay_ms } => {
            assert_eq!(attempt, u32::MAX);
            assert_eq!(delay_ms, 5);
        }
        other => panic!("unexpected step {:?}", other),
    }
    match with_retry(&config, u32::MAX, Err::<u8, AllscreenshotsError>(unavailable())) {
        RetryStep::Finished(Err(AllscreenshotsError::RetriesExhausted(_))) => {}
        other => panic!("unexpected step {:?}", other),
    }
}
