use runner_agent::retry::{capped, jittered_delay, RetryPolicy, RetryStep};

#[test]
fn new_policy_has_default_delays() {
    let policy = RetryPolicy::new(3);
    assert_eq!(policy.max_retries(), 3);
    assert_eq!(policy.initial_delay(), 100);
    assert_eq!(policy.max_delay(), 30000);
}

#[test]
fn default_policy_allows_three_attempts() {
    let policy = RetryPolicy::default();
    assert_eq!(policy, RetryPolicy::new(3));
}

#[test]
fn with_delays_keeps_what_it_is_given() {
    let policy = RetryPolicy::with_delays(5, 20, 400);
    assert_eq!(policy.max_retries(), 5);
    assert_eq!(policy.initial_delay(), 20);
    assert_eq!(policy.max_delay(), 400);
}

#[test]
fn a_run_allows_one_retry_less_than_attempts() {
    assert_eq!(RetryPolicy::new(3).begin().retries_left(), 2);
    assert_eq!(RetryPolicy::new(1).begin().retries_left(), 0);
    assert_eq!(RetryPolicy::new(0).begin().retries_left(), 0);
}

#[test]
fn pauses_grow_by_powers_of_the_initial_delay() {
    assert_eq!(RetryPolicy::with_delays(4, 2, 1000).begin().ceilings(), vec![2, 4, 8]);
    assert_eq!(RetryPolicy::with_delays(4, 10, 100000).begin().ceilings(), vec![10, 100, 1000]);
}

#[test]
fn pauses_stop_growing_at_the_longest_delay() {
    assert_eq!(RetryPolicy::with_delays(5, 2, 4).begin().ceilings(), vec![2, 4, 4, 4]);
    assert_eq!(RetryPolicy::with_delays(3, 20, 10).begin().ceilings(), vec![10, 10]);
    assert_eq!(RetryPolicy::new(4).begin().ceilings(), vec![100, 10000, 30000]);
}

#[test]
fn pauses_saturate_at_the_largest_number() {
    let policy = RetryPolicy::with_delays(4, u64::MAX - 1, u64::MAX);
    assert_eq!(policy.begin().ceilings(), vec![u64::MAX - 1, u64::MAX, u64::MAX]);
}

#[test]
fn a_single_attempt_has_no_pause() {
    assert_eq!(RetryPolicy::new(1).begin().ceilings(), Vec::<u64>::new());
    assert_eq!(RetryPolicy::new(0).begin().ceilings(), Vec::<u64>::new());
}

#[test]
fn jitter_never_lengthens_a_delay() {
    for ceiling in [0u64, 1, 7, 100, 30000, 86_400_000] {
        for _ in 0..50 {
            assert!(jittered_delay(ceiling) <= ceiling);
        }
    }
}

#[test]
fn jitter_spreads_delays() {
    let mut seen = Vec::new();
    for _ in 0..200 {
        let delay = jittered_delay(1_000_000);
        if !seen.contains(&delay) {
            seen.push(delay);
        }
    }
    assert!(seen.len() > 1);
}

#[test]
fn success_on_third_attempt_is_returned() {
    let mut run = RetryPolicy::with_delays(3, 2, 1000).begin();
    let first: RetryStep<u32, String> = run.record(Err("one".to_string()));
    assert!(matches!(first, RetryStep::Wait(ms) if ms <= 2));
    let second: RetryStep<u32, String> = run.record(Err("two".to_string()));
    assert!(matches!(second, RetryStep::Wait(ms) if ms <= 4));
    let third: RetryStep<u32, String> = run.record(Ok(7));
    assert!(matches!(third, RetryStep::Finished(Ok(7))));
}

#[test]
fn success_on_first_attempt_uses_no_retry() {
    let mut run = RetryPolicy::new(3).begin();
    let step: RetryStep<&str, String> = run.record(Ok("done"));
    assert!(matches!(step, RetryStep::Finished(Ok("done"))));
    assert_eq!(run.retries_left(), 2);
}

#[test]
fn last_error_comes_back_after_max_attempts() {
    let mut run = RetryPolicy::with_delays(3, 2, 1000).begin();
    let mut attempts = 0;
    let mut last = None;
    for text in ["one", "two", "three", "four"] {
        attempts += 1;
        let step: RetryStep<u32, String> = run.record(Err(text.to_string()));
        if let RetryStep::Finished(result) = step {
            last = Some(result);
            break;
        }
    }
    assert_eq!(attempts, 3);
    assert_eq!(last, Some(Err("three".to_string())));
}

#[test]
fn zero_retries_still_attempts_once() {
    let mut run = RetryPolicy::new(0).begin();
    let step: RetryStep<u32, String> = run.record(Err("only".to_string()));
    match step {
        RetryStep::Finished(Err(error)) => assert_eq!(error, "only"),
        other => panic!("unexpected step: {:?}", other),
    }
}

#[test]
fn next_delay_is_none_when_no_retry_is_left() {
    let mut run = RetryPolicy::with_delays(2, 5, 50).begin();
    let first = run.next_delay();
    assert!(matches!(first, Some(ms) if ms <= 5));
    assert_eq!(run.next_delay(), None);
    assert_eq!(run.next_delay(), None);
}

#[test]
fn execute_returns_the_success_of_the_third_attempt() {
    let calls = std::cell::Cell::new(0usize);
    let pauses = std::cell::RefCell::new(Vec::new());
    let policy = RetryPolicy::with_delays(3, 2, 1000);
    let result: Result<usize, String> = policy.execute(
        |attempt| {
            calls.set(calls.get() + 1);
            if attempt < 3 {
                Err(format!("attempt {} failed", attempt))
            } else {
                Ok(attempt * 10)
            }
        },
        |ms| pauses.borrow_mut().push(ms),
    );
    assert_eq!(result, Ok(30));
    assert_eq!(calls.get(), 3);
    let pauses = pauses.into_inner();
    assert_eq!(pauses.len(), 2);
    assert!(pauses[0] <= 2);
    assert!(pauses[1] <= 4);
}

#[test]
fn execute_returns_the_last_error_after_max_attempts() {
    let calls = std::cell::Cell::new(0usize);
    let result: Result<u32, String> = RetryPolicy::new(4).execute(
        |attempt| {
            calls.set(calls.get() + 1);
            Err(format!("attempt {} failed", attempt))
        },
        |_ms| {},
    );
    assert_eq!(result, Err("attempt 4 failed".to_string()));
    assert_eq!(calls.get(), 4);
}

#[test]
fn execute_does_not_pause_after_a_first_success() {
    let pauses = std::cell::Cell::new(0usize);
    let result: Result<&str, String> =
        RetryPolicy::default().execute(|_attempt| Ok("done"), |_ms| pauses.set(pauses.get() + 1));
    assert_eq!(result, Ok("done"));
    assert_eq!(pauses.get(), 0);
}

#[test]
fn execute_with_zero_retries_attempts_once() {
    let calls = std::cell::Cell::new(0usize);
    let result: Result<u32, &str> = RetryPolicy::new(0).execute(
        |_attempt| {
            calls.set(calls.get() + 1);
            Err("failed")
        },
        |_ms| {},
    );
    assert_eq!(result, Err("failed"));
    assert_eq!(calls.get(), 1);
}

#[test]
fn final_failure_gets_no_pause() {
    let mut run = RetryPolicy::with_delays(3, 5, 50).begin();
    assert_eq!(run.next_delay_if(false), None);
    assert_eq!(run.retries_left(), 2);
    assert!(matches!(run.next_delay_if(true), Some(ms) if ms <= 5));
    assert_eq!(run.retries_left(), 1);
}

#[test]
fn a_drawn_delay_is_kept_within_its_ceiling() {
    assert_eq!(capped(0, 100), 0);
    assert_eq!(capped(37, 100), 37);
    assert_eq!(capped(100, 100), 100);
    assert_eq!(capped(101, 100), 100);
    assert_eq!(capped(u64::MAX, 0), 0);
}

#[test]
fn execute_never_pauses_longer_than_the_longest_delay() {
    let longest = std::cell::Cell::new(0u64);
    let result: Result<u32, &str> = RetryPolicy::with_delays(6, 50, 120).execute(
        |_attempt| Err("failed"),
        |ms| {
            assert!(ms <= 120);
            longest.set(longest.get().max(ms));
        },
    );
    assert_eq!(result, Err("failed"));
    assert!(longest.get() <= 120);
}
