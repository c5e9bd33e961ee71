use otlp_logs_exporter::error::Error;
use otlp_logs_exporter::retry::{
    backoff_delay, classify_status, next_decision, run_retries, status_code_from_number,
    AttemptOutcome, RetryDecision, RetryErrorType, RetryPolicy, StatusCode,
};

fn test_policy() -> RetryPolicy {
    RetryPolicy { max_retries: 3, initial_delay_ms: 100, max_delay_ms: 1600, jitter_ms: 100 }
}

#[test]
fn default_policy_matches_documented_values() {
    let policy = RetryPolicy::default();
    assert_eq!(policy.max_retries, 3);
    assert_eq!(policy.initial_delay_ms, 100);
    assert_eq!(policy.max_delay_ms, 1600);
    assert_eq!(policy.jitter_ms, 100);
}

#[test]
fn classify_maps_every_code_per_table() {
    let retryable = [
        StatusCode::Unavailable,
        StatusCode::DeadlineExceeded,
        StatusCode::Cancelled,
        StatusCode::OutOfRange,
        StatusCode::DataLoss,
    ];
    let non_retryable = [
        StatusCode::Okay,
        StatusCode::Unknown,
        StatusCode::InvalidArgument,
        StatusCode::NotFound,
        StatusCode::AlreadyExists,
        StatusCode::PermissionDenied,
        StatusCode::ResourceExhausted,
        StatusCode::FailedPrecondition,
        StatusCode::Aborted,
        StatusCode::Unimplemented,
        StatusCode::Internal,
        StatusCode::Unauthenticated,
    ];
    for code in retryable {
        assert_eq!(classify_status(code), RetryErrorType::Retryable);
    }
    for code in non_retryable {
        assert_eq!(classify_status(code), RetryErrorType::NonRetryable);
    }
}

#[test]
fn numeric_codes_decode_per_grpc_numbering() {
    assert_eq!(status_code_from_number(0), StatusCode::Okay);
    assert_eq!(status_code_from_number(4), StatusCode::DeadlineExceeded);
    assert_eq!(status_code_from_number(8), StatusCode::ResourceExhausted);
    assert_eq!(status_code_from_number(14), StatusCode::Unavailable);
    assert_eq!(status_code_from_number(16), StatusCode::Unauthenticated);
    // Numbers outside the documented space decode conservatively.
    assert_eq!(status_code_from_number(17), StatusCode::Unknown);
    assert_eq!(status_code_from_number(-1), StatusCode::Unknown);
}

#[test]
fn backoff_doubles_then_saturates() {
    let policy = test_policy();
    assert_eq!(backoff_delay(&policy, 0, 0), 100);
    assert_eq!(backoff_delay(&policy, 1, 0), 200);
    assert_eq!(backoff_delay(&policy, 2, 0), 400);
    assert_eq!(backoff_delay(&policy, 3, 0), 800);
    assert_eq!(backoff_delay(&policy, 4, 0), 1600);
    assert_eq!(backoff_delay(&policy, 5, 0), 1600);
    assert_eq!(backoff_delay(&policy, 63, 0), 1600);
}

#[test]
fn backoff_adds_jitter_after_capping() {
    let policy = test_policy();
    assert_eq!(backoff_delay(&policy, 0, 37), 137);
    assert_eq!(backoff_delay(&policy, 9, 100), 1700);
}

#[test]
fn backoff_caps_initial_delay_above_maximum() {
    let policy =
        RetryPolicy { max_retries: 3, initial_delay_ms: 5000, max_delay_ms: 1600, jitter_ms: 0 };
    assert_eq!(backoff_delay(&policy, 0, 0), 1600);
    assert_eq!(backoff_delay(&policy, 1, 0), 1600);
}

#[test]
fn backoff_never_exceeds_maximum_plus_jitter() {
    let policy = test_policy();
    for attempt in 0..20u32 {
        let delay = backoff_delay(&policy, attempt, policy.jitter_ms);
        assert!(delay <= policy.max_delay_ms + policy.jitter_ms);
    }
}

#[test]
fn backoff_is_non_decreasing_with_jittered_sampling() {
    let policy = test_policy();
    let mut previous: u64 = 0;
    for attempt in 0..20u32 {
        let base = backoff_delay(&policy, attempt, 0);
        assert!(base >= previous);
        previous = base;
    }
}

#[test]
fn non_retryable_failure_makes_exactly_one_attempt() {
    let policy = test_policy();
    let outcomes = vec![AttemptOutcome::Failure(StatusCode::InvalidArgument); 4];
    let jitters = vec![0u64; 4];
    let run = run_retries(&policy, &outcomes, &jitters);
    assert_eq!(run.attempts, 1);
    assert_eq!(run.delays, Vec::<u64>::new());
    assert_eq!(run.result, Err(Error::NonRetryable(StatusCode::InvalidArgument)));
}

#[test]
fn retryable_failures_exhaust_budget_after_four_attempts() {
    let policy = test_policy();
    let outcomes = vec![AttemptOutcome::Failure(StatusCode::Unavailable); 4];
    let jitters = vec![7u64; 4];
    let run = run_retries(&policy, &outcomes, &jitters);
    assert_eq!(run.attempts, 4);
    // One sleep per non-final attempt, each per the backoff schedule.
    assert_eq!(run.delays, vec![107, 207, 407]);
    assert_eq!(run.result, Err(Error::RetriesExhausted(StatusCode::Unavailable)));
}

#[test]
fn success_after_two_retryable_failures_takes_three_attempts() {
    let policy = test_policy();
    let outcomes = vec![
        AttemptOutcome::Failure(StatusCode::DeadlineExceeded),
        AttemptOutcome::Failure(StatusCode::Unavailable),
        AttemptOutcome::Success,
        AttemptOutcome::Success,
    ];
    let jitters = vec![0u64; 4];
    let run = run_retries(&policy, &outcomes, &jitters);
    assert_eq!(run.attempts, 3);
    assert_eq!(run.delays, vec![100, 200]);
    assert_eq!(run.result, Ok(()));
}

#[test]
fn immediate_success_makes_one_attempt() {
    let policy = test_policy();
    let outcomes = vec![AttemptOutcome::Success; 4];
    let jitters = vec![0u64; 4];
    let run = run_retries(&policy, &outcomes, &jitters);
    assert_eq!(run.attempts, 1);
    assert_eq!(run.result, Ok(()));
}

#[test]
fn zero_retries_budget_fails_on_first_retryable_failure() {
    let policy =
        RetryPolicy { max_retries: 0, initial_delay_ms: 100, max_delay_ms: 1600, jitter_ms: 0 };
    let outcomes = vec![AttemptOutcome::Failure(StatusCode::Unavailable)];
    let jitters = vec![0u64];
    let run = run_retries(&policy, &outcomes, &jitters);
    assert_eq!(run.attempts, 1);
    assert_eq!(run.result, Err(Error::RetriesExhausted(StatusCode::Unavailable)));
}

#[test]
fn decision_succeeds_on_success() {
    let policy = test_policy();
    let decision = next_decision(&policy, 0, &AttemptOutcome::Success);
    assert_eq!(decision, RetryDecision::Succeed);
}

#[test]
fn decision_fails_fast_on_non_retryable_failure() {
    let policy = test_policy();
    let decision = next_decision(&policy, 0, &AttemptOutcome::Failure(StatusCode::Internal));
    assert_eq!(decision, RetryDecision::Fail(Error::NonRetryable(StatusCode::Internal)));
}

#[test]
fn decision_waits_within_jitter_bound_on_retryable_failure() {
    let policy = test_policy();
    for _ in 0..50 {
        let decision = next_decision(&policy, 1, &AttemptOutcome::Failure(StatusCode::Unavailable));
        match decision {
            RetryDecision::RetryAfter(delay) => {
                assert!((200..=300).contains(&delay));
            }
            other => panic!("expected a retry, got {other:?}"),
        }
    }
}

#[test]
fn decision_without_jitter_is_the_exact_schedule() {
    let policy =
        RetryPolicy { max_retries: 3, initial_delay_ms: 100, max_delay_ms: 1600, jitter_ms: 0 };
    let decision = next_decision(&policy, 2, &AttemptOutcome::Failure(StatusCode::Cancelled));
    assert_eq!(decision, RetryDecision::RetryAfter(400));
}

#[test]
fn decision_surfaces_last_failure_when_budget_spent() {
    let policy = test_policy();
    let decision = next_decision(&policy, 3, &AttemptOutcome::Failure(StatusCode::DataLoss));
    assert_eq!(decision, RetryDecision::Fail(Error::RetriesExhausted(StatusCode::DataLoss)));
}
