use shared::application::retries::{
    calculate_delay, publisher_retry_policy, repository_retry_policy, ExponentialBackoff,
    FixedBackoff, Jitter, LinearBackoff, NoBackoff, Retry, RetryDecision, RetryPolicy, RetryRun,
    RetryStrategyAction,
};

#[test]
fn test_with_full_jitter() {
    let policy = RetryPolicy::ExponentialBackoff(ExponentialBackoff {
        retries: Retry::NTimes(4),
        delay: 100,
        base: Some(2),
        max_delay: 1000,
        jitter: Some(Jitter::Full),
    });

    assert!(calculate_delay(&100, &0, &policy) < 100);
    assert!(calculate_delay(&100, &1, &policy) < 200);
    assert!(calculate_delay(&100, &2, &policy) < 400);
    assert!(calculate_delay(&100, &3, &policy) < 800);
    // limit to max_delay
    assert!(calculate_delay(&100, &4, &policy) < 1000);
}

#[test]
fn test_without_full_jitter() {
    let policy = RetryPolicy::ExponentialBackoff(ExponentialBackoff {
        retries: Retry::NTimes(4),
        delay: 100,
        base: Some(2),
        max_delay: 1000,
        jitter: None,
    });

    assert_eq!(calculate_delay(&100, &0, &policy), 100);
    assert_eq!(calculate_delay(&100, &1, &policy), 200);
    assert_eq!(calculate_delay(&100, &2, &policy), 400);
    assert_eq!(calculate_delay(&100, &3, &policy), 800);
    // limit to max_delay
    assert_eq!(calculate_delay(&100, &4, &policy), 1000);
}

#[test]
fn test() {
    let policy = RetryPolicy::NoBackoff(NoBackoff { retries: Retry::NTimes(4) });

    assert_eq!(calculate_delay(&100, &1, &policy), 0);
    assert_eq!(calculate_delay(&100, &2, &policy), 0);
    assert_eq!(calculate_delay(&100, &3, &policy), 0);
}

#[test]
fn fixed_backoff_test() {
    let policy = RetryPolicy::FixedBackoff(FixedBackoff { retries: Retry::NTimes(4), delay: 100 });

    assert_eq!(calculate_delay(&100, &1, &policy), 100);
    assert_eq!(calculate_delay(&100, &2, &policy), 100);
    assert_eq!(calculate_delay(&100, &3, &policy), 100);
}

#[test]
fn linear_backoff_test() {
    let policy = RetryPolicy::LinearBackoff(LinearBackoff { retries: Retry::NTimes(4), delay: 100 });

    assert_eq!(calculate_delay(&100, &0, &policy), 100);
    assert_eq!(calculate_delay(&100, &1, &policy), 200);
    assert_eq!(calculate_delay(&100, &2, &policy), 300);
    assert_eq!(calculate_delay(&100, &3, &policy), 400);
}

#[test]
fn exponential_backoff_without_base_doubles() {
    let policy = RetryPolicy::ExponentialBackoff(ExponentialBackoff {
        retries: Retry::NTimes(3),
        delay: 10,
        base: None,
        max_delay: 1000,
        jitter: None,
    });
    assert_eq!(calculate_delay(&10, &0, &policy), 10);
    assert_eq!(calculate_delay(&10, &3, &policy), 80);
}

#[test]
fn exponential_backoff_never_overflows_and_caps() {
    let policy = RetryPolicy::ExponentialBackoff(ExponentialBackoff {
        retries: Retry::NTimes(3),
        delay: u64::MAX / 2,
        base: Some(u64::MAX),
        max_delay: 1234,
        jitter: None,
    });
    assert_eq!(calculate_delay(&(u64::MAX / 2), &60, &policy), 1234);
}

#[test]
fn jitter_on_a_zero_ceiling_waits_nothing() {
    let policy = RetryPolicy::ExponentialBackoff(ExponentialBackoff {
        retries: Retry::NTimes(3),
        delay: 0,
        base: Some(2),
        max_delay: 1000,
        jitter: Some(Jitter::Full),
    });
    assert_eq!(calculate_delay(&0, &2, &policy), 0);
}

#[test]
fn linear_backoff_saturates() {
    let policy = RetryPolicy::LinearBackoff(LinearBackoff { retries: Retry::NTimes(4), delay: u64::MAX });
    assert_eq!(calculate_delay(&u64::MAX, &1, &policy), u64::MAX);
}

#[test]
fn service_policies() {
    assert_eq!(
        repository_retry_policy(),
        RetryPolicy::FixedBackoff(FixedBackoff { retries: Retry::NTimes(3), delay: 50 })
    );
    assert_eq!(
        publisher_retry_policy(),
        RetryPolicy::ExponentialBackoff(ExponentialBackoff {
            retries: Retry::NTimes(3),
            delay: 50,
            base: Some(2),
            max_delay: 500,
            jitter: Some(Jitter::Full),
        })
    );
}

// A run allowed five retries, failing three times before it succeeds, waits
// 100, 800 and 1000 milliseconds (base eight, capped at 1000) and makes four
// attempts in all.
#[test]
fn run_with_exponential_backoff_waits_the_policy_delays() {
    let policy = RetryPolicy::ExponentialBackoff(ExponentialBackoff {
        retries: Retry::NTimes(5),
        delay: 100,
        base: Some(8),
        max_delay: 1000,
        jitter: None,
    });
    let mut run = RetryRun::new(policy);
    assert_eq!(run.record_failure(RetryStrategyAction::ContinueRetries), RetryDecision::RetryAfter(100));
    assert_eq!(run.record_failure(RetryStrategyAction::ContinueRetries), RetryDecision::RetryAfter(800));
    assert_eq!(run.record_failure(RetryStrategyAction::ContinueRetries), RetryDecision::RetryAfter(1000));
    assert_eq!(run.failures(), 3);
}

// With three retries a run makes four attempts: the fourth failure ends it.
#[test]
fn run_gives_up_after_its_retries() {
    let mut run = RetryRun::new(RetryPolicy::FixedBackoff(FixedBackoff {
        retries: Retry::NTimes(3),
        delay: 100,
    }));
    for _ in 0..3 {
        assert_eq!(run.record_failure(RetryStrategyAction::ContinueRetries), RetryDecision::RetryAfter(100));
    }
    assert_eq!(run.record_failure(RetryStrategyAction::ContinueRetries), RetryDecision::GiveUp);
    assert_eq!(run.failures(), 4);
}

#[test]
fn run_with_no_retries_gives_up_at_once() {
    let mut run = RetryRun::new(RetryPolicy::NoBackoff(NoBackoff { retries: Retry::NTimes(0) }));
    assert_eq!(run.record_failure(RetryStrategyAction::ContinueRetries), RetryDecision::GiveUp);
}

#[test]
fn run_returns_result_when_classifier_says_so() {
    let mut run = RetryRun::new(RetryPolicy::LinearBackoff(LinearBackoff {
        retries: Retry::NTimes(3),
        delay: 100,
    }));
    assert_eq!(run.record_failure(RetryStrategyAction::ContinueRetries), RetryDecision::RetryAfter(100));
    assert_eq!(run.record_failure(RetryStrategyAction::ContinueRetries), RetryDecision::RetryAfter(200));
    assert_eq!(run.record_failure(RetryStrategyAction::ReturnResult), RetryDecision::GiveUp);
}
