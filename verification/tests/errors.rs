use shared::application::ports::errors::{CommonRepositoryError, InfrastructureError};
use shared::application::retries::{
    FixedBackoff, Retry, RetryDecision, RetryPolicy, RetryRun, RetryStrategyAction,
};

#[test]
fn internal_errors_carry_fresh_version_seven_ids() {
    let a = InfrastructureError::new_internal();
    let b = InfrastructureError::new_internal();
    assert_eq!((a.error_id() >> 76) & 0xf, 7);
    assert_ne!(a.error_id(), b.error_id());
    let c = CommonRepositoryError::new_internal();
    assert!(matches!(c, CommonRepositoryError::InternalError { .. }));
    assert_eq!((c.error_id() >> 76) & 0xf, 7);
}

#[test]
fn a_transient_repository_error_is_built_as_an_internal_one() {
    let e = CommonRepositoryError::new_transient();
    assert!(matches!(e, CommonRepositoryError::InternalError { .. }));
    let t = CommonRepositoryError::Transient { error_id: 9, reason: "busy".into(), retry_after_millis: Some(5) };
    assert_eq!(t.error_id(), 9);
    let t = InfrastructureError::Transient { error_id: 8, reason: "busy".into(), retry_after_millis: None };
    assert_eq!(t.error_id(), 8);
}

#[test]
fn a_run_that_gave_up_stays_given_up() {
    let mut run = RetryRun::new(RetryPolicy::FixedBackoff(FixedBackoff { retries: Retry::NTimes(1), delay: 5 }));
    assert_eq!(run.record_failure(RetryStrategyAction::ContinueRetries), RetryDecision::RetryAfter(5));
    assert_eq!(run.record_failure(RetryStrategyAction::ContinueRetries), RetryDecision::GiveUp);
    assert_eq!(run.record_failure(RetryStrategyAction::ContinueRetries), RetryDecision::GiveUp);
    assert_eq!(run.failures(), 2);
}
