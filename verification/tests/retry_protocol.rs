//! Scenario tests of the retry orchestration, replayed over recorded
//! attempt outcomes.

use reqwew::error::Error;
use reqwew::retry::{FailurePlan, RetryPolicy, after_failure, drive};

fn policy(retries: u32) -> RetryPolicy {
    RetryPolicy { retries, retry_delay_ms: 50 }
}

#[test]
fn zero_budget_performs_no_dispatch() {
    let outcomes: Vec<bool> = vec![];
    let report = drive(policy(0), true, &outcomes);
    assert_eq!(report.dispatched, 0);
    assert_eq!(report.backoffs, 0);
    assert!(matches!(report.outcome, Err(Error::ExceededMaxRetries(0))));
}

#[test]
fn first_attempt_success_dispatches_once() {
    let outcomes = vec![true, true, true];
    let report = drive(policy(3), true, &outcomes);
    assert_eq!(report.outcome.unwrap(), 1);
    assert_eq!(report.dispatched, 1);
    assert_eq!(report.backoffs, 0);
}

#[test]
fn success_on_final_attempt_dispatches_whole_budget() {
    let outcomes = vec![false, false, true];
    let report = drive(policy(3), true, &outcomes);
    assert_eq!(report.outcome.unwrap(), 3);
    assert_eq!(report.dispatched, 3);
    assert_eq!(report.backoffs, 2);
}

#[test]
fn all_attempts_failing_exhausts_budget() {
    let outcomes = vec![false, false, false];
    let report = drive(policy(3), true, &outcomes);
    assert!(matches!(report.outcome, Err(Error::ExceededMaxRetries(3))));
    assert_eq!(report.dispatched, 3);
    assert_eq!(report.backoffs, 2);
}

#[test]
fn non_duplicable_request_fails_before_second_dispatch() {
    let outcomes = vec![false, false, false];
    let report = drive(policy(3), false, &outcomes);
    assert!(matches!(report.outcome, Err(Error::NonRetriableRequest)));
    assert_eq!(report.dispatched, 1);
    assert_eq!(report.backoffs, 0);
}

#[test]
fn non_duplicable_request_may_succeed_on_its_sole_dispatch() {
    let outcomes = vec![true, false, false];
    let report = drive(policy(3), false, &outcomes);
    assert_eq!(report.outcome.unwrap(), 1);
    assert_eq!(report.dispatched, 1);
    assert_eq!(report.backoffs, 0);
}

#[test]
fn non_duplicable_request_under_single_budget_exhausts_it() {
    let outcomes = vec![false];
    let report = drive(policy(1), false, &outcomes);
    assert!(matches!(report.outcome, Err(Error::ExceededMaxRetries(1))));
    assert_eq!(report.dispatched, 1);
    assert_eq!(report.backoffs, 0);
}

#[test]
fn failure_decision_backs_off_with_the_configured_delay() {
    let plan = after_failure(RetryPolicy { retries: 3, retry_delay_ms: 125 }, true, 1);
    assert!(matches!(plan, FailurePlan::Backoff { delay_ms: 125 }));
}

#[test]
fn failure_decision_gives_up_when_the_budget_is_spent() {
    let plan = after_failure(RetryPolicy { retries: 3, retry_delay_ms: 125 }, true, 3);
    assert!(matches!(plan, FailurePlan::GiveUp { error: Error::ExceededMaxRetries(3) }));
}

#[test]
fn failure_decision_gives_up_on_a_non_duplicable_descriptor() {
    let plan = after_failure(RetryPolicy { retries: 3, retry_delay_ms: 125 }, false, 1);
    assert!(matches!(plan, FailurePlan::GiveUp { error: Error::NonRetriableRequest }));
}
