use vault_orchestrator::error::OrchestratorError;
use vault_orchestrator::limiter::{RateLimiter, DEFAULT_MIN_CREATE_INTERVAL_NS};
use vault_orchestrator::principal::Principal;

fn actor(byte: u8) -> Principal {
    Principal::from_slice(&[byte]).unwrap()
}

#[test]
fn default_interval_is_five_seconds() {
    assert_eq!(DEFAULT_MIN_CREATE_INTERVAL_NS, 5_000_000_000);
}

#[test]
fn first_request_passes_and_is_recorded() {
    let mut limiter = RateLimiter::new(100);
    assert_eq!(limiter.last_request(&actor(1)), None);
    assert_eq!(limiter.check_and_record(actor(1), 1_000), Ok(()));
    assert_eq!(limiter.last_request(&actor(1)), Some(1_000));
    assert_eq!(limiter.min_interval(), 100);
}

#[test]
fn second_request_within_the_interval_is_limited() {
    let mut limiter = RateLimiter::new(100);
    assert_eq!(limiter.check_and_record(actor(1), 1_000), Ok(()));
    assert_eq!(limiter.check_and_record(actor(1), 1_099), Err(OrchestratorError::RateLimited));
    assert_eq!(limiter.last_request(&actor(1)), Some(1_000));
}

#[test]
fn second_request_after_the_interval_passes() {
    let mut limiter = RateLimiter::new(100);
    assert_eq!(limiter.check_and_record(actor(1), 1_000), Ok(()));
    assert_eq!(limiter.check_and_record(actor(1), 1_100), Ok(()));
    assert_eq!(limiter.last_request(&actor(1)), Some(1_100));
}

#[test]
fn a_clock_that_went_back_counts_as_no_time_passed() {
    let mut limiter = RateLimiter::new(100);
    assert_eq!(limiter.check_and_record(actor(1), 1_000), Ok(()));
    assert_eq!(limiter.check_and_record(actor(1), 10), Err(OrchestratorError::RateLimited));
}

#[test]
fn no_interval_means_no_limit() {
    let mut limiter = RateLimiter::new(0);
    assert_eq!(limiter.check_and_record(actor(1), 1_000), Ok(()));
    assert_eq!(limiter.check_and_record(actor(1), 1_000), Ok(()));
    assert_eq!(limiter.check_and_record(actor(1), 5), Ok(()));
    assert_eq!(limiter.last_request(&actor(1)), Some(5));
}

#[test]
fn actors_are_limited_one_by_one() {
    let mut limiter = RateLimiter::new(100);
    assert_eq!(limiter.check_and_record(actor(1), 1_000), Ok(()));
    assert_eq!(limiter.check_and_record(actor(2), 1_001), Ok(()));
    assert_eq!(limiter.check_and_record(actor(1), 1_002), Err(OrchestratorError::RateLimited));
}

#[test]
fn limiter_from_entries_refuses_a_repeated_actor() {
    assert!(RateLimiter::from_entries(vec![(actor(1), 1), (actor(1), 2)], 100).is_none());
    let limiter = RateLimiter::from_entries(vec![(actor(1), 1), (actor(2), 2)], 100).unwrap();
    assert_eq!(limiter.last_request(&actor(2)), Some(2));
    assert_eq!(limiter.to_entries(), vec![(actor(1), 1), (actor(2), 2)]);
}
