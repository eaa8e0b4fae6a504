use order_choreography::domain_common::ErrorClass;
use order_choreography::payments::domain::{authorize_idempotency_key, refund_idempotency_key};
use order_choreography::payments::provider::{
    FakeProvider, PaymentProvider, ProviderError, ProviderOutcome, FAULT_PROVIDER_DECLINE,
    FAULT_PROVIDER_REFUND_TIMEOUT, FAULT_PROVIDER_RESPONSE_LOST, FAULT_PROVIDER_TIMEOUT,
};
use order_choreography::persistence::outbox::{backoff_limit, full_jitter_backoff};
use order_choreography::retry::{after_failure, RetryConfig, RetryRun, RetryStep, RunStep};
use order_choreography::test_support::{FaultConfig, FaultInjector, FaultTriggered};
use order_choreography::time::Span;

fn times(fail_next: u32) -> FaultConfig {
    FaultConfig {
        fail_next,
        subject_filter: None,
        delay_ms: None,
    }
}

fn provider() -> FakeProvider {
    FakeProvider::new(FaultInjector::new())
}

#[test]
fn fires_exactly_fail_next_times_then_stops() {
    let mut injector = FaultInjector::new();
    injector.configure("test.point", times(2));
    assert!(injector.maybe_fail("test.point", None).is_err());
    assert!(injector.maybe_fail("test.point", None).is_err());
    assert!(injector.maybe_fail("test.point", None).is_ok());
}

#[test]
fn only_fires_for_matching_subject() {
    let mut injector = FaultInjector::new();
    injector.configure(
        "test.point",
        FaultConfig {
            fail_next: 5,
            subject_filter: Some("order-a".to_string()),
            delay_ms: None,
        },
    );
    assert!(injector.maybe_fail("test.point", Some("order-b")).is_ok());
    assert!(injector.maybe_fail("test.point", Some("order-a")).is_err());
    assert!(injector.maybe_fail("test.point", None).is_ok());
    assert_eq!(injector.snapshot()[0].1.fail_next, 4);
}

#[test]
fn unconfigured_fault_never_fires() {
    let mut injector = FaultInjector::new();
    assert!(injector.maybe_fail("unknown", None).is_ok());
}

#[test]
fn clear_removes_all_configured_faults() {
    let mut injector = FaultInjector::new();
    injector.configure("test.point", times(1));
    injector.clear();
    assert!(injector.maybe_fail("test.point", None).is_ok());
    assert!(injector.snapshot().is_empty());
}

#[test]
fn configuring_again_replaces_and_exhausted_faults_disappear() {
    let mut injector = FaultInjector::new();
    injector.configure("a", times(9));
    injector.configure("b", times(1));
    injector.configure(
        "a",
        FaultConfig {
            fail_next: 1,
            subject_filter: None,
            delay_ms: Some(25),
        },
    );
    assert_eq!(injector.snapshot().len(), 2);
    assert_eq!(
        injector.check("a", Some("x")).unwrap_err(),
        (
            FaultTriggered {
                name: "a".to_string()
            },
            Some(25)
        )
    );
    let left = injector.snapshot();
    assert_eq!(left.len(), 1);
    assert_eq!(left[0].0, "b");
    injector.configure("c", times(0));
    assert!(injector.maybe_fail("c", None).is_ok());
}

#[test]
fn authorize_succeeds_and_is_idempotent_on_replay() {
    let mut p = provider();
    let first = p.authorize("key-1", 1, 1000, "USD").result.unwrap();
    let second = p.authorize("key-1", 1, 1000, "USD").result.unwrap();
    assert_eq!(first, second);
    assert_eq!(p.real_authorize_calls(), 1);
    match first {
        ProviderOutcome::Authorized { provider_reference } => {
            assert!(provider_reference.starts_with("prov_"));
            assert_eq!(provider_reference.len(), 41);
        }
        ProviderOutcome::Declined { .. } => panic!("declined"),
    }
}

#[test]
fn timeout_then_retry_authorizes_once_for_real() {
    let mut p = provider();
    p.fault_injector.configure(FAULT_PROVIDER_TIMEOUT, times(1));
    assert!(p.authorize("key-2", 1, 1000, "USD").result.is_err());
    assert_eq!(p.real_authorize_calls(), 0);
    let outcome = p.authorize("key-2", 1, 1000, "USD").result.unwrap();
    assert!(matches!(outcome, ProviderOutcome::Authorized { .. }));
    assert_eq!(p.real_authorize_calls(), 1);
}

#[test]
fn response_lost_then_retry_replays_the_same_authorization() {
    let mut p = provider();
    p.fault_injector.configure(FAULT_PROVIDER_RESPONSE_LOST, times(1));
    let lost = p.authorize_as("key-3", "prov_first".to_string());
    assert_eq!(
        lost.result,
        Err(ProviderError::Unavailable(
            "simulated response loss after commit".to_string()
        ))
    );
    let outcome = p.authorize("key-3", 1, 1000, "USD").result.unwrap();
    assert_eq!(
        outcome,
        ProviderOutcome::Authorized {
            provider_reference: "prov_first".to_string()
        }
    );
    assert_eq!(p.real_authorize_calls(), 1);
}

#[test]
fn decline_is_a_business_outcome_not_an_error() {
    let mut p = provider();
    p.fault_injector.configure(FAULT_PROVIDER_DECLINE, times(1));
    let outcome = p.authorize("key-4", 1, 1000, "USD").result.unwrap();
    assert_eq!(
        outcome,
        ProviderOutcome::Declined {
            reason_code: "CARD_DECLINED".to_string()
        }
    );
    assert_eq!(p.authorize("key-4", 1, 1000, "USD").result.unwrap(), outcome);
}

#[test]
fn provider_refund_is_idempotent() {
    let mut p = provider();
    p.refund("refund-1", 1, "prov_ref").result.unwrap();
    p.refund("refund-1", 1, "prov_ref").result.unwrap();
    assert_eq!(p.real_refund_calls(), 1);
}

#[test]
fn a_refund_that_times_out_leaves_no_trace() {
    let mut p = provider();
    p.fault_injector.configure(FAULT_PROVIDER_REFUND_TIMEOUT, times(1));
    let error = p.refund("refund-2", 1, "prov_ref").result.unwrap_err();
    assert_eq!(
        error.message(),
        "payment provider unavailable: simulated refund timeout"
    );
    assert_eq!(error.error_class(), ErrorClass::Transient);
    assert_eq!(p.real_refund_calls(), 0);
    assert!(p.refund("refund-2", 1, "prov_ref").result.is_ok());
    assert_eq!(p.real_refund_calls(), 1);
}

#[test]
fn operation_keys_name_the_order() {
    assert_eq!(
        authorize_idempotency_key(1),
        "authorize:00000000-0000-0000-0000-000000000001"
    );
    assert_eq!(
        refund_idempotency_key(0xff),
        "refund:00000000-0000-0000-0000-0000000000ff"
    );
}

#[test]
fn backoff_doubles_up_to_the_cap() {
    let base = Span::from_millis(100);
    let cap = Span::from_secs(30);
    assert_eq!(backoff_limit(0, base, cap).as_nanos(), 100_000_000);
    assert_eq!(backoff_limit(3, base, cap).as_nanos(), 800_000_000);
    assert_eq!(backoff_limit(8, base, cap).as_nanos(), 25_600_000_000);
    assert_eq!(backoff_limit(9, base, cap), cap);
    assert_eq!(backoff_limit(31, base, cap), cap);
    assert_eq!(backoff_limit(u32::MAX, base, cap), cap);
    let longest = Span {
        secs: u64::MAX,
        nanos: 999_999_999,
    };
    assert_eq!(backoff_limit(40, longest, longest), longest);
    assert_eq!(
        backoff_limit(32, Span { secs: 0, nanos: 1 }, longest).as_nanos(),
        u32::MAX as u128
    );
}

#[test]
fn jitter_stays_within_its_limit_and_varies() {
    let base = Span::from_millis(100);
    let cap = Span::from_secs(30);
    let mut seen = Vec::new();
    for attempts in 0..40 {
        let wait = full_jitter_backoff(attempts, base, cap);
        assert!(wait.as_nanos() <= backoff_limit(attempts, base, cap).as_nanos());
        seen.push(wait.as_nanos());
    }
    seen.sort();
    seen.dedup();
    assert!(seen.len() > 10);
    let zero = Span { secs: 0, nanos: 0 };
    assert_eq!(full_jitter_backoff(5, zero, cap), zero);
}

#[test]
fn retries_end_with_the_budget() {
    let config = RetryConfig::default();
    assert_eq!(config.max_attempts, 8);
    let start = Span::from_secs(0);
    assert!(matches!(after_failure(&config, 1, start), RetryStep::Wait(_)));
    assert_eq!(after_failure(&config, 8, start), RetryStep::GiveUp);
    assert_eq!(after_failure(&config, 1, Span::from_secs(600)), RetryStep::GiveUp);

    let (mut run, step): (RetryRun, RunStep<u8>) = RetryRun::begin(&config);
    assert!(matches!(step, RunStep::Call));
    let mut calls = 1;
    loop {
        let failed: Result<u8, ()> = Err(());
        match run.proceed(&config, failed, start) {
            RunStep::WaitThenCall(wait) => {
                assert!(wait.as_nanos() <= 30_000_000_000);
                calls += 1;
            }
            RunStep::Exhausted => break,
            RunStep::Call | RunStep::Done(_) => panic!("unexpected step"),
        }
    }
    assert_eq!(calls, 8);
    assert_eq!(run.attempts, 8);

    let (mut run, _): (RetryRun, RunStep<u8>) = RetryRun::begin(&config);
    let failed: Result<u8, ()> = Err(());
    assert!(matches!(run.proceed(&config, failed, start), RunStep::WaitThenCall(_)));
    let done: Result<u8, ()> = Ok(7);
    assert!(matches!(run.proceed(&config, done, start), RunStep::Done(7)));
    assert_eq!(run.attempts, 2);

    let none = RetryConfig {
        max_attempts: 0,
        ..config
    };
    let (_, step): (RetryRun, RunStep<u8>) = RetryRun::begin(&none);
    assert!(matches!(step, RunStep::Exhausted));
}
