use order_choreography::consuming::{Effect, HandleOutcome, Handled};
use order_choreography::contracts::fulfilment::{
    CreateFulfilmentPayload, CREATE_FULFILMENT_COMMAND_TYPE, FULFILMENT_COMMANDS_TOPIC,
};
use order_choreography::contracts::{Envelope, EventPayload};
use order_choreography::fulfilment::consumer::{
    attempt, conclude, expected_version, open_record, refused, FulfilmentIds, FulfilmentWrites,
    Opening, Verdict, FAULT_PERMANENT_FAILURE, FAULT_TRANSIENT_FAILURE,
};
use order_choreography::fulfilment::domain::FulfilmentStatus;
use order_choreography::fulfilment::repository::{record_outcome, FulfilmentRow};
use order_choreography::messaging::ConsumedRecord;
use order_choreography::persistence::inbox::InboxFacts;
use order_choreography::retry::{RetryConfig, RetryRun, RunStep};
use order_choreography::test_support::{FaultConfig, FaultInjector};
use order_choreography::time::{Clock, Span, SystemClock};

const PAYLOAD: CreateFulfilmentPayload = CreateFulfilmentPayload {
    order_id: 1,
    reservation_id: 2,
    payment_id: 3,
};

fn record() -> ConsumedRecord {
    ConsumedRecord {
        offset: 4,
        key: None,
        value: Some(b"{\"payload\":{}}".to_vec()),
        headers: Vec::new(),
    }
}

fn header(event_type: &str, schema_version: u32) -> Envelope<()> {
    Envelope {
        event_id: 10,
        event_type: event_type.to_string(),
        schema_version,
        occurred_at: SystemClock.now(),
        producer: "orders".to_string(),
        aggregate_type: "order".to_string(),
        aggregate_id: 1,
        aggregate_version: 1,
        correlation_id: 7,
        causation_id: 8,
        traceparent: Some("trace".to_string()),
        payload: (),
    }
}

fn new_event() -> InboxFacts {
    InboxFacts {
        claimed_hash: None,
        last_version: None,
    }
}

fn open(event_type: &str, version: u32, payload: Result<CreateFulfilmentPayload, String>) -> Opening {
    open_record(
        FULFILMENT_COMMANDS_TOPIC,
        &record(),
        &Ok(header(event_type, version)),
        &payload,
        &new_event(),
        SystemClock.now(),
    )
}

fn run(faults: &mut FaultInjector, existing: Option<&FulfilmentRow>) -> Handled<FulfilmentWrites> {
    let config = RetryConfig {
        max_attempts: 3,
        ..RetryConfig::default()
    };
    let envelope = match open(CREATE_FULFILMENT_COMMAND_TYPE, 1, Ok(PAYLOAD)) {
        Opening::Attempt(envelope) => envelope,
        Opening::Settled(_) => panic!("settled"),
    };
    let verdict = if refused(faults, PAYLOAD.order_id).is_err() {
        Verdict::Rejected
    } else {
        let (mut retry, mut step) = RetryRun::begin(&config);
        loop {
            match step {
                RunStep::Call | RunStep::WaitThenCall(_) => {
                    let result = attempt(faults, PAYLOAD.order_id);
                    step = retry.proceed(&config, result, Span::from_secs(0));
                }
                RunStep::Done(()) => break Verdict::Created,
                RunStep::Exhausted => break Verdict::Exhausted,
            }
        }
    };
    conclude(
        FULFILMENT_COMMANDS_TOPIC,
        &record(),
        envelope,
        &PAYLOAD,
        verdict,
        existing,
        &FulfilmentIds::draw(),
        SystemClock.now(),
    )
}

fn writes(handled: Handled<FulfilmentWrites>) -> FulfilmentWrites {
    assert_eq!(handled.outcome, HandleOutcome::Applied);
    match handled.effects.into_iter().next().unwrap() {
        Effect::Commit(set) => {
            assert_eq!(set.advance_to, Some(1));
            assert_eq!(set.entry.consumer_name, "fulfilment-consumer");
            assert_eq!(set.entry.source_offset, 4);
            set.writes.unwrap()
        }
        _ => panic!("another effect"),
    }
}

fn times(fail_next: u32) -> FaultConfig {
    FaultConfig {
        fail_next,
        subject_filter: Some("00000000-0000-0000-0000-000000000001".to_string()),
        delay_ms: None,
    }
}

#[test]
fn transient_failures_are_retried() {
    let mut faults = FaultInjector::new();
    faults.configure(FAULT_TRANSIENT_FAILURE, times(2));
    let written = writes(run(&mut faults, None));
    let row = written.fulfilment.unwrap();
    assert_eq!(row.status, FulfilmentStatus::Created);
    assert_eq!((row.order_id, row.reservation_id, row.payment_id, row.version), (1, 2, 3, 1));
    let event = &written.outbox[0];
    assert_eq!(event.envelope.event_type, "fulfilment.fulfilment_created");
    assert_eq!(event.aggregate_id, row.id);
    assert_eq!(event.envelope.correlation_id, 7);
    assert_eq!(event.envelope.causation_id, 10);
    assert_eq!(event.envelope.traceparent.as_deref(), Some("trace"));
}

#[test]
fn a_spent_budget_fails_the_fulfilment() {
    let mut faults = FaultInjector::new();
    faults.configure(FAULT_TRANSIENT_FAILURE, times(3));
    let written = writes(run(&mut faults, None));
    let row = written.fulfilment.unwrap();
    assert_eq!(row.status, FulfilmentStatus::Failed);
    match &written.outbox[0].envelope.payload {
        EventPayload::FulfilmentFailed(p) => {
            assert_eq!(p.reason_code, "FULFILMENT_RETRY_BUDGET_EXHAUSTED");
            assert_eq!(p.fulfilment_id, row.id);
        }
        _ => panic!("another payload"),
    }
}

#[test]
fn a_permanent_failure_is_not_retried() {
    let mut faults = FaultInjector::new();
    faults.configure(FAULT_PERMANENT_FAILURE, times(1));
    faults.configure(FAULT_TRANSIENT_FAILURE, times(1));
    let written = writes(run(&mut faults, None));
    let row = written.fulfilment.unwrap();
    assert_eq!(row.failure_code.as_deref(), Some("FULFILMENT_REJECTED"));
    assert_eq!(faults.snapshot().len(), 1);
    match &written.outbox[0].envelope.payload {
        EventPayload::FulfilmentFailed(p) => assert_eq!(p.reason_code, "FULFILMENT_REJECTED"),
        _ => panic!("another payload"),
    }
}

#[test]
fn a_fulfilment_is_decided_once() {
    let (outcome, row) = record_outcome(
        None,
        1,
        2,
        3,
        FulfilmentStatus::Failed,
        Some("FULFILMENT_REJECTED"),
        SystemClock.now(),
    );
    assert!(outcome.created);
    let row = row.unwrap();
    let (again, none) = record_outcome(
        Some(&row),
        1,
        2,
        3,
        FulfilmentStatus::Created,
        None,
        SystemClock.now(),
    );
    assert!(!again.created);
    assert!(none.is_none());
    assert_eq!(again.fulfilment_id, row.id);
    assert_eq!(again.status, FulfilmentStatus::Failed);
    let mut faults = FaultInjector::new();
    faults.configure(FAULT_TRANSIENT_FAILURE, times(9));
    let written = writes(run(&mut faults, Some(&row)));
    assert!(written.fulfilment.is_none());
    match &written.outbox[0].envelope.payload {
        EventPayload::FulfilmentFailed(p) => {
            assert_eq!(p.reason_code, "FULFILMENT_REJECTED");
            assert_eq!(p.fulfilment_id, row.id);
        }
        _ => panic!("another payload"),
    }
}

#[test]
fn a_decided_fulfilment_is_reported_as_it_was_decided() {
    let (_, created) = record_outcome(
        None,
        1,
        2,
        3,
        FulfilmentStatus::Created,
        None,
        SystemClock.now(),
    );
    let created = created.unwrap();
    let mut faults = FaultInjector::new();
    faults.configure(FAULT_PERMANENT_FAILURE, times(1));
    let written = writes(run(&mut faults, Some(&created)));
    assert!(written.fulfilment.is_none());
    assert_eq!(written.outbox.len(), 1);
    match &written.outbox[0].envelope.payload {
        EventPayload::FulfilmentCreated(p) => assert_eq!(p.fulfilment_id, created.id),
        _ => panic!("another payload"),
    }
    let (_, failed) = record_outcome(
        None,
        1,
        2,
        3,
        FulfilmentStatus::Failed,
        Some("FULFILMENT_RETRY_BUDGET_EXHAUSTED"),
        SystemClock.now(),
    );
    let failed = failed.unwrap();
    let written = writes(run(&mut FaultInjector::new(), Some(&failed)));
    assert!(written.fulfilment.is_none());
    match &written.outbox[0].envelope.payload {
        EventPayload::FulfilmentFailed(p) => {
            assert_eq!(p.reason_code, "FULFILMENT_RETRY_BUDGET_EXHAUSTED");
            assert_eq!(p.fulfilment_id, failed.id);
        }
        _ => panic!("another payload"),
    }
}

#[test]
fn only_the_command_in_its_version_is_understood() {
    assert_eq!(expected_version(&Ok(header(CREATE_FULFILMENT_COMMAND_TYPE, 2))), Some(1));
    assert_eq!(expected_version(&Ok(header("fulfilment.mystery", 1))), None);
    assert_eq!(expected_version(&Err("unread".to_string())), None);
}

#[test]
fn refusals_name_the_pair_of_type_and_version() {
    let cases = [
        ("fulfilment.mystery", 1, "unknown type/version pair fulfilment.mystery/1"),
        (
            CREATE_FULFILMENT_COMMAND_TYPE,
            2,
            "unknown type/version pair fulfilment.create_fulfilment/2",
        ),
    ];
    for (event_type, version, detail) in cases {
        match open(event_type, version, Ok(PAYLOAD)) {
            Opening::Settled(handled) => match &handled.effects[0] {
                Effect::PublishDlq(letter) => {
                    assert_eq!(letter.error_code, "UNSUPPORTED_SCHEMA");
                    assert_eq!(letter.error_detail, detail);
                    assert_eq!(letter.envelope.as_ref().unwrap().payload, b"{}");
                }
                _ => panic!("another effect"),
            },
            Opening::Attempt(_) => panic!("tried"),
        }
    }
    match open(CREATE_FULFILMENT_COMMAND_TYPE, 1, Err("missing field".to_string())) {
        Opening::Settled(handled) => {
            assert_eq!(handled.outcome, HandleOutcome::Poison);
            assert_eq!(handled.effects.len(), 2);
            assert!(matches!(handled.effects[0], Effect::Rollback));
            match &handled.effects[1] {
                Effect::PublishDlq(letter) => assert_eq!(
                    letter.error_detail,
                    "payload did not match create_fulfilment shape: missing field"
                ),
                _ => panic!("another effect"),
            }
        }
        Opening::Attempt(_) => panic!("tried"),
    }
}
