use std::collections::HashMap;

use order_choreography::consuming::{Effect, HandleOutcome, Handled};
use order_choreography::contracts::payments::{
    AuthorizePaymentPayload, PaymentAmount, RefundPaymentPayload, AUTHORIZE_PAYMENT_COMMAND_TYPE,
    PAYMENTS_COMMANDS_TOPIC, REFUND_PAYMENT_COMMAND_TYPE,
};
use order_choreography::contracts::{Envelope, EventPayload};
use order_choreography::ledger::Inbox;
use order_choreography::messaging::ConsumedRecord;
use order_choreography::payments::consumer::{
    handle_authorize, handle_refund, open_record, Command as Asked, FinalAnswer,
    Opening, PaymentIds, PaymentWrites, CONSUMER_NAME,
};
use order_choreography::payments::domain::{
    authorize_idempotency_key, OperationStatus, PaymentStatus,
};
use order_choreography::payments::errors::ApiError;
use order_choreography::payments::http::{check_test_token, metrics};
use order_choreography::payments::provider::{
    FakeProvider, PaymentProvider, ProviderOutcome, FAULT_PROVIDER_DECLINE, FAULT_PROVIDER_REFUND_TIMEOUT,
    FAULT_PROVIDER_RESPONSE_LOST, FAULT_PROVIDER_TIMEOUT,
};
use order_choreography::payments::repository::{OperationRow, PaymentRow};
use order_choreography::persistence::inbox::InboxFacts;
use order_choreography::persistence::outbox::{NewOutboxEvent, PublishMetrics};
use order_choreography::retry::{RetryConfig, RetryRun, RunStep};
use order_choreography::test_support::{FaultConfig, FaultInjector};
use order_choreography::time::{Clock, Span, SystemClock, Timestamp};

fn fresh() -> u128 {
    uuid::Uuid::now_v7().as_u128()
}

fn now() -> Timestamp {
    SystemClock.now()
}

/// The tables of the service, in memory, and the provider.
struct Service {
    provider: FakeProvider,
    retry: RetryConfig,
    payments: HashMap<u128, PaymentRow>,
    operations: HashMap<String, OperationRow>,
    inbox: Inbox,
    outbox: Vec<NewOutboxEvent>,
    letters: Vec<(String, String)>,
}

#[derive(Clone)]
struct Command {
    event_id: u128,
    refund: bool,
    order_id: u128,
    payment_id: u128,
    amount: i64,
    version: i64,
}

fn authorize(order_id: u128, payment_id: u128, amount: i64) -> Command {
    Command {
        event_id: fresh(),
        refund: false,
        order_id,
        payment_id,
        amount,
        version: 1,
    }
}

fn refund(order_id: u128, payment_id: u128) -> Command {
    Command {
        event_id: fresh(),
        refund: true,
        order_id,
        payment_id,
        amount: 0,
        version: 2,
    }
}

fn fault(fail_next: u32, subject_filter: Option<String>) -> FaultConfig {
    FaultConfig {
        fail_next,
        subject_filter,
        delay_ms: None,
    }
}

impl Service {
    fn new() -> Self {
        Service {
            provider: FakeProvider::new(FaultInjector::new()),
            retry: RetryConfig {
                max_attempts: 3,
                max_elapsed: Span::from_secs(5),
                backoff_base: Span::from_millis(1),
                backoff_cap: Span::from_millis(2),
            },
            payments: HashMap::new(),
            operations: HashMap::new(),
            inbox: Inbox::new(),
            outbox: Vec::new(),
            letters: Vec::new(),
        }
    }

    fn record(&self, command: &Command) -> ConsumedRecord {
        ConsumedRecord {
            offset: 0,
            key: Some(b"key".to_vec()),
            value: Some(
                format!("{{\"payload\":{{\"amount\":{}}}}}", command.amount).into_bytes(),
            ),
            headers: Vec::new(),
        }
    }

    fn authorize_payload(&self, command: &Command) -> AuthorizePaymentPayload {
        AuthorizePaymentPayload {
            order_id: command.order_id,
            payment_id: command.payment_id,
            amount: PaymentAmount {
                currency: "USD".to_string(),
                minor_units: command.amount,
            },
        }
    }

    fn refund_payload(&self, command: &Command) -> RefundPaymentPayload {
        RefundPaymentPayload {
            order_id: command.order_id,
            payment_id: command.payment_id,
            reason: "FULFILMENT_REJECTED".to_string(),
        }
    }

    fn open(&self, command: &Command) -> Opening {
        let event_type = if command.refund {
            REFUND_PAYMENT_COMMAND_TYPE
        } else {
            AUTHORIZE_PAYMENT_COMMAND_TYPE
        };
        let header = Envelope {
            event_id: command.event_id,
            event_type: event_type.to_string(),
            schema_version: 1,
            occurred_at: now(),
            producer: "orders".to_string(),
            aggregate_type: "order".to_string(),
            aggregate_id: command.order_id,
            aggregate_version: command.version,
            correlation_id: 7,
            causation_id: 8,
            traceparent: Some("trace".to_string()),
            payload: (),
        };
        let facts = self.inbox.facts(CONSUMER_NAME, &header);
        let header = Ok(header);
        let payload = Ok(if command.refund {
            Asked::Refund(self.refund_payload(command))
        } else {
            Asked::Authorize(self.authorize_payload(command))
        });
        open_record(
            PAYMENTS_COMMANDS_TOPIC,
            &self.record(command),
            &header,
            &payload,
            &facts,
            self.payments.get(&command.order_id),
            now(),
        )
    }

    fn handle(&mut self, command: &Command) -> HandleOutcome {
        let record = self.record(command);
        let started = Span::from_secs(0);
        let handled = match self.open(command) {
            Opening::Settled(handled) => handled,
            Opening::Authorize {
                envelope,
                idempotency_key,
            } => {
                assert_eq!(idempotency_key, authorize_idempotency_key(command.order_id));
                let (mut run, mut step) = RetryRun::begin(&self.retry);
                let answer: Option<ProviderOutcome> = loop {
                    match step {
                        RunStep::Call | RunStep::WaitThenCall(_) => {
                            let reply = self.provider.authorize(
                                &idempotency_key,
                                command.order_id,
                                command.amount,
                                "USD",
                            );
                            step = run.proceed(&self.retry, reply.result, started);
                        }
                        RunStep::Done(outcome) => break Some(outcome),
                        RunStep::Exhausted => break None,
                    }
                };
                let answer = answer.map(|outcome| FinalAnswer {
                    outcome,
                    attempts: run.attempts,
                });
                handle_authorize(
                    PAYMENTS_COMMANDS_TOPIC,
                    &record,
                    envelope,
                    &self.authorize_payload(command),
                    answer,
                    self.operations.remove(&idempotency_key),
                    &PaymentIds::draw(),
                    now(),
                )
            }
            Opening::Refund {
                envelope,
                idempotency_key,
                provider_reference,
            } => {
                let (mut run, mut step) = RetryRun::begin(&self.retry);
                let done = loop {
                    match step {
                        RunStep::Call | RunStep::WaitThenCall(_) => {
                            let reply = self.provider.refund(
                                &idempotency_key,
                                command.order_id,
                                &provider_reference,
                            );
                            step = run.proceed(&self.retry, reply.result, started);
                        }
                        RunStep::Done(()) => break true,
                        RunStep::Exhausted => break false,
                    }
                };
                handle_refund(
                    PAYMENTS_COMMANDS_TOPIC,
                    &record,
                    envelope,
                    &self.refund_payload(command),
                    self.payments[&command.order_id].clone(),
                    done,
                    self.operations.remove(&idempotency_key),
                    &PaymentIds::draw(),
                    now(),
                )
            }
        };
        let outcome = handled.outcome;
        self.carry_out(handled);
        outcome
    }

    fn carry_out(&mut self, handled: Handled<PaymentWrites>) {
        for effect in handled.effects {
            match effect {
                Effect::PublishDlq(letter) => {
                    self.letters.push((letter.error_code, letter.error_detail))
                }
                Effect::Rollback => {}
                Effect::Commit(set) => {
                    assert!(self.inbox.commit(&set));
                    if let Some(writes) = set.writes {
                        if let Some(row) = writes.payment {
                            self.payments.insert(row.order_id, row);
                        }
                        if let Some(row) = writes.operation {
                            self.operations.insert(row.idempotency_key.clone(), row);
                        }
                        self.outbox.extend(writes.outbox);
                    }
                }
            }
        }
    }

    fn sent(&self, event_type: &str) -> usize {
        self.outbox
            .iter()
            .filter(|e| e.envelope.event_type == event_type)
            .count()
    }
}

#[test]
fn timeout_then_success_authorizes_once() {
    let mut service = Service::new();
    let order = fresh();
    let key = authorize_idempotency_key(order);
    service
        .provider
        .fault_injector
        .configure(FAULT_PROVIDER_TIMEOUT, fault(1, Some(key.clone())));
    let outcome = service.handle(&authorize(order, fresh(), 2500));
    assert_eq!(outcome, HandleOutcome::Applied);
    assert!(service.letters.is_empty());
    assert_eq!(service.provider.real_authorize_calls(), 1);
    assert_eq!(service.payments[&order].status, PaymentStatus::Authorized);
    assert_eq!(service.payments[&order].amount_minor, 2500);
    assert_eq!(service.sent("payments.payment_authorized"), 1);
    assert_eq!(service.operations[&key].attempts, 2);
    assert_eq!(service.operations[&key].status, OperationStatus::Succeeded);
}

#[test]
fn lost_success_response_then_retry_creates_one_provider_operation() {
    let mut service = Service::new();
    let order = fresh();
    let key = authorize_idempotency_key(order);
    service
        .provider
        .fault_injector
        .configure(FAULT_PROVIDER_RESPONSE_LOST, fault(1, Some(key)));
    let outcome = service.handle(&authorize(order, fresh(), 4200));
    assert_eq!(outcome, HandleOutcome::Applied);
    assert_eq!(
        service.provider.real_authorize_calls(),
        1,
        "the in-handler retry must be a cache hit, not a second real operation"
    );
    assert_eq!(service.payments[&order].status, PaymentStatus::Authorized);
}

#[test]
fn decline_emits_business_failure_without_dlq_retry_storm() {
    let mut service = Service::new();
    let order = fresh();
    let key = authorize_idempotency_key(order);
    service
        .provider
        .fault_injector
        .configure(FAULT_PROVIDER_DECLINE, fault(1, Some(key.clone())));
    let outcome = service.handle(&authorize(order, fresh(), 999));
    assert_eq!(outcome, HandleOutcome::Applied);
    assert!(service.letters.is_empty(), "a business decline must never be DLQ'd");
    assert_eq!(
        service.provider.real_authorize_calls(),
        1,
        "a decline is a final answer, not a retry trigger"
    );
    assert_eq!(service.payments[&order].status, PaymentStatus::Failed);
    assert_eq!(
        service.payments[&order].failure_code.as_deref(),
        Some("CARD_DECLINED")
    );
    assert_eq!(service.sent("payments.payment_failed"), 1);
    assert_eq!(service.operations[&key].status, OperationStatus::Failed);
    assert_eq!(service.operations[&key].attempts, 1);
}

#[test]
fn poison_input_reaches_dlq_without_blocking_valid_work() {
    let mut service = Service::new();
    let record = ConsumedRecord {
        offset: 0,
        key: Some(b"poison-key".to_vec()),
        value: Some(b"not valid json at all".to_vec()),
        headers: Vec::new(),
    };
    let facts = InboxFacts {
        claimed_hash: None,
        last_version: None,
    };
    let opened = open_record(
        PAYMENTS_COMMANDS_TOPIC,
        &record,
        &Err("expected ident at line 1 column 2".to_string()),
        &Err("unread".to_string()),
        &facts,
        None,
        now(),
    );
    match opened {
        Opening::Settled(handled) => {
            assert_eq!(handled.outcome, HandleOutcome::Poison);
            service.carry_out(handled);
        }
        _ => panic!("the provider was asked"),
    }
    let order = fresh();
    assert_eq!(
        service.handle(&authorize(order, fresh(), 1500)),
        HandleOutcome::Applied,
        "the valid command after it must still process normally"
    );
    assert_eq!(service.letters.len(), 1, "exactly one record reached the DLQ");
    assert_eq!(service.letters[0].0, "MALFORMED_ENVELOPE");
    assert_eq!(service.payments[&order].status, PaymentStatus::Authorized);
}

#[test]
fn consumer_tests_refund_is_idempotent() {
    let mut service = Service::new();
    let order = fresh();
    let payment = fresh();
    service.handle(&authorize(order, payment, 3000));
    let command = refund(order, payment);
    assert_eq!(service.handle(&command), HandleOutcome::Applied);
    assert_eq!(
        service.handle(&command),
        HandleOutcome::Duplicate,
        "the redelivery must be recognized as a duplicate"
    );
    assert_eq!(service.provider.real_refund_calls(), 1);
    assert_eq!(service.payments[&order].status, PaymentStatus::Refunded);
    assert_eq!(service.payments[&order].version, 2);
    assert_eq!(service.sent("payments.payment_refunded"), 1);
    let mut other = refund(order, payment);
    other.version = 3;
    assert_eq!(service.handle(&other), HandleOutcome::Applied);
    assert_eq!(service.sent("payments.payment_refunded"), 1);
    assert_eq!(service.provider.real_refund_calls(), 1);
}

#[test]
fn an_order_is_charged_once() {
    let mut service = Service::new();
    let order = fresh();
    service.handle(&authorize(order, fresh(), 100));
    let mut again = authorize(order, fresh(), 100);
    again.version = 2;
    assert_eq!(service.handle(&again), HandleOutcome::Applied);
    assert_eq!(service.outbox.len(), 1);
    assert_eq!(service.provider.real_authorize_calls(), 1);
}

#[test]
fn a_spent_budget_shelves_the_command() {
    let mut service = Service::new();
    let order: u128 = 11;
    service
        .provider
        .fault_injector
        .configure(FAULT_PROVIDER_TIMEOUT, fault(9, None));
    let command = authorize(order, fresh(), 100);
    assert_eq!(service.handle(&command), HandleOutcome::Poison);
    assert_eq!(
        service.letters,
        vec![(
            "PROVIDER_RETRY_BUDGET_EXHAUSTED".to_string(),
            "authorize_payment for order 00000000-0000-0000-0000-00000000000b exhausted its \
             retry budget against the provider"
                .to_string()
        )]
    );
    assert!(service.payments.is_empty());
    assert!(service.inbox.versions.is_empty());
    assert_eq!(service.handle(&command), HandleOutcome::Duplicate);
}

#[test]
fn a_refund_that_keeps_failing_is_reported() {
    let mut service = Service::new();
    let order = fresh();
    let payment = fresh();
    service.handle(&authorize(order, payment, 3000));
    service
        .provider
        .fault_injector
        .configure(FAULT_PROVIDER_REFUND_TIMEOUT, fault(3, None));
    assert_eq!(service.handle(&refund(order, payment)), HandleOutcome::Applied);
    let event = service.outbox.last().unwrap();
    assert_eq!(event.aggregate_version, 2);
    match &event.envelope.payload {
        EventPayload::RefundFailed(p) => {
            assert_eq!(p.reason_code, "REFUND_RETRY_BUDGET_EXHAUSTED");
            assert_eq!(p.payment_id, payment);
        }
        _ => panic!("another payload"),
    }
    assert_eq!(event.envelope.traceparent.as_deref(), Some("trace"));
    assert_eq!(service.payments[&order].status, PaymentStatus::Authorized);
}

#[test]
fn a_refund_without_a_payment_is_put_aside() {
    let mut service = Service::new();
    let mut command = refund(2, 3);
    command.version = 1;
    assert_eq!(service.handle(&command), HandleOutcome::Poison);
    assert_eq!(
        service.letters,
        vec![(
            "UNKNOWN_ORDER".to_string(),
            "refund_payment for order 00000000-0000-0000-0000-000000000002 with no existing \
             payment row"
                .to_string()
        )]
    );
    assert!(service.inbox.events.is_empty());
    assert!(service.outbox.is_empty());
    assert_eq!(
        service.handle(&authorize(4, fresh(), 100)),
        HandleOutcome::Applied,
        "the next command of the topic is carried out"
    );
}

#[test]
fn the_publisher_is_shown_as_text() {
    let counters = PublishMetrics {
        attempts_total: 5,
        failures_total: 1,
        lease_recoveries_total: 2,
        published_total: 4,
    };
    let text = metrics(3, "1.5", &counters);
    assert_eq!(
        text,
        "# HELP outbox_unpublished_count Unpublished outbox rows.\n\
         # TYPE outbox_unpublished_count gauge\n\
         outbox_unpublished_count 3\n\
         # HELP outbox_oldest_unpublished_age_seconds Age of the oldest unpublished row.\n\
         # TYPE outbox_oldest_unpublished_age_seconds gauge\n\
         outbox_oldest_unpublished_age_seconds 1.5\n\
         # HELP outbox_publish_attempts_total Publish attempts made by this worker.\n\
         # TYPE outbox_publish_attempts_total counter\n\
         outbox_publish_attempts_total 5\n\
         # HELP outbox_publish_failures_total Publish attempts that failed.\n\
         # TYPE outbox_publish_failures_total counter\n\
         outbox_publish_failures_total 1\n\
         # HELP outbox_publish_success_total Rows successfully marked published.\n\
         # TYPE outbox_publish_success_total counter\n\
         outbox_publish_success_total 4\n\
         # HELP outbox_lease_recoveries_total Rows reclaimed after a prior lease expired.\n\
         # TYPE outbox_lease_recoveries_total counter\n\
         outbox_lease_recoveries_total 2\n"
    );
    assert!(check_test_token("t", Some("t")).is_ok());
    assert!(check_test_token("t", None).is_err());
    assert_eq!(ApiError::FaultControlForbidden.response().0, 403);
}
