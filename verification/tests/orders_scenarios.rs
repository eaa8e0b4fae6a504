use std::collections::HashMap;

use order_choreography::consuming::{
    payload_hash, Batch, BatchStep, Effect, HandleOutcome, Handled, ProcessSummary,
};
use order_choreography::contracts::fulfilment::{
    FulfilmentCreatedPayload, FulfilmentFailedPayload, FULFILMENT_COMMANDS_TOPIC,
    FULFILMENT_CREATED_EVENT_TYPE, FULFILMENT_EVENTS_TOPIC, FULFILMENT_FAILED_EVENT_TYPE,
};
use order_choreography::contracts::inventory::{
    InventoryReleasedPayload, ReleaseFailedPayload, ReservationFailedPayload,
    ReservationSucceededPayload, ReserveInventoryItem, INVENTORY_COMMANDS_TOPIC,
    INVENTORY_EVENTS_TOPIC, INVENTORY_RELEASED_EVENT_TYPE, RELEASE_FAILED_EVENT_TYPE,
    RELEASE_INVENTORY_COMMAND_TYPE, RESERVATION_FAILED_EVENT_TYPE,
    RESERVATION_SUCCEEDED_EVENT_TYPE,
};
use order_choreography::contracts::orders::{
    OrderCreatedAmount, OrderCreatedPayload, ORDER_AGGREGATE_TYPE, ORDER_CREATED_TOPIC,
};
use order_choreography::contracts::payments::{
    PaymentAuthorizedPayload, PaymentFailedPayload, PaymentRefundedPayload,
    AUTHORIZE_PAYMENT_COMMAND_TYPE, PAYMENTS_COMMANDS_TOPIC, PAYMENTS_EVENTS_TOPIC,
    PAYMENT_AUTHORIZED_EVENT_TYPE, PAYMENT_FAILED_EVENT_TYPE, PAYMENT_REFUNDED_EVENT_TYPE,
};
use order_choreography::contracts::{Envelope, EventPayload};
use order_choreography::ledger::Inbox;
use order_choreography::messaging::ConsumedRecord;
use order_choreography::orders::config::DeliveryMode;
use order_choreography::orders::domain::{
    validate_and_normalize, CreateOrderRequest, ItemRequest, NormalizedOrder, OrderStatus,
};
use order_choreography::orders::errors::ApiError;
use order_choreography::orders::http::{
    accept_request, accepted_response, check_test_token, delete_faults, extract_idempotency_key,
    extract_or_generate_correlation_id, get_order, get_transitions, naive_completion,
    publish_naive, put_fault, FAULT_AFTER_DB_COMMIT_BEFORE_PUBLISH,
    FAULT_AFTER_PUBLISH_BEFORE_RESPONSE,
};
use order_choreography::orders::outcome_consumer::{
    handle_one, handle_record, Outcome, CONSUMER_NAME, FAULT_AFTER_DB_COMMIT_BEFORE_OFFSET_COMMIT,
};
use order_choreography::orders::repository::{
    create_order, place_order, transition_order, CreateOutcome, Creation, ExistingOrder,
    OrderItemRow, OrderRow, RepoError, TransitionError, TransitionRow,
};
use order_choreography::orders::saga::{Fresh, HandleError, OrderSaga, OrderWrites};
use order_choreography::persistence::inbox::{fetch, InboxFacts};
use order_choreography::persistence::outbox::NewOutboxEvent;
use order_choreography::test_support::{FaultConfig, FaultInjector};
use order_choreography::time::{Clock, SystemClock, Timestamp};

fn fresh() -> u128 {
    uuid::Uuid::now_v7().as_u128()
}

fn now() -> Timestamp {
    SystemClock.now()
}

/// The tables of the service, in memory.
struct Store {
    sagas: HashMap<u128, OrderSaga>,
    items: HashMap<u128, Vec<OrderItemRow>>,
    transitions: Vec<TransitionRow>,
    inbox: Inbox,
    outbox: Vec<NewOutboxEvent>,
    letters: Vec<(String, String)>,
}

impl Store {
    fn new() -> Self {
        Store {
            sagas: HashMap::new(),
            items: HashMap::new(),
            transitions: Vec::new(),
            inbox: Inbox::new(),
            outbox: Vec::new(),
            letters: Vec::new(),
        }
    }

    fn by_key(&self, key: &str) -> Option<ExistingOrder> {
        self.sagas
            .values()
            .find(|s| s.order.idempotency_key == key)
            .map(|s| ExistingOrder {
                order: s.order.clone(),
                items: self.items[&s.order.id].clone(),
            })
    }

    fn create(
        &mut self,
        key: &str,
        normalized: &NormalizedOrder,
        correlation_id: u128,
        mode: DeliveryMode,
    ) -> Result<CreateOutcome, RepoError> {
        let made = place_order(key, normalized, correlation_id, self.by_key(key), mode, now())?;
        Ok(self.commit(made))
    }

    fn create_with(
        &mut self,
        key: &str,
        normalized: &NormalizedOrder,
        correlation_id: u128,
        build: impl FnOnce(u128, i64, i64) -> Vec<NewOutboxEvent>,
    ) -> Result<CreateOutcome, RepoError> {
        let existing = self.by_key(key);
        let made = create_order(key, normalized, correlation_id, existing, now(), build)?;
        Ok(self.commit(made))
    }

    fn commit(&mut self, made: Creation) -> CreateOutcome {
        if made.outcome.created {
            let order = made.outcome.order.clone();
            self.items.insert(order.id, made.outcome.items.clone());
            self.sagas.insert(
                order.id,
                OrderSaga {
                    order,
                    reservation_id: None,
                    payment_id: None,
                    fulfilment_id: None,
                    release_required: false,
                    release_done: false,
                    refund_required: false,
                    refund_done: false,
                    inventory_commands: made.inventory_commands,
                    payments_commands: 0,
                    fulfilment_commands: 0,
                },
            );
        }
        self.transitions.extend(made.transition);
        self.outbox.extend(made.outbox);
        made.outcome
    }

    fn status(&self, id: u128) -> OrderStatus {
        self.sagas[&id].order.status
    }

    fn commands(&self, id: u128, topic: &str) -> Vec<&NewOutboxEvent> {
        self.outbox
            .iter()
            .filter(|e| e.aggregate_id == id && e.topic == topic)
            .collect()
    }

    fn carry_out(&mut self, handled: Handled<OrderWrites>) {
        for effect in handled.effects {
            match effect {
                Effect::PublishDlq(letter) => {
                    assert_eq!(letter.consumer, CONSUMER_NAME);
                    self.letters.push((letter.error_code, letter.error_detail));
                }
                Effect::Rollback => {}
                Effect::Commit(set) => {
                    assert!(self.inbox.commit(&set));
                    if let Some(writes) = set.writes {
                        self.sagas.insert(writes.saga.order.id, writes.saga);
                        self.transitions.extend(writes.transitions);
                        self.outbox.extend(writes.outbox);
                    }
                }
            }
        }
    }

    fn deliver(&mut self, topic: &str, message: &Message) -> HandleOutcome {
        let record = ConsumedRecord {
            offset: message.offset,
            key: Some(b"key".to_vec()),
            value: Some(format!("{{\"payload\": {}}}", message.json).into_bytes()),
            headers: Vec::new(),
        };
        let facts = self.inbox.facts(CONSUMER_NAME, &message.header());
        let header = Ok(message.header());
        let payload = match &message.payload {
            Some(make) => Ok(make()),
            None => Err("no such shape".to_string()),
        };
        let saga = self.sagas.get(&message.order_id).cloned();
        let handled = handle_record(topic, &record, &header, &payload, &facts, saga)
            .expect("the batch goes on");
        let outcome = handled.outcome;
        self.carry_out(handled);
        outcome
    }
}

/// An outcome as another service would report it.
struct Message {
    offset: i64,
    event_id: u128,
    event_type: &'static str,
    schema_version: u32,
    aggregate_id: u128,
    aggregate_version: i64,
    correlation_id: u128,
    causation_id: u128,
    order_id: u128,
    json: String,
    payload: Option<Box<dyn Fn() -> Outcome>>,
}

impl Message {
    fn header(&self) -> Envelope<()> {
        Envelope {
            event_id: self.event_id,
            event_type: self.event_type.to_string(),
            schema_version: self.schema_version,
            occurred_at: now(),
            producer: "test".to_string(),
            aggregate_type: "test".to_string(),
            aggregate_id: self.aggregate_id,
            aggregate_version: self.aggregate_version,
            correlation_id: self.correlation_id,
            causation_id: self.causation_id,
            traceparent: Some("00-trace-01".to_string()),
            payload: (),
        }
    }
}

fn message(
    event_type: &'static str,
    order_id: u128,
    aggregate_id: u128,
    aggregate_version: i64,
    make: impl Fn() -> Outcome + 'static,
) -> Message {
    Message {
        offset: 0,
        event_id: fresh(),
        event_type,
        schema_version: 1,
        aggregate_id,
        aggregate_version,
        correlation_id: 77,
        causation_id: 78,
        order_id,
        json: format!("{{\"order\": {order_id}, \"at\": {aggregate_version}}}"),
        payload: Some(Box::new(make)),
    }
}

fn items() -> Vec<ReserveInventoryItem> {
    vec![ReserveInventoryItem {
        sku: "SKU-CHOREO-1".to_string(),
        quantity: 2,
    }]
}

fn reserved(order_id: u128, reservation_id: u128) -> Message {
    message(RESERVATION_SUCCEEDED_EVENT_TYPE, order_id, reservation_id, 1, move || {
        Outcome::ReservationSucceeded(ReservationSucceededPayload {
            order_id,
            reservation_id,
            items: items(),
        })
    })
}

fn not_reserved(order_id: u128, reservation_id: u128) -> Message {
    message(RESERVATION_FAILED_EVENT_TYPE, order_id, reservation_id, 1, move || {
        Outcome::ReservationFailed(ReservationFailedPayload {
            order_id,
            reason_code: "INSUFFICIENT_STOCK".to_string(),
            items: items(),
        })
    })
}

fn authorized(order_id: u128, payment_id: u128) -> Message {
    message(PAYMENT_AUTHORIZED_EVENT_TYPE, order_id, payment_id, 1, move || {
        Outcome::PaymentAuthorized(PaymentAuthorizedPayload {
            order_id,
            payment_id,
            provider_reference: "fake-ref-001".to_string(),
        })
    })
}

fn not_authorized(order_id: u128, payment_id: u128) -> Message {
    message(PAYMENT_FAILED_EVENT_TYPE, order_id, payment_id, 1, move || {
        Outcome::PaymentFailed(PaymentFailedPayload {
            order_id,
            payment_id,
            reason_code: "CARD_DECLINED".to_string(),
        })
    })
}

fn released(order_id: u128, reservation_id: u128) -> Message {
    message(INVENTORY_RELEASED_EVENT_TYPE, order_id, reservation_id, 2, move || {
        Outcome::InventoryReleased(InventoryReleasedPayload {
            order_id,
            reservation_id,
        })
    })
}

fn refunded(order_id: u128, payment_id: u128) -> Message {
    message(PAYMENT_REFUNDED_EVENT_TYPE, order_id, payment_id, 2, move || {
        Outcome::PaymentRefunded(PaymentRefundedPayload {
            order_id,
            payment_id,
        })
    })
}

fn fulfilled(order_id: u128, fulfilment_id: u128) -> Message {
    message(FULFILMENT_CREATED_EVENT_TYPE, order_id, fulfilment_id, 1, move || {
        Outcome::FulfilmentCreated(FulfilmentCreatedPayload {
            order_id,
            fulfilment_id,
        })
    })
}

fn not_fulfilled(order_id: u128, fulfilment_id: u128) -> Message {
    message(FULFILMENT_FAILED_EVENT_TYPE, order_id, fulfilment_id, 1, move || {
        Outcome::FulfilmentFailed(FulfilmentFailedPayload {
            order_id,
            fulfilment_id,
            reason_code: "FULFILMENT_REJECTED".to_string(),
        })
    })
}

fn not_released(order_id: u128, reservation_id: u128) -> Message {
    message(RELEASE_FAILED_EVENT_TYPE, order_id, reservation_id, 2, move || {
        Outcome::ReleaseFailed(ReleaseFailedPayload {
            order_id,
            reservation_id,
            reason_code: "STOCK_LOCKED".to_string(),
        })
    })
}

fn sample_request() -> CreateOrderRequest {
    CreateOrderRequest {
        items: vec![
            ItemRequest {
                sku: "SKU-1".to_string(),
                quantity: 2,
                unit_price_minor: 1250,
            },
            ItemRequest {
                sku: "SKU-2".to_string(),
                quantity: 1,
                unit_price_minor: 500,
            },
        ],
        currency: "USD".to_string(),
    }
}

fn choreo_order(store: &mut Store) -> u128 {
    let normalized = validate_and_normalize(CreateOrderRequest {
        items: vec![ItemRequest {
            sku: "SKU-CHOREO-1".to_string(),
            quantity: 2,
            unit_price_minor: 1250,
        }],
        currency: "USD".to_string(),
    })
    .unwrap();
    let key = format!("choreo-{}", fresh());
    store.create(&key, &normalized, 77, DeliveryMode::Outbox).unwrap().order.id
}

#[test]
fn the_way_to_completion_passes_every_status() {
    let mut store = Store::new();
    let order = choreo_order(&mut store);
    assert_eq!(store.status(order), OrderStatus::Pending);
    let reservation = fresh();
    assert_eq!(
        store.deliver(INVENTORY_EVENTS_TOPIC, &reserved(order, reservation)),
        HandleOutcome::Applied
    );
    assert_eq!(store.status(order), OrderStatus::InventoryReserved);
    assert_eq!(store.sagas[&order].reservation_id, Some(reservation));
    let commands = store.commands(order, PAYMENTS_COMMANDS_TOPIC);
    assert_eq!(commands.len(), 1);
    assert_eq!(commands[0].envelope.event_type, AUTHORIZE_PAYMENT_COMMAND_TYPE);
    let payment = match &commands[0].envelope.payload {
        EventPayload::AuthorizePayment(p) => {
            assert_eq!(p.amount.currency, "USD");
            assert_eq!(p.amount.minor_units, 2500);
            p.payment_id
        }
        _ => panic!("another payload"),
    };
    assert_eq!(
        store.deliver(PAYMENTS_EVENTS_TOPIC, &authorized(order, payment)),
        HandleOutcome::Applied
    );
    assert_eq!(store.status(order), OrderStatus::ReadyForFulfilment);
    assert_eq!(store.sagas[&order].payment_id, Some(payment));
    let steps: Vec<OrderStatus> = store.transitions.iter().map(|t| t.to_status).collect();
    assert_eq!(
        steps,
        vec![
            OrderStatus::Pending,
            OrderStatus::InventoryReserved,
            OrderStatus::PaymentAuthorized,
            OrderStatus::ReadyForFulfilment
        ]
    );
    let fulfilment = store.commands(order, FULFILMENT_COMMANDS_TOPIC);
    assert_eq!(fulfilment.len(), 1);
    assert_eq!(fulfilment[0].aggregate_version, 1);
    assert_eq!(
        store.deliver(FULFILMENT_EVENTS_TOPIC, &fulfilled(order, 99)),
        HandleOutcome::Applied
    );
    assert_eq!(store.status(order), OrderStatus::Completed);
    assert_eq!(store.sagas[&order].order.version, 5);
    assert_eq!(store.sagas[&order].fulfilment_id, Some(99));
    assert!(store.letters.is_empty());
}

#[test]
fn inventory_failure_cancels_with_no_payment_operation() {
    let mut store = Store::new();
    let order = choreo_order(&mut store);
    let outcome = store.deliver(INVENTORY_EVENTS_TOPIC, &not_reserved(order, fresh()));
    assert_eq!(outcome, HandleOutcome::Applied);
    assert_eq!(store.status(order), OrderStatus::Cancelled);
    assert!(
        store.commands(order, PAYMENTS_COMMANDS_TOPIC).is_empty(),
        "no authorize_payment must ever be sent for a rejected reservation"
    );
    assert_eq!(
        store.transitions.len(),
        3,
        "created -> CANCELLING -> CANCELLED, no partial/extra writes"
    );
    assert_eq!(store.transitions[1].reason.as_deref(), Some("INSUFFICIENT_STOCK"));
    assert_eq!(
        store.transitions[2].reason.as_deref(),
        Some("inventory reservation rejected; nothing to compensate")
    );
}

#[test]
fn payment_failure_releases_inventory_then_cancels() {
    let mut store = Store::new();
    let order = choreo_order(&mut store);
    let reservation = fresh();
    store.deliver(INVENTORY_EVENTS_TOPIC, &reserved(order, reservation));
    assert_eq!(store.status(order), OrderStatus::InventoryReserved);
    store.deliver(PAYMENTS_EVENTS_TOPIC, &not_authorized(order, fresh()));
    assert_eq!(
        store.status(order),
        OrderStatus::Cancelling,
        "must not reach CANCELLED before the release is confirmed"
    );
    let commands = store.commands(order, INVENTORY_COMMANDS_TOPIC);
    let release = commands.last().unwrap();
    assert_eq!(release.envelope.event_type, RELEASE_INVENTORY_COMMAND_TYPE);
    assert_eq!(release.aggregate_version, 2);
    match &release.envelope.payload {
        EventPayload::ReleaseInventory(p) => {
            assert_eq!(p.reservation_id, reservation);
            assert_eq!(p.reason, "CARD_DECLINED");
        }
        _ => panic!("another payload"),
    }
    store.deliver(INVENTORY_EVENTS_TOPIC, &released(order, reservation));
    assert_eq!(store.status(order), OrderStatus::Cancelled);
    match &store.outbox.last().unwrap().envelope.payload {
        EventPayload::OrderCancelled(p) => assert_eq!(p.reason_code, "COMPENSATED"),
        _ => panic!("another payload"),
    }
}

#[test]
fn a_refund_does_not_cancel_an_order_that_waits_for_its_stock() {
    let mut store = Store::new();
    let (reservation, payment) = (fresh(), fresh());
    let order = choreo_order(&mut store);
    store.deliver(INVENTORY_EVENTS_TOPIC, &reserved(order, reservation));
    store.deliver(PAYMENTS_EVENTS_TOPIC, &not_authorized(order, payment));
    assert!(store.sagas[&order].release_required);
    assert!(!store.sagas[&order].refund_required);
    let sent = store.outbox.len();
    store.deliver(PAYMENTS_EVENTS_TOPIC, &refunded(order, payment));
    assert_eq!(store.status(order), OrderStatus::Cancelling);
    assert_eq!(store.outbox.len(), sent, "nothing is announced before the release");
    store.deliver(INVENTORY_EVENTS_TOPIC, &released(order, reservation));
    assert_eq!(store.status(order), OrderStatus::Cancelled);
    assert_eq!(store.outbox.len(), sent + 1);
}

#[test]
fn a_reaction_that_sends_nothing_uses_up_no_command_number() {
    let mut store = Store::new();
    let order = choreo_order(&mut store);
    let reservation = fresh();
    store.deliver(INVENTORY_EVENTS_TOPIC, &reserved(order, reservation));
    let numbers = |store: &Store| {
        let saga = &store.sagas[&order];
        (saga.inventory_commands, saga.payments_commands, saga.fulfilment_commands)
    };
    assert_eq!(numbers(&store), (1, 1, 0));
    store.deliver(INVENTORY_EVENTS_TOPIC, &reserved(order, fresh()));
    assert_eq!(numbers(&store), (1, 1, 0));
    store.deliver(PAYMENTS_EVENTS_TOPIC, &not_authorized(order, fresh()));
    assert_eq!(numbers(&store), (2, 1, 0));
    let sent = store.outbox.len();
    store.deliver(PAYMENTS_EVENTS_TOPIC, &not_authorized(order, fresh()));
    assert_eq!(numbers(&store), (2, 1, 0));
    assert_eq!(store.outbox.len(), sent);
    let versions: Vec<i64> = store
        .commands(order, INVENTORY_COMMANDS_TOPIC)
        .iter()
        .map(|e| e.aggregate_version)
        .collect();
    assert_eq!(versions, vec![1, 2]);
}

#[test]
fn fulfilment_failure_waits_for_both_compensations() {
    for refund_first in [true, false] {
        let mut store = Store::new();
        let order = choreo_order(&mut store);
        let (reservation, payment) = (fresh(), fresh());
        store.deliver(INVENTORY_EVENTS_TOPIC, &reserved(order, reservation));
        store.deliver(PAYMENTS_EVENTS_TOPIC, &authorized(order, payment));
        store.deliver(FULFILMENT_EVENTS_TOPIC, &not_fulfilled(order, fresh()));
        assert_eq!(store.status(order), OrderStatus::Cancelling);
        let sent: Vec<(&str, i64)> = store
            .outbox
            .iter()
            .rev()
            .take(2)
            .map(|e| (e.envelope.event_type.as_str(), e.aggregate_version))
            .collect();
        assert_eq!(
            sent,
            vec![
                ("payments.refund_payment", 2),
                ("inventory.release_inventory", 2)
            ]
        );
        let sent_before = store.outbox.len();
        let (first, second) = if refund_first {
            (refunded(order, payment), released(order, reservation))
        } else {
            (released(order, reservation), refunded(order, payment))
        };
        store.deliver(PAYMENTS_EVENTS_TOPIC, &first);
        assert_eq!(store.status(order), OrderStatus::Cancelling);
        assert_eq!(store.outbox.len(), sent_before);
        store.deliver(INVENTORY_EVENTS_TOPIC, &second);
        assert_eq!(store.status(order), OrderStatus::Cancelled);
        assert_eq!(store.outbox.len(), sent_before + 1);
    }
}

#[test]
fn exhausted_compensation_reaches_an_operator() {
    let mut store = Store::new();
    let order = choreo_order(&mut store);
    let reservation = fresh();
    store.deliver(INVENTORY_EVENTS_TOPIC, &reserved(order, reservation));
    store.deliver(PAYMENTS_EVENTS_TOPIC, &not_authorized(order, fresh()));
    let outcome = store.deliver(INVENTORY_EVENTS_TOPIC, &not_released(order, reservation));
    assert_eq!(outcome, HandleOutcome::Applied);
    assert_eq!(store.status(order), OrderStatus::ManualReview);
    assert_eq!(
        store.letters,
        vec![("COMPENSATION_EXHAUSTED".to_string(), "STOCK_LOCKED".to_string())]
    );
    let unknown = fresh();
    let mut lost = not_released(unknown, fresh());
    lost.aggregate_version = 1;
    assert_eq!(store.deliver(INVENTORY_EVENTS_TOPIC, &lost), HandleOutcome::Poison);
    let codes: Vec<&str> = store.letters.iter().map(|l| l.0.as_str()).collect();
    assert_eq!(
        codes,
        vec!["COMPENSATION_EXHAUSTED", "COMPENSATION_EXHAUSTED", "UNKNOWN_ORDER"]
    );
}

#[test]
fn duplicated_and_reordered_outcomes_do_not_create_illegal_transitions() {
    let mut store = Store::new();
    let order = choreo_order(&mut store);
    let outcome = store.deliver(PAYMENTS_EVENTS_TOPIC, &authorized(order, fresh()));
    assert_eq!(
        outcome,
        HandleOutcome::Applied,
        "the record is consumed (inbox-marked) even though the transition itself is a no-op"
    );
    assert_eq!(store.status(order), OrderStatus::Pending);
    let redelivered = reserved(order, fresh());
    assert_eq!(
        store.deliver(INVENTORY_EVENTS_TOPIC, &redelivered),
        HandleOutcome::Applied
    );
    let sent = store.outbox.len();
    assert_eq!(
        store.deliver(INVENTORY_EVENTS_TOPIC, &redelivered),
        HandleOutcome::Duplicate
    );
    assert_eq!(store.outbox.len(), sent);
    assert_eq!(store.status(order), OrderStatus::InventoryReserved);
}

#[test]
fn unknown_order_reference_does_not_block_the_partition() {
    let mut store = Store::new();
    let unknown = fresh();
    let order = choreo_order(&mut store);
    let mut faults = FaultInjector::new();
    let mut batch = Batch::start(0, 2);
    let poison = store.deliver(INVENTORY_EVENTS_TOPIC, &reserved(unknown, fresh()));
    let step = batch.settle(poison, 0, &mut faults, FAULT_AFTER_DB_COMMIT_BEFORE_OFFSET_COMMIT);
    assert_eq!(step, BatchStep::Continue { commit: Some(1) });
    let valid = store.deliver(INVENTORY_EVENTS_TOPIC, &reserved(order, fresh()));
    let step = batch.settle(valid, 1, &mut faults, FAULT_AFTER_DB_COMMIT_BEFORE_OFFSET_COMMIT);
    assert_eq!(step, BatchStep::Continue { commit: Some(2) });
    let summary = batch.summary;
    assert!(!summary.stopped_by_fault);
    assert_eq!(summary.poison, 1, "the unknown-order record is DLQ'd");
    assert_eq!(summary.applied, 1, "the real order right behind it still applies");
    assert_eq!(store.status(order), OrderStatus::InventoryReserved);
    assert_eq!(
        store.letters,
        vec![(
            "UNKNOWN_ORDER".to_string(),
            format!(
                "reservation_succeeded for unknown order {}",
                uuid::Uuid::from_u128(unknown)
            )
        )]
    );
}

#[test]
fn correlation_and_causation_chain_is_complete() {
    let mut store = Store::new();
    let order = choreo_order(&mut store);
    let created = &store.outbox[0];
    assert_eq!(created.topic, ORDER_CREATED_TOPIC);
    assert_eq!(created.envelope.correlation_id, 77);
    let reserve = store.commands(order, INVENTORY_COMMANDS_TOPIC)[0];
    assert_eq!(reserve.envelope.correlation_id, 77);
    assert_eq!(reserve.envelope.event_id, reserve.id);
    assert_eq!(reserve.envelope.causation_id, created.envelope.event_id);
    let outcome = reserved(order, fresh());
    store.deliver(INVENTORY_EVENTS_TOPIC, &outcome);
    let authorize = store.commands(order, PAYMENTS_COMMANDS_TOPIC)[0];
    assert_eq!(
        authorize.envelope.correlation_id, 77,
        "correlation_id propagates across the whole chain"
    );
    assert_eq!(
        authorize.envelope.causation_id, outcome.event_id,
        "causation_id points at the exact event that triggered this command"
    );
    assert_eq!(authorize.envelope.traceparent.as_deref(), Some("00-trace-01"));
    assert_eq!(
        authorize.message_key,
        uuid::Uuid::from_u128(order).to_string()
    );
}

#[test]
fn each_refusal_has_its_code() {
    let mut store = Store::new();
    let order = choreo_order(&mut store);

    let mut wrong_version = reserved(order, fresh());
    wrong_version.schema_version = 9;
    assert_eq!(
        store.deliver(INVENTORY_EVENTS_TOPIC, &wrong_version),
        HandleOutcome::Poison
    );
    let mut unknown_type = reserved(order, fresh());
    unknown_type.event_type = "inventory.mystery";
    store.deliver(INVENTORY_EVENTS_TOPIC, &unknown_type);

    let taken = reserved(order, fresh());
    store.deliver(INVENTORY_EVENTS_TOPIC, &taken);
    let mut changed = reserved(order, fresh());
    changed.event_id = taken.event_id;
    changed.json = "{\"changed\": true}".to_string();
    assert_eq!(
        store.deliver(INVENTORY_EVENTS_TOPIC, &changed),
        HandleOutcome::Poison
    );

    let mut early = authorized(order, 5);
    early.aggregate_version = 3;
    assert_eq!(store.deliver(PAYMENTS_EVENTS_TOPIC, &early), HandleOutcome::Poison);
    assert_eq!(store.deliver(PAYMENTS_EVENTS_TOPIC, &early), HandleOutcome::Duplicate);

    let mut shapeless = fulfilled(order, fresh());
    shapeless.payload = None;
    assert_eq!(
        store.deliver(FULFILMENT_EVENTS_TOPIC, &shapeless),
        HandleOutcome::Poison
    );
    assert!(fetch(&store.inbox.events, CONSUMER_NAME, shapeless.event_id).is_none());

    let pending = choreo_order(&mut store);
    store.deliver(PAYMENTS_EVENTS_TOPIC, &not_authorized(pending, fresh()));
    store.deliver(FULFILMENT_EVENTS_TOPIC, &not_fulfilled(pending, fresh()));
    store.deliver(FULFILMENT_EVENTS_TOPIC, &fulfilled(31, 17));

    let text = |id: u128| uuid::Uuid::from_u128(id).to_string();
    assert_eq!(
        store.letters,
        vec![
            (
                "UNSUPPORTED_SCHEMA".to_string(),
                "unknown type/version pair inventory.reservation_succeeded/9".to_string()
            ),
            (
                "UNSUPPORTED_SCHEMA".to_string(),
                "unknown event type inventory.mystery".to_string()
            ),
            (
                "INBOX_HASH_MISMATCH".to_string(),
                "same event id redelivered with a different payload".to_string()
            ),
            (
                "EXPECTED_VERSION_GAP".to_string(),
                format!("aggregate {} version 3 arrived out of order", text(5))
            ),
            (
                "MALFORMED_PAYLOAD".to_string(),
                "payload did not match fulfilment_created shape: no such shape".to_string()
            ),
            (
                "MISSING_RESERVATION_ID".to_string(),
                format!(
                    "payment_failed for order {} with no recorded reservation_id",
                    text(pending)
                )
            ),
            (
                "UNKNOWN_ORDER".to_string(),
                format!(
                    "fulfilment_failed for unknown or incomplete order {}",
                    text(pending)
                )
            ),
            (
                "UNKNOWN_ORDER".to_string(),
                format!(
                    "fulfilment.fulfilment_created (aggregate {}) referenced an order this consumer has no row for",
                    text(17)
                )
            ),
        ]
    );
}

#[test]
fn stale_versions_are_noted_and_dropped() {
    let mut store = Store::new();
    let order = choreo_order(&mut store);
    let reservation = fresh();
    store.deliver(INVENTORY_EVENTS_TOPIC, &reserved(order, reservation));
    let stale = reserved(order, reservation);
    let sent = store.outbox.len();
    assert_eq!(store.deliver(INVENTORY_EVENTS_TOPIC, &stale), HandleOutcome::Stale);
    assert_eq!(store.outbox.len(), sent);
    assert_eq!(
        store.deliver(INVENTORY_EVENTS_TOPIC, &stale),
        HandleOutcome::Duplicate
    );
}

#[test]
fn records_that_cannot_be_read_become_dead_letters() {
    let facts = InboxFacts {
        claimed_hash: None,
        last_version: None,
    };
    let ids = Fresh::draw();
    let header: Result<Envelope<()>, String> = Err("expected value at line 1 column 1".to_string());
    let payload: Result<Outcome, String> = Err("unread".to_string());
    let mut record = ConsumedRecord {
        offset: 12,
        key: Some(vec![b'k', 0xff]),
        value: Some(b"not json".to_vec()),
        headers: Vec::new(),
    };
    let handled =
        handle_one("topic", &record, &header, &payload, &facts, None, &ids, now()).unwrap();
    assert_eq!(handled.outcome, HandleOutcome::Poison);
    assert_eq!(handled.effects.len(), 1);
    match &handled.effects[0] {
        Effect::PublishDlq(letter) => {
            assert_eq!(letter.error_code, "MALFORMED_ENVELOPE");
            assert_eq!(
                letter.error_detail,
                "envelope did not parse as JSON: expected value at line 1 column 1"
            );
            assert_eq!(letter.original_key.as_deref(), Some("k\u{fffd}"));
            assert_eq!(letter.original_offset, 12);
            assert_eq!(letter.original_topic, "topic");
            assert_eq!(letter.attempts, 1);
            assert_eq!(letter.replay_count, 0);
            assert!(letter.envelope.is_none());
        }
        _ => panic!("another effect"),
    }
    record.value = None;
    record.key = None;
    let handled =
        handle_one("topic", &record, &header, &payload, &facts, None, &ids, now()).unwrap();
    match &handled.effects[0] {
        Effect::PublishDlq(letter) => {
            assert_eq!(letter.error_detail, "record has no value");
            assert_eq!(letter.original_key.as_deref(), Some(""));
        }
        _ => panic!("another effect"),
    }
    record.value = Some(b"{\"event_id\": 1}".to_vec());
    let header = Ok(reserved(1, 2).header());
    let handled =
        handle_one("topic", &record, &header, &payload, &facts, None, &ids, now()).unwrap();
    match &handled.effects[0] {
        Effect::PublishDlq(letter) => assert_eq!(
            letter.error_detail,
            "envelope did not parse as JSON: missing field `payload`"
        ),
        _ => panic!("another effect"),
    }
}

#[test]
fn an_order_without_its_reservation_stops_the_batch() {
    let mut store = Store::new();
    let order = choreo_order(&mut store);
    store.deliver(INVENTORY_EVENTS_TOPIC, &reserved(order, fresh()));
    let mut saga = store.sagas[&order].clone();
    saga.reservation_id = None;
    let message = authorized(order, fresh());
    let record = ConsumedRecord {
        offset: 0,
        key: None,
        value: Some(b"{\"payload\": {}}".to_vec()),
        headers: Vec::new(),
    };
    let facts = InboxFacts {
        claimed_hash: None,
        last_version: None,
    };
    let payload = Ok((message.payload.as_ref().unwrap())());
    let result = handle_record(
        PAYMENTS_EVENTS_TOPIC,
        &record,
        &Ok(message.header()),
        &payload,
        &facts,
        Some(saga),
    );
    assert_eq!(result.unwrap_err(), HandleError::MissingReservation);
}

#[test]
fn payload_hashes_are_digests_of_compact_json() {
    let mut store = Store::new();
    let order = choreo_order(&mut store);
    let mut spaced = reserved(order, fresh());
    spaced.json = "{ \"b\" : [1, 2.50],  \"a\":\"x\" }".to_string();
    store.deliver(INVENTORY_EVENTS_TOPIC, &spaced);
    let digest = <sha2::Sha256 as sha2::Digest>::digest(b"{\"a\":\"x\",\"b\":[1,2.5]}");
    let at = fetch(&store.inbox.events, CONSUMER_NAME, spaced.event_id).unwrap();
    assert_eq!(store.inbox.events[at].payload_hash, hex::encode(digest));
    assert_eq!(
        payload_hash(&b"abc".to_vec()),
        "ba7816bf8f01cfea414140de5dae2223b00361a396177a9cb410ff61f20015ad"
    );
}

#[test]
fn a_fault_between_commit_and_offset_stops_the_batch() {
    let mut faults = FaultInjector::new();
    faults.configure(
        FAULT_AFTER_DB_COMMIT_BEFORE_OFFSET_COMMIT,
        FaultConfig {
            fail_next: 1,
            subject_filter: Some("41".to_string()),
            delay_ms: Some(3),
        },
    );
    let mut batch = Batch::start(40, 3);
    let point = FAULT_AFTER_DB_COMMIT_BEFORE_OFFSET_COMMIT;
    assert_eq!(
        batch.settle(HandleOutcome::Stale, 40, &mut faults, point),
        BatchStep::Continue { commit: Some(41) }
    );
    assert_eq!(
        batch.settle(HandleOutcome::Applied, 41, &mut faults, point),
        BatchStep::Stop { delay_ms: Some(3) }
    );
    assert_eq!(
        batch.summary,
        ProcessSummary {
            records_seen: 3,
            applied: 1,
            duplicate: 0,
            stale: 1,
            poison: 0,
            stopped_by_fault: true
        }
    );
}

#[test]
fn concurrent_identical_idempotent_requests_yield_one_order() {
    let mut store = Store::new();
    let mut ids = Vec::new();
    for _ in 0..10 {
        let normalized = validate_and_normalize(sample_request()).unwrap();
        let outcome = store
            .create("concurrent-key-001", &normalized, fresh(), DeliveryMode::Outbox)
            .expect("create_order must not fail under contention");
        ids.push(outcome.order.id);
    }
    ids.dedup();
    assert_eq!(ids.len(), 1, "all callers must observe the same order id");
    assert_eq!(store.sagas.len(), 1, "exactly one order row must exist");
    assert_eq!(store.items[&ids[0]].len(), 2, "items must not be duplicated across retries");
}

#[test]
fn reused_idempotency_key_with_different_body_is_rejected() {
    let mut store = Store::new();
    let first = validate_and_normalize(sample_request()).unwrap();
    store.create("reuse-key-001", &first, fresh(), DeliveryMode::Outbox).unwrap();
    let mut different = sample_request();
    different.items.push(ItemRequest {
        sku: "SKU-3".to_string(),
        quantity: 1,
        unit_price_minor: 100,
    });
    let different = validate_and_normalize(different).unwrap();
    let result = store.create("reuse-key-001", &different, fresh(), DeliveryMode::Outbox);
    assert!(matches!(result, Err(RepoError::IdempotencyKeyReused)));
    assert_eq!(store.sagas.len(), 1, "the rejected request must not create a second order");
}

#[test]
fn same_key_same_body_replays_original_order() {
    let mut store = Store::new();
    let normalized = validate_and_normalize(sample_request()).unwrap();
    let first = store
        .create("replay-key-001", &normalized, fresh(), DeliveryMode::Naive)
        .unwrap();
    let mut reordered = sample_request();
    reordered.items.reverse();
    let reordered = validate_and_normalize(reordered).unwrap();
    let second = store
        .create("replay-key-001", &reordered, fresh(), DeliveryMode::Naive)
        .unwrap();
    assert_eq!(first.order.id, second.order.id);
    assert_eq!(first.order.correlation_id, second.order.correlation_id);
    assert!(first.created);
    assert!(!second.created, "second call must be a replay, not a fresh insert");
    assert!(store.outbox.is_empty());
}

#[test]
fn transaction_rollback_produces_neither_order_nor_outbox_event() {
    let mut store = Store::new();
    let normalized = NormalizedOrder {
        items: vec![
            ItemRequest {
                sku: "DUP".to_string(),
                quantity: 1,
                unit_price_minor: 100,
            },
            ItemRequest {
                sku: "DUP".to_string(),
                quantity: 2,
                unit_price_minor: 100,
            },
        ],
        currency: "USD".to_string(),
        amount_minor: 300,
    };
    let result = store.create_with(
        "rollback-test-1",
        &normalized,
        fresh(),
        |order_id, order_version, _command_version| {
            vec![new_outbox_event(order_id, order_version)]
        },
    );
    assert!(
        matches!(result, Err(RepoError::Storage(_))),
        "the duplicate order_items primary key must fail the transaction"
    );
    assert!(
        store.by_key("rollback-test-1").is_none(),
        "no order row should survive the rollback"
    );
    assert_eq!(store.outbox.len(), 0, "no outbox row should survive the rollback");
}

fn sample_normalized(currency: &str) -> NormalizedOrder {
    NormalizedOrder {
        items: vec![ItemRequest {
            sku: "SKU-OUTBOX".to_string(),
            quantity: 1,
            unit_price_minor: 500,
        }],
        currency: currency.to_string(),
        amount_minor: 500,
    }
}

fn new_outbox_event(order_id: u128, order_version: i64) -> NewOutboxEvent {
    NewOutboxEvent {
        id: fresh(),
        aggregate_type: ORDER_AGGREGATE_TYPE.to_string(),
        aggregate_id: order_id,
        aggregate_version: order_version,
        topic: ORDER_CREATED_TOPIC.to_string(),
        message_key: uuid::Uuid::from_u128(order_id).to_string(),
        envelope: Envelope {
            event_id: fresh(),
            event_type: "orders.order_created".to_string(),
            schema_version: 1,
            occurred_at: now(),
            producer: "orders".to_string(),
            aggregate_type: ORDER_AGGREGATE_TYPE.to_string(),
            aggregate_id: order_id,
            aggregate_version: order_version,
            correlation_id: fresh(),
            causation_id: fresh(),
            traceparent: None,
            payload: EventPayload::OrderCreated(OrderCreatedPayload {
                order_id,
                items: Vec::new(),
                amount: OrderCreatedAmount {
                    currency: "USD".to_string(),
                    minor_units: 500,
                },
            }),
        },
    }
}

#[test]
fn committed_order_has_exactly_one_outbox_row() {
    let mut store = Store::new();
    let normalized = sample_normalized("USD");
    let key = "single-outbox-row-1";
    let build = |order_id, order_version, _command_version| {
        vec![new_outbox_event(order_id, order_version)]
    };
    let first = store.create_with(key, &normalized, fresh(), build).unwrap();
    assert!(first.created);
    let rows = |store: &Store| {
        store.outbox.iter().filter(|e| e.aggregate_id == first.order.id).count()
    };
    assert_eq!(rows(&store), 1, "exactly one outbox row per committed business change");
    assert_eq!(store.sagas[&first.order.id].inventory_commands, 0);
    let second = store.create_with(key, &normalized, fresh(), build).unwrap();
    assert!(!second.created, "the replay must not create a second order");
    assert_eq!(rows(&store), 1, "a replay must not add a second outbox row");
}

#[test]
fn a_new_order_is_announced_once_and_asks_for_its_stock() {
    let mut store = Store::new();
    let normalized = validate_and_normalize(sample_request()).unwrap();
    let first = store
        .create("announced-once-1", &normalized, fresh(), DeliveryMode::Outbox)
        .unwrap();
    assert!(first.created);
    let announcements = |store: &Store| store.commands(first.order.id, ORDER_CREATED_TOPIC).len();
    assert_eq!(announcements(&store), 1);
    assert_eq!(store.outbox.len(), 2);
    assert_eq!(store.sagas[&first.order.id].inventory_commands, 1);
    let second = store
        .create("announced-once-1", &normalized, fresh(), DeliveryMode::Outbox)
        .unwrap();
    assert!(!second.created, "the replay must not create a second order");
    assert_eq!(announcements(&store), 1, "a replay must not add a second outbox row");
    assert_eq!(store.outbox.len(), 2);
    match &store.outbox[1].envelope.payload {
        EventPayload::ReserveInventory(p) => {
            assert_eq!(p.expected_order_version, 1);
            assert_eq!(p.items.len(), 2);
            assert_eq!(p.items[0].sku, "SKU-1");
        }
        _ => panic!("another payload"),
    }
}

fn pending_order(key: &str) -> OrderRow {
    let mut store = Store::new();
    let normalized = validate_and_normalize(sample_request()).unwrap();
    store.create(key, &normalized, fresh(), DeliveryMode::Outbox).unwrap().order
}

#[test]
fn illegal_transition_is_rejected_without_partial_write() {
    let order = pending_order("illegal-key-001");
    assert_eq!(order.status, OrderStatus::Pending);
    assert_eq!(order.version, 1);
    let result = transition_order(
        Some(order),
        1,
        OrderStatus::Completed,
        Some("attempted illegal jump".to_string()),
        now(),
    );
    assert_eq!(
        result.unwrap_err(),
        TransitionError::IllegalTransition {
            from: OrderStatus::Pending,
            to: OrderStatus::Completed
        }
    );
}

#[test]
fn stale_expected_version_is_rejected_without_partial_write() {
    let order = pending_order("stale-key-001");
    let stale_expected_version = order.version + 41;
    let result = transition_order(
        Some(order),
        stale_expected_version,
        OrderStatus::InventoryReserved,
        Some("stale caller".to_string()),
        now(),
    );
    assert_eq!(
        result.unwrap_err(),
        TransitionError::VersionConflict {
            expected: stale_expected_version
        }
    );
}

#[test]
fn legal_transition_with_correct_version_succeeds_and_is_recorded() {
    let order = pending_order("legal-key-001");
    let id = order.id;
    let (updated, record) = transition_order(
        Some(order),
        1,
        OrderStatus::InventoryReserved,
        Some("inventory reserved".to_string()),
        now(),
    )
    .unwrap();
    assert_eq!(updated.status, OrderStatus::InventoryReserved);
    assert_eq!(updated.version, 2);
    assert_eq!(record.order_id, id);
    assert_eq!(record.from_status, Some(OrderStatus::Pending));
    assert_eq!(record.to_status, OrderStatus::InventoryReserved);
    assert_eq!(record.order_version, 2);
    assert_eq!(record.reason.as_deref(), Some("inventory reserved"));
    assert_eq!(record.triggering_event_id, None);
}

#[test]
fn transition_on_missing_order_is_not_found() {
    let result = transition_order(None, 1, OrderStatus::InventoryReserved, None, now());
    assert_eq!(result.unwrap_err(), TransitionError::NotFound);
}

#[test]
fn correlation_id_is_echoed_when_supplied_and_generated_when_absent() {
    let mut store = Store::new();
    let supplied = uuid::Uuid::now_v7().to_string();
    let accepted =
        accept_request(Some("corr-key-001"), Some(&supplied), sample_request()).unwrap();
    let outcome = store
        .create(
            &accepted.idempotency_key,
            &accepted.order,
            accepted.correlation_id,
            DeliveryMode::Naive,
        )
        .unwrap();
    let response = accepted_response(outcome);
    assert_eq!(response.status, 202);
    assert_eq!(response.correlation_id, supplied);
    assert_eq!(
        uuid::Uuid::from_u128(response.body.correlation_id).to_string(),
        supplied
    );
    let generated = extract_or_generate_correlation_id(None);
    assert_eq!((generated >> 76) & 0xf, 7);
    let replaced = extract_or_generate_correlation_id(Some("not a uuid"));
    assert_eq!((replaced >> 76) & 0xf, 7);
    assert_eq!(
        extract_or_generate_correlation_id(Some("{018F0D56-9D45-7C01-A0AA-000000000001}")),
        0x018f0d569d457c01a0aa000000000001
    );
}

#[test]
fn create_then_get_order_and_transitions_round_trip() {
    let mut store = Store::new();
    let body = CreateOrderRequest {
        items: vec![ItemRequest {
            sku: "SKU-1".to_string(),
            quantity: 2,
            unit_price_minor: 1250,
        }],
        currency: "USD".to_string(),
    };
    let accepted = accept_request(Some("http-key-001"), None, body).unwrap();
    let outcome = store
        .create(
            &accepted.idempotency_key,
            &accepted.order,
            accepted.correlation_id,
            DeliveryMode::Naive,
        )
        .unwrap();
    let id = outcome.order.id;
    let response = accepted_response(outcome);
    assert_eq!(response.body.status, OrderStatus::Pending);
    assert_eq!(response.body.amount_minor, 2500);
    let text = uuid::Uuid::from_u128(id).to_string();
    assert_eq!(response.location, format!("/v1/orders/{text}"));
    assert_eq!(
        response.body.links.transitions,
        format!("/v1/orders/{text}/transitions")
    );
    let found = (store.sagas[&id].order.clone(), store.items[&id].clone());
    let fetched = get_order(Some(found)).unwrap();
    assert_eq!(fetched.id, id);
    assert_eq!(fetched.version, 1);
    assert_eq!(fetched.items[0].quantity, 2);
    let shown = get_transitions(Some(store.transitions.clone())).unwrap();
    assert_eq!(shown.len(), 1);
    assert_eq!(shown[0].to_status, OrderStatus::Pending);
    assert_eq!(shown[0].reason.as_deref(), Some("order created"));
}

#[test]
fn reused_idempotency_key_different_body_returns_409() {
    let error = ApiError::from_repo(RepoError::IdempotencyKeyReused);
    let (status, problem) = error.response();
    assert_eq!(status, 409);
    assert_eq!(problem.code, "IDEMPOTENCY_KEY_REUSED");
    assert_eq!(problem.title, "Idempotency Key Reused");
    assert_eq!(
        problem.detail,
        "idempotency key reused with a different request body"
    );
    let (status, problem) = ApiError::from_repo(RepoError::Storage("gone".to_string())).parts(5);
    assert_eq!(status, 500);
    assert_eq!(problem.code, "INTERNAL_ERROR");
    assert_eq!(problem.detail, "gone");
    assert_eq!(problem.request_id, 5);
}

#[test]
fn missing_idempotency_key_returns_400() {
    let error = accept_request(None, None, sample_request()).unwrap_err();
    let (status, problem) = error.parts(1);
    assert_eq!(status, 400);
    assert_eq!(problem.code, "INVALID_IDEMPOTENCY_KEY");
    assert_eq!(problem.type_, "about:blank");
    assert_eq!(problem.detail, "missing or invalid Idempotency-Key header");
}

#[test]
fn idempotency_keys_are_eight_to_128_printable_characters() {
    assert_eq!(extract_idempotency_key(Some("12345 78")).unwrap(), "12345 78");
    assert!(extract_idempotency_key(Some(&"k".repeat(128))).is_ok());
    for bad in ["1234567", "tab\tcharacter", "schlüssel-1"] {
        match extract_idempotency_key(Some(bad)) {
            Err(ApiError::InvalidIdempotencyKey(detail)) => assert_eq!(
                detail,
                "Idempotency-Key must be 8-128 printable characters"
            ),
            _ => panic!("accepted {bad}"),
        }
    }
    assert!(extract_idempotency_key(Some(&"k".repeat(129))).is_err());
}

#[test]
fn a_refused_key_is_refused_in_words() {
    for (header, words) in [
        (None, "Idempotency-Key header is required"),
        (Some("short"), "Idempotency-Key must be 8-128 printable characters"),
    ] {
        match accept_request(header, None, sample_request()) {
            Err(ApiError::InvalidIdempotencyKey(text)) => assert_eq!(text, words),
            _ => panic!("accepted {header:?}"),
        }
    }
}

#[test]
fn invalid_items_return_400_validation_failed() {
    let body = CreateOrderRequest {
        items: Vec::new(),
        currency: "USD".to_string(),
    };
    let error = accept_request(Some("http-key-003"), None, body).unwrap_err();
    let (status, problem) = error.parts(1);
    assert_eq!(status, 400);
    assert_eq!(problem.code, "VALIDATION_FAILED");
    assert_eq!(problem.title, "Validation Failed");
}

#[test]
fn get_missing_order_returns_404() {
    let error = get_order(None).unwrap_err();
    let (status, problem) = error.parts(1);
    assert_eq!(status, 404);
    assert_eq!(problem.code, "ORDER_NOT_FOUND");
    assert!(get_transitions(None).is_err());
}

fn outcome_of(key: &str, created: bool) -> order_choreography::orders::repository::CreateOutcome {
    let mut store = Store::new();
    let normalized = validate_and_normalize(sample_request()).unwrap();
    let mut outcome = store.create(key, &normalized, 5, DeliveryMode::Naive).unwrap();
    outcome.created = created;
    outcome
}

#[test]
fn dual_write_db_commit_without_event() {
    let mut faults = FaultInjector::new();
    let status = put_fault(
        &mut faults,
        "integration-test-token",
        Some("integration-test-token"),
        FAULT_AFTER_DB_COMMIT_BEFORE_PUBLISH,
        FaultConfig {
            fail_next: 1,
            subject_filter: None,
            delay_ms: None,
        },
    )
    .unwrap();
    assert_eq!(status, 204);
    let outcome = outcome_of("dual-write-gap-1", true);
    let failure = publish_naive(&mut faults, &outcome, 5).unwrap_err();
    let (status, problem) = failure.error.response();
    assert_eq!(status, 503);
    assert_eq!(problem.code, "INJECTED_FAULT");
    assert_eq!(
        problem.detail,
        "injected fault fired: orders.after_db_commit_before_publish"
    );
}

#[test]
fn dual_write_publish_then_retry_duplicate() {
    let mut faults = FaultInjector::new();
    faults.configure(
        FAULT_AFTER_PUBLISH_BEFORE_RESPONSE,
        FaultConfig {
            fail_next: 1,
            subject_filter: None,
            delay_ms: Some(9),
        },
    );
    let first = outcome_of("dual-write-gap-2", true);
    let publication = publish_naive(&mut faults, &first, 5).unwrap();
    assert_eq!(publication.topic, "orders.events.v1");
    assert_eq!(publication.key, uuid::Uuid::from_u128(first.order.id).to_string());
    let published = publication.envelope;
    let failure = naive_completion(&mut faults, first.order.id, Ok(())).unwrap_err();
    assert_eq!(failure.delay_ms, Some(9));
    assert_eq!(failure.error.response().0, 503);
    let mut retry = first;
    retry.created = false;
    let republished = publish_naive(&mut faults, &retry, 5).unwrap().envelope;
    assert!(naive_completion(&mut faults, retry.order.id, Ok(())).is_ok());
    assert_ne!(published.event_id, republished.event_id);
    assert_eq!(published.aggregate_id, republished.aggregate_id);
    assert_eq!(published.event_type, "orders.order_created");
    assert_eq!(published.correlation_id, 5);
    assert_eq!(published.aggregate_version, 1);
    let refused = naive_completion(&mut faults, retry.order.id, Err("down".to_string()));
    let (status, problem) = refused.unwrap_err().error.response();
    assert_eq!(status, 503);
    assert_eq!(problem.code, "EVENT_PUBLISH_FAILED");
    assert_eq!(problem.detail, "failed to publish event: down");
}

#[test]
fn a_repeated_request_does_not_ask_the_first_fault_point() {
    let mut faults = FaultInjector::new();
    faults.configure(
        FAULT_AFTER_DB_COMMIT_BEFORE_PUBLISH,
        FaultConfig {
            fail_next: 1,
            subject_filter: None,
            delay_ms: None,
        },
    );
    let outcome = outcome_of("replayed-key", false);
    assert!(publish_naive(&mut faults, &outcome, 5).is_ok());
    assert_eq!(faults.snapshot().len(), 1);
}

#[test]
fn only_the_token_holder_controls_faults() {
    assert!(check_test_token("secret", Some("secret")).is_ok());
    assert!(check_test_token("secret", Some("other")).is_err());
    assert!(check_test_token("secret", None).is_err());
    assert!(check_test_token("", Some("")).is_err());
    let mut faults = FaultInjector::new();
    let config = FaultConfig {
        fail_next: 1,
        subject_filter: None,
        delay_ms: None,
    };
    let error = put_fault(&mut faults, "secret", Some("no"), "x", config.clone()).unwrap_err();
    let (status, problem) = error.response();
    assert_eq!(status, 403);
    assert_eq!(problem.code, "FAULT_CONTROL_FORBIDDEN");
    assert!(faults.snapshot().is_empty());
    put_fault(&mut faults, "secret", Some("secret"), "x", config).unwrap();
    assert!(delete_faults(&mut faults, "secret", None).is_err());
    assert_eq!(faults.snapshot().len(), 1);
    assert_eq!(delete_faults(&mut faults, "secret", Some("secret")).unwrap(), 204);
    assert!(faults.snapshot().is_empty());
}

#[test]
fn concurrent_identical_http_requests_yield_one_order_and_same_response() {
    let mut store = Store::new();
    let mut bodies = Vec::new();
    for turn in 0..8 {
        let accepted =
            accept_request(Some("http-concurrent-001"), None, sample_request()).unwrap();
        let outcome = store
            .create(
                &accepted.idempotency_key,
                &accepted.order,
                accepted.correlation_id,
                DeliveryMode::Outbox,
            )
            .unwrap();
        assert_eq!(outcome.created, turn == 0);
        let response = accepted_response(outcome);
        assert_eq!(response.status, 202);
        bodies.push(format!("{:?} {}", response.body, response.location));
    }
    assert_eq!(store.sagas.len(), 1, "all callers must observe the same order id");
    bodies.dedup();
    assert_eq!(bodies.len(), 1, "all callers must observe the same response body");
}

#[test]
fn outbox_mode_closes_the_naive_lost_event_window() {
    let mut store = Store::new();
    let mut faults = FaultInjector::new();
    let configured = put_fault(
        &mut faults,
        "test-token",
        Some("test-token"),
        FAULT_AFTER_DB_COMMIT_BEFORE_PUBLISH,
        FaultConfig {
            fail_next: 1,
            subject_filter: None,
            delay_ms: None,
        },
    );
    assert_eq!(configured.unwrap(), 204);

    let accepted = accept_request(Some("outbox-lost-event-1"), None, sample_request()).unwrap();
    let outcome = store
        .create(
            &accepted.idempotency_key,
            &accepted.order,
            accepted.correlation_id,
            DeliveryMode::Outbox,
        )
        .unwrap();
    let order = outcome.order.id;
    assert_eq!(
        accepted_response(outcome).status,
        202,
        "outbox mode must not fail the request on a fault point it never reaches"
    );
    let announced = store.commands(order, ORDER_CREATED_TOPIC);
    assert_eq!(
        announced.len(),
        1,
        "the outbox row must exist immediately, before any publisher has ever run"
    );
    assert_eq!(faults.snapshot().len(), 1);
}

#[test]
fn counters_without_room_are_recognised() {
    let mut store = Store::new();
    let order = choreo_order(&mut store);
    let mut saga = store.sagas[&order].clone();
    assert!(saga.has_room());
    saga.order.version = i64::MAX - 1;
    assert!(!saga.has_room());
    saga.order.version = i64::MAX - 2;
    assert!(saga.has_room());
    saga.payments_commands = i64::MAX;
    assert!(!saga.has_room());
}

#[test]
fn a_gap_is_put_aside_once() {
    let mut store = Store::new();
    let order = choreo_order(&mut store);
    let mut early = reserved(order, fresh());
    early.aggregate_version = 2;
    assert_eq!(store.deliver(INVENTORY_EVENTS_TOPIC, &early), HandleOutcome::Poison);
    assert_eq!(store.letters.len(), 1);
    assert_eq!(store.letters[0].0, "EXPECTED_VERSION_GAP");
    assert_eq!(store.deliver(INVENTORY_EVENTS_TOPIC, &early), HandleOutcome::Duplicate);
    assert_eq!(store.letters.len(), 1);
    assert_eq!(store.status(order), OrderStatus::Pending);
}
