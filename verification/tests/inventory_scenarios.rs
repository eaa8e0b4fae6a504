use std::collections::HashMap;

use order_choreography::consuming::{
    outcome_label, Batch, BatchStep, Effect, HandleOutcome, Handled,
};
use order_choreography::contracts::inventory::{
    ReleaseInventoryPayload, ReserveInventoryItem, ReserveInventoryPayload,
    INVENTORY_COMMANDS_TOPIC, RELEASE_INVENTORY_COMMAND_TYPE, RESERVE_INVENTORY_COMMAND_TYPE,
};
use order_choreography::contracts::{Envelope, EventPayload};
use order_choreography::inventory::consumer::{
    handle_record, Command as Asked, InventoryTables, InventoryWrites, CONSUMER_NAME,
    FAULT_AFTER_DB_COMMIT_BEFORE_OFFSET_COMMIT,
};
use order_choreography::inventory::domain::{
    validate_items, ReservationLine, ReservationStatus,
};
use order_choreography::inventory::errors::ApiError;
use order_choreography::inventory::repository::{
    release, reserve, seed_stock, ReleaseError, ReservationRow, StockRow,
};
use order_choreography::ledger::Inbox;
use order_choreography::messaging::ConsumedRecord;
use order_choreography::persistence::metrics::{record_result, ConsumerMetrics};
use order_choreography::persistence::outbox::NewOutboxEvent;
use order_choreography::test_support::{FaultConfig, FaultInjector};
use order_choreography::time::{Clock, SystemClock, Timestamp};

fn fresh() -> u128 {
    uuid::Uuid::now_v7().as_u128()
}

fn now() -> Timestamp {
    SystemClock.now()
}

/// The tables of the service, in memory.
struct Store {
    stock: Vec<StockRow>,
    reservations: HashMap<u128, ReservationRow>,
    items: HashMap<u128, Vec<ReservationLine>>,
    inbox: Inbox,
    outbox: Vec<NewOutboxEvent>,
    letters: Vec<(String, String)>,
}

struct Command {
    event_id: u128,
    event_type: &'static str,
    schema_version: u32,
    order_id: u128,
    version: i64,
    json: String,
    payload: Asked,
}

fn reserve_command(order_id: u128, version: i64, lines: &[(&str, i64)]) -> Command {
    Command {
        event_id: fresh(),
        event_type: RESERVE_INVENTORY_COMMAND_TYPE,
        schema_version: 1,
        order_id,
        version,
        json: format!("{{\"order_id\": \"{order_id}\", \"lines\": {}}}", lines.len()),
        payload: Asked::Reserve(ReserveInventoryPayload {
            order_id,
            items: lines
                .iter()
                .map(|(sku, quantity)| ReserveInventoryItem {
                    sku: sku.to_string(),
                    quantity: *quantity,
                })
                .collect(),
            expected_order_version: 1,
        }),
    }
}

fn release_command(order_id: u128, version: i64) -> Command {
    Command {
        event_id: fresh(),
        event_type: RELEASE_INVENTORY_COMMAND_TYPE,
        schema_version: 1,
        order_id,
        version,
        json: "{}".to_string(),
        payload: Asked::Release(ReleaseInventoryPayload {
            order_id,
            reservation_id: 0,
            reason: "CARD_DECLINED".to_string(),
        }),
    }
}

fn copy(payload: &Asked) -> Asked {
    match payload {
        Asked::Reserve(p) => {
            Asked::Reserve(ReserveInventoryPayload {
                order_id: p.order_id,
                items: p
                    .items
                    .iter()
                    .map(|i| ReserveInventoryItem {
                        sku: i.sku.clone(),
                        quantity: i.quantity,
                    })
                    .collect(),
                expected_order_version: p.expected_order_version,
            })
        }
        Asked::Release(p) => {
            Asked::Release(ReleaseInventoryPayload {
                order_id: p.order_id,
                reservation_id: p.reservation_id,
                reason: p.reason.clone(),
            })
        }
    }
}

impl Store {
    fn seeded(stock: &[(&str, i64)]) -> Self {
        Store {
            stock: stock
                .iter()
                .map(|(sku, available)| seed_stock(None, sku, *available, now()))
                .collect(),
            reservations: HashMap::new(),
            items: HashMap::new(),
            inbox: Inbox::new(),
            outbox: Vec::new(),
            letters: Vec::new(),
        }
    }

    fn of(&self, sku: &str) -> (i64, i64) {
        let row = self.stock.iter().find(|r| r.sku == sku).unwrap();
        (row.available_qty, row.reserved_qty)
    }

    fn tables(&self, command: &Command) -> InventoryTables {
        InventoryTables {
            reservation: self.reservations.get(&command.order_id).cloned(),
            reservation_items: self.items.get(&command.order_id).cloned().unwrap_or_default(),
            stock: self.stock.clone(),
        }
    }

    fn handle(&mut self, command: &Command) -> HandleOutcome {
        let record = ConsumedRecord {
            offset: 0,
            key: Some(b"key".to_vec()),
            value: Some(format!("{{\"payload\":{}}}", command.json).into_bytes()),
            headers: Vec::new(),
        };
        let header = Envelope {
            event_id: command.event_id,
            event_type: command.event_type.to_string(),
            schema_version: command.schema_version,
            occurred_at: now(),
            producer: "orders".to_string(),
            aggregate_type: "order".to_string(),
            aggregate_id: command.order_id,
            aggregate_version: command.version,
            correlation_id: 7,
            causation_id: 8,
            traceparent: None,
            payload: (),
        };
        let facts = self.inbox.facts(CONSUMER_NAME, &header);
        let header = Ok(header);
        let payload = Ok(copy(&command.payload));
        let handled: Handled<InventoryWrites> = handle_record(
            INVENTORY_COMMANDS_TOPIC,
            &record,
            &header,
            &payload,
            &facts,
            self.tables(command),
        );
        let outcome = handled.outcome;
        for effect in handled.effects {
            match effect {
                Effect::PublishDlq(letter) => {
                    self.letters.push((letter.error_code, letter.error_detail))
                }
                Effect::Rollback => {}
                Effect::Commit(set) => {
                    assert!(self.inbox.commit(&set));
                    if let Some(writes) = set.writes {
                        self.stock = writes.stock;
                        if let Some(row) = writes.reservation {
                            self.reservations.insert(row.order_id, row);
                        }
                        if !writes.reservation_items.is_empty() {
                            self.items.insert(command.order_id, writes.reservation_items);
                        }
                        self.outbox.extend(writes.outbox);
                    }
                }
            }
        }
        outcome
    }
}

#[test]
fn duplicate_delivery_creates_one_reservation() {
    let mut store = Store::seeded(&[("SKU-DUP-1", 10)]);
    let command = reserve_command(fresh(), 1, &[("SKU-DUP-1", 2)]);
    assert_eq!(store.handle(&command), HandleOutcome::Applied);
    assert_eq!(
        store.handle(&command),
        HandleOutcome::Duplicate,
        "the redelivery must be recognized as a duplicate"
    );
    assert_eq!(store.reservations.len(), 1);
    assert_eq!(store.outbox.len(), 1, "exactly one outcome event, not one per delivery");
    assert_eq!(store.outbox[0].envelope.event_type, "inventory.reservation_succeeded");
    assert_eq!(store.outbox[0].envelope.causation_id, command.event_id);
    assert_eq!(store.of("SKU-DUP-1"), (8, 2));
}

#[test]
fn concurrent_reservations_never_oversell() {
    let mut store = Store::seeded(&[("SKU-CONTENDED", 5)]);
    let lines = validate_items(&[("SKU-CONTENDED".to_string(), 1)]).unwrap();
    let mut succeeded = 0;
    let mut rejected = 0;
    for _ in 0..10 {
        let (outcome, row) = reserve(None, fresh(), &lines, &mut store.stock, now());
        assert!(outcome.created);
        assert_eq!(row.unwrap().status, outcome.status);
        match outcome.status {
            ReservationStatus::Active => succeeded += 1,
            ReservationStatus::Rejected => rejected += 1,
            other => panic!("unexpected status {other:?}"),
        }
    }
    assert_eq!(succeeded, 5, "only 5 units were available");
    assert_eq!(rejected, 5);
    assert_eq!(store.of("SKU-CONTENDED"), (0, 5));
    assert_eq!(store.stock[0].version, 6);
}

#[test]
fn multi_sku_reservation_is_all_or_nothing() {
    let mut store = Store::seeded(&[("SKU-PLENTY", 100), ("SKU-SCARCE", 1)]);
    let lines =
        validate_items(&[("SKU-PLENTY".to_string(), 5), ("SKU-SCARCE".to_string(), 10)]).unwrap();
    let (outcome, row) = reserve(None, fresh(), &lines, &mut store.stock, now());
    assert_eq!(outcome.status, ReservationStatus::Rejected);
    assert_eq!(outcome.reason_code.as_deref(), Some("INSUFFICIENT_STOCK"));
    assert_eq!(row.unwrap().reason_code.as_deref(), Some("INSUFFICIENT_STOCK"));
    assert_eq!(
        store.of("SKU-PLENTY"),
        (100, 0),
        "the sufficient SKU must not be touched when the reservation is rejected"
    );
    let unknown =
        validate_items(&[("SKU-NOWHERE".to_string(), 1), ("SKU-SCARCE".to_string(), 10)]).unwrap();
    let (outcome, _) = reserve(None, fresh(), &unknown, &mut store.stock, now());
    assert_eq!(outcome.reason_code.as_deref(), Some("SKU_NOT_FOUND"));
}

#[test]
fn crash_after_db_commit_before_offset_commit_has_no_duplicate_effect() {
    let mut store = Store::seeded(&[("SKU-CRASH", 10)]);
    let mut faults = FaultInjector::new();
    faults.configure(
        FAULT_AFTER_DB_COMMIT_BEFORE_OFFSET_COMMIT,
        FaultConfig {
            fail_next: 1,
            subject_filter: None,
            delay_ms: None,
        },
    );
    let command = reserve_command(fresh(), 1, &[("SKU-CRASH", 3)]);
    let mut first = Batch::start(9, 1);
    let outcome = store.handle(&command);
    let step = first.settle(outcome, 9, &mut faults, FAULT_AFTER_DB_COMMIT_BEFORE_OFFSET_COMMIT);
    assert_eq!(step, BatchStep::Stop { delay_ms: None });
    assert!(first.summary.stopped_by_fault, "fault must have fired");
    assert_eq!(first.summary.applied, 1);
    assert_eq!(store.reservations.len(), 1, "the business effect already committed");
    assert_eq!(store.of("SKU-CRASH").1, 3);

    let mut second = Batch::start(9, 1);
    let outcome = store.handle(&command);
    let step = second.settle(outcome, 9, &mut faults, FAULT_AFTER_DB_COMMIT_BEFORE_OFFSET_COMMIT);
    assert_eq!(step, BatchStep::Continue { commit: Some(10) });
    assert_eq!(second.summary.duplicate, 1, "redelivery must be recognized, not reapplied");
    assert_eq!(second.summary.applied, 0);
    assert_eq!(store.reservations.len(), 1, "still exactly one reservation");
    assert_eq!(store.of("SKU-CRASH").1, 3, "stock must not be decremented twice");
}

#[test]
fn invalid_schema_reaches_dlq_without_blocking_valid_work() {
    let mut store = Store::seeded(&[("SKU-POISON", 10)]);
    let mut metrics = ConsumerMetrics::default();
    let mut poison = reserve_command(fresh(), 1, &[]);
    poison.schema_version = 999;
    let good = reserve_command(fresh(), 1, &[("SKU-POISON", 1)]);
    for command in [&poison, &good] {
        let outcome = store.handle(command);
        record_result(&mut metrics, outcome_label(outcome));
    }
    assert_eq!(metrics.poison, 1, "the unsupported-schema message must be dead-lettered");
    assert_eq!(metrics.applied, 1, "the valid message must still process");
    assert!(store.reservations.contains_key(&good.order_id));
    assert!(
        !store.reservations.contains_key(&poison.order_id),
        "the poison message must not create a reservation"
    );
    assert_eq!(
        store.letters,
        vec![(
            "UNSUPPORTED_SCHEMA".to_string(),
            "unknown type/version pair inventory.reserve_inventory/999".to_string()
        )]
    );
}

#[test]
fn release_restores_stock_and_publishes_released_event() {
    let mut store = Store::seeded(&[("SKU-REL-1", 10)]);
    let order = fresh();
    store.handle(&reserve_command(order, 1, &[("SKU-REL-1", 3)]));
    assert_eq!(store.of("SKU-REL-1"), (7, 3));
    let reservation = store.reservations[&order].id;
    let command = release_command(order, 2);
    assert_eq!(store.handle(&command), HandleOutcome::Applied);
    assert_eq!(store.of("SKU-REL-1"), (10, 0), "stock must be restored");
    assert_eq!(store.reservations[&order].status, ReservationStatus::Released);
    assert_eq!(store.reservations[&order].version, 2);
    let event = store.outbox.last().unwrap();
    assert_eq!(event.envelope.event_type, "inventory.inventory_released");
    assert_eq!(event.aggregate_id, reservation);
    assert_eq!(event.aggregate_version, 2);
    assert_eq!(event.envelope.causation_id, command.event_id);
}

#[test]
fn duplicate_release_is_idempotent() {
    let mut store = Store::seeded(&[("SKU-REL-2", 5)]);
    let order = fresh();
    store.handle(&reserve_command(order, 1, &[("SKU-REL-2", 2)]));
    assert_eq!(store.handle(&release_command(order, 2)), HandleOutcome::Applied);
    assert_eq!(store.handle(&release_command(order, 3)), HandleOutcome::Applied);
    assert_eq!(store.of("SKU-REL-2"), (5, 0), "stock restored exactly once");
    let released = store
        .outbox
        .iter()
        .filter(|e| e.envelope.event_type == "inventory.inventory_released")
        .count();
    assert_eq!(
        released, 1,
        "the second release must not publish a second inventory_released event"
    );
}

#[test]
fn a_second_reservation_repeats_the_first_answer() {
    let mut store = Store::seeded(&[("A", 1)]);
    let order = fresh();
    store.handle(&reserve_command(order, 1, &[("A", 2)]));
    store.handle(&reserve_command(order, 2, &[("A", 1)]));
    assert_eq!(store.of("A"), (1, 0));
    assert_eq!(store.outbox.len(), 2);
    for event in &store.outbox {
        match &event.envelope.payload {
            EventPayload::ReservationFailed(p) => assert_eq!(p.reason_code, "INSUFFICIENT_STOCK"),
            _ => panic!("another payload"),
        }
    }
    let lines = validate_items(&[("A".to_string(), 1)]).unwrap();
    let row = store.reservations[&order].clone();
    let (outcome, stored) = reserve(Some(&row), order, &lines, &mut store.stock, now());
    assert!(!outcome.created);
    assert_eq!(outcome.reservation_id, row.id);
    assert!(stored.is_none());
}

#[test]
fn invalid_reservation_requests_become_dead_letters() {
    let mut store = Store::seeded(&[("A", 1)]);
    store.handle(&reserve_command(fresh(), 1, &[]));
    store.handle(&reserve_command(fresh(), 1, &[("A", 1), ("A", 1)]));
    assert_eq!(
        store.letters,
        vec![
            (
                "INVALID_RESERVATION_REQUEST".to_string(),
                "reservation request has no items".to_string()
            ),
            (
                "INVALID_RESERVATION_REQUEST".to_string(),
                "duplicate sku A in one reservation request".to_string()
            )
        ]
    );
    assert!(store.inbox.events.is_empty());
    assert_eq!(store.of("A"), (1, 0));
}

#[test]
fn a_release_without_a_reservation_is_put_aside() {
    let mut store = Store::seeded(&[("A", 5)]);
    let order: u128 = 3;
    assert_eq!(store.handle(&release_command(order, 1)), HandleOutcome::Poison);
    assert_eq!(
        store.letters,
        vec![(
            "UNKNOWN_ORDER".to_string(),
            "no reservation found for order 00000000-0000-0000-0000-000000000003".to_string()
        )]
    );
    assert!(store.inbox.events.is_empty());
    assert!(store.outbox.is_empty());
    assert_eq!(store.of("A"), (5, 0));
    assert_eq!(
        store.handle(&reserve_command(fresh(), 1, &[("A", 2)])),
        HandleOutcome::Applied,
        "the next command of the topic is carried out"
    );
    let mut stock = Vec::new();
    assert_eq!(
        release(None, &Vec::new(), &mut stock, order, now()).unwrap_err(),
        ReleaseError::NotFound(order)
    );
}

#[test]
fn seeding_again_keeps_what_is_reserved() {
    let mut store = Store::seeded(&[("A", 5)]);
    store.handle(&reserve_command(fresh(), 1, &[("A", 2)]));
    let row = seed_stock(Some(store.stock[0].clone()), "A", 50, now());
    assert_eq!((row.available_qty, row.reserved_qty, row.version), (50, 2, 2));
}

#[test]
fn inventory_errors_have_their_codes() {
    let (status, problem) = ApiError::StockNotFound("A".to_string()).parts(1);
    assert_eq!((status, problem.code), (404, "STOCK_NOT_FOUND"));
    assert_eq!(problem.detail, "stock not found for sku A");
    let (status, problem) = ApiError::FaultControlForbidden.response();
    assert_eq!((status, problem.code), (403, "FAULT_CONTROL_FORBIDDEN"));
    let (status, problem) = ApiError::Internal("gone".to_string()).response();
    assert_eq!((status, problem.title), (500, "Internal Error"));
}
