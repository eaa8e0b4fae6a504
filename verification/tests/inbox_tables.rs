use order_choreography::consuming::CommitSet;
use order_choreography::contracts::Envelope;
use order_choreography::fulfilment::domain::FulfilmentStatus;
use order_choreography::inventory::consumer::InventoryTables;
use order_choreography::inventory::domain::{ReservationLine, ReservationStatus};
use order_choreography::inventory::repository::{
    seed_stock, stock_holds_lines, stock_in_order, ReservationRow,
};
use order_choreography::ledger::Inbox;
use order_choreography::orders::domain::OrderStatus;
use order_choreography::payments::domain::{OperationStatus, OperationType, PaymentStatus};
use order_choreography::persistence::inbox::{
    advance_version, fetch, last_version, mark_processed, try_claim, NewInboxEntry,
};
use order_choreography::persistence::outbox::{
    settle_publication, ClaimedOutboxEvent, PublishMetrics, Settlement,
};
use order_choreography::test_support::FaultInjector;
use order_choreography::time::{Span, Timestamp};

const NOW: Timestamp = Timestamp {
    seconds: 1_700_000_000,
    nanos: 5,
};

fn entry(consumer: &str, event_id: u128, hash: &str) -> NewInboxEntry {
    NewInboxEntry {
        consumer_name: consumer.to_string(),
        event_id,
        source_topic: "topic".to_string(),
        source_partition: 0,
        source_offset: 9,
        aggregate_id: 3,
        aggregate_version: 4,
        payload_hash: hash.to_string(),
    }
}

fn header(event_id: u128, aggregate_id: u128) -> Envelope<()> {
    Envelope {
        event_id,
        event_type: "type".to_string(),
        schema_version: 1,
        occurred_at: NOW,
        producer: "test".to_string(),
        aggregate_type: "test".to_string(),
        aggregate_id,
        aggregate_version: 4,
        correlation_id: 7,
        causation_id: 8,
        traceparent: None,
        payload: (),
    }
}

#[test]
fn an_event_is_claimed_once_per_consumer() {
    let mut rows = Vec::new();
    assert!(try_claim(&mut rows, NOW, &entry("a", 1, "h1")));
    assert!(!try_claim(&mut rows, NOW, &entry("a", 1, "h2")));
    assert!(try_claim(&mut rows, NOW, &entry("b", 1, "h3")));
    assert!(try_claim(&mut rows, NOW, &entry("a", 2, "h4")));
    assert_eq!(rows.len(), 3);
    let at = fetch(&rows, "a", 1).unwrap();
    assert_eq!(rows[at].payload_hash, "h1");
    assert_eq!(rows[at].source_offset, 9);
    assert_eq!(rows[at].received_at, NOW);
    assert!(rows[at].processed_at.is_none());
    assert!(fetch(&rows, "c", 1).is_none());

    mark_processed(&mut rows, "a", 1, NOW);
    assert_eq!(rows[at].processed_at, Some(NOW));
    assert_eq!(rows.iter().filter(|r| r.processed_at.is_some()).count(), 1);
}

#[test]
fn aggregates_advance_for_one_consumer() {
    let mut rows = Vec::new();
    assert_eq!(last_version(&rows, "a", 1), None);
    advance_version(&mut rows, "a", 1, 1);
    advance_version(&mut rows, "b", 1, 5);
    advance_version(&mut rows, "a", 2, 7);
    advance_version(&mut rows, "a", 1, 2);
    assert_eq!(rows.len(), 3);
    assert_eq!(last_version(&rows, "a", 1), Some(2));
    assert_eq!(last_version(&rows, "b", 1), Some(5));
    assert_eq!(last_version(&rows, "a", 2), Some(7));
}

#[test]
fn a_commit_is_seen_by_the_next_delivery() {
    let mut inbox = Inbox::new();
    assert!(inbox.facts("a", &header(1, 3)).claimed_hash.is_none());
    let mut set = CommitSet::<Option<u64>> {
        entry: entry("a", 1, "h1"),
        processed_at: NOW,
        advance_to: Some(4),
        writes: None,
    };
    assert!(inbox.commit(&set));
    assert!(!inbox.commit(&set));
    let facts = inbox.facts("a", &header(1, 3));
    assert_eq!(facts.claimed_hash.as_deref(), Some("h1"));
    assert_eq!(facts.last_version, Some(4));
    assert_eq!(inbox.events[0].processed_at, Some(NOW));
    assert!(inbox.facts("b", &header(1, 3)).last_version.is_none());

    set.entry.event_id = 2;
    set.advance_to = None;
    assert!(inbox.commit(&set));
    assert_eq!(inbox.facts("a", &header(2, 3)).last_version, Some(4));
}

#[test]
fn statuses_read_back_from_their_texts() {
    assert_eq!(OrderStatus::parse("MANUAL_REVIEW"), Some(OrderStatus::ManualReview));
    assert_eq!(OrderStatus::parse("manual_review"), None);
    assert_eq!(ReservationStatus::parse("REJECTED"), Some(ReservationStatus::Rejected));
    assert_eq!(ReservationStatus::parse(""), None);
    assert_eq!(PaymentStatus::parse("REFUND_PENDING"), Some(PaymentStatus::RefundPending));
    assert_eq!(PaymentStatus::parse("PAID"), None);
    assert_eq!(OperationType::parse("REFUND"), Some(OperationType::Refund));
    assert_eq!(OperationStatus::parse("SUCCEEDED"), Some(OperationStatus::Succeeded));
    assert_eq!(FulfilmentStatus::parse("CREATED"), Some(FulfilmentStatus::Created));
    for status in [
        OrderStatus::Pending,
        OrderStatus::InventoryReserved,
        OrderStatus::PaymentAuthorized,
        OrderStatus::ReadyForFulfilment,
        OrderStatus::Completed,
        OrderStatus::Cancelling,
        OrderStatus::Cancelled,
        OrderStatus::ManualReview,
    ] {
        assert_eq!(OrderStatus::parse(&status.text()), Some(status));
    }
}

#[test]
fn stock_out_of_order_is_recognised() {
    let mut stock = vec![seed_stock(None, "A", 3, NOW), seed_stock(None, "B", 1, NOW)];
    assert!(stock_in_order(&stock));
    let lines = vec![ReservationLine {
        sku: "A".to_string(),
        quantity: 2,
    }];
    assert!(!stock_holds_lines(&stock, &lines));
    stock[0].reserved_qty = 2;
    assert!(stock_holds_lines(&stock, &lines));
    let mut tables = InventoryTables {
        reservation: Some(ReservationRow {
            id: 1,
            order_id: 2,
            status: ReservationStatus::Active,
            reason_code: None,
            version: 1,
            created_at: NOW,
            updated_at: NOW,
        }),
        reservation_items: lines,
        stock,
    };
    assert!(tables.in_order());
    tables.stock[0].reserved_qty = 1;
    assert!(!tables.in_order());
    tables.stock[0].reserved_qty = -1;
    assert!(!stock_in_order(&tables.stock));
}

#[test]
fn a_wait_beyond_counting_is_no_wait() {
    let row = ClaimedOutboxEvent {
        id: 1,
        aggregate_type: "order".to_string(),
        aggregate_id: 2,
        aggregate_version: 1,
        topic: "topic".to_string(),
        message_key: "key".to_string(),
        envelope: b"{}".to_vec(),
        created_at: NOW,
        attempts: 3,
        was_previously_claimed: false,
    };
    let mut faults = FaultInjector::new();
    let mut metrics = PublishMetrics::default();
    let mut settle = |wait: Span| {
        let answer = Err("broker is down".to_string());
        match settle_publication(&row, answer, wait, &mut faults, &mut metrics, NOW) {
            Settlement::Failed {
                next_attempt_at, ..
            } => next_attempt_at,
            other => panic!("unexpected settlement {other:?}"),
        }
    };
    assert_eq!(
        settle(Span { secs: 2, nanos: 1 }),
        Timestamp {
            seconds: 1_700_000_002,
            nanos: 6
        }
    );
    assert_eq!(
        settle(Span {
            secs: 9_223_372_036_854_775,
            nanos: 807_000_001
        }),
        NOW
    );
}
