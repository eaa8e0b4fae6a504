use order_choreography::contracts::orders::{
    OrderCompletedPayload, ORDER_AGGREGATE_TYPE, ORDER_CREATED_TOPIC,
};
use order_choreography::contracts::{Envelope, EventPayload};
use order_choreography::messaging::{
    order_by_aggregate_version, ConsumedRecord, ContiguousOffsetTracker, MessagingError,
    NoopConsumer, NoopProducer, Position,
};
use order_choreography::persistence::dlq::{publication, DlqRecord};
use order_choreography::persistence::metrics::{
    prometheus, record_dlq, record_gap, record_result, record_retry, set_consumer_lag,
    ConsumerMetrics,
};
use order_choreography::persistence::outbox::{
    backlog_metrics, begin_publication, claim_batch, headers_from_envelope, insert, pause_after,
    settle_with_backoff, NewOutboxEvent, OutboxRow, PublishMetrics, PublisherConfig, Settlement,
    FAULT_AFTER_BROKER_PUBLISH_BEFORE_MARK_PUBLISHED,
};
use order_choreography::replay::{find_letter, replay, usage, ReplayError};
use order_choreography::test_support::{FaultConfig, FaultInjector};
use order_choreography::text::{i64_text, text_less, u64_text};
use order_choreography::time::{Span, Timestamp};

fn at(millis: i64) -> Timestamp {
    Timestamp {
        seconds: 1_700_000_000 + millis.div_euclid(1000),
        nanos: (millis.rem_euclid(1000) * 1_000_000) as u32,
    }
}

fn new_outbox_event(order_id: u128) -> NewOutboxEvent {
    NewOutboxEvent {
        id: order_id + 1000,
        aggregate_type: ORDER_AGGREGATE_TYPE.to_string(),
        aggregate_id: order_id,
        aggregate_version: 1,
        topic: ORDER_CREATED_TOPIC.to_string(),
        message_key: uuid::Uuid::from_u128(order_id).to_string(),
        envelope: Envelope {
            event_id: order_id + 1000,
            event_type: "orders.order_completed".to_string(),
            schema_version: 1,
            occurred_at: at(0),
            producer: "orders".to_string(),
            aggregate_type: ORDER_AGGREGATE_TYPE.to_string(),
            aggregate_id: order_id,
            aggregate_version: 1,
            correlation_id: 1,
            causation_id: 2,
            traceparent: None,
            payload: EventPayload::OrderCompleted(OrderCompletedPayload {
                order_id,
                fulfilment_id: 3,
            }),
        },
    }
}

fn insert_direct(rows: &mut Vec<OutboxRow>, n: u128, now: Timestamp) {
    for order_id in 0..n {
        let text = b"{\"producer\": \"orders\", \"correlation_id\": \"c-1\", \"n\": 1.0}".to_vec();
        rows.push(insert(&new_outbox_event(order_id), text, now));
    }
}

fn config(claimed_by: &str, batch_size: i64, lease_millis: i128) -> PublisherConfig {
    PublisherConfig {
        claimed_by: claimed_by.to_string(),
        batch_size,
        lease_nanos: lease_millis * 1_000_000,
        poll_interval: Span::from_millis(50),
        backoff_base: Span::from_millis(10),
        backoff_cap: Span::from_millis(30),
    }
}

/// One round of a publisher over a table in memory.
fn run_publisher_once(
    rows: &mut Vec<OutboxRow>,
    broker_up: bool,
    calls: &mut usize,
    faults: &mut FaultInjector,
    config: &PublisherConfig,
    metrics: &mut PublishMetrics,
    now: Timestamp,
) -> usize {
    let claimed = claim_batch(rows, &config.claimed_by, config.lease_nanos, config.batch_size, now);
    for row in &claimed {
        let publication = begin_publication(row, metrics).expect("stored envelope is valid json");
        assert_eq!(publication.topic, ORDER_CREATED_TOPIC);
        assert_eq!(
            publication.payload,
            b"{\"correlation_id\":\"c-1\",\"n\":1.0,\"producer\":\"orders\"}"
        );
        let answer = if broker_up {
            *calls += 1;
            Ok(())
        } else {
            Err("simulated broker outage".to_string())
        };
        let stored = rows.iter_mut().find(|r| r.id == row.id).unwrap();
        match settle_with_backoff(row, answer, config, faults, metrics, now) {
            Settlement::Crashed { .. } => {}
            Settlement::Published => stored.mark_published(now),
            Settlement::Failed {
                next_attempt_at,
                error,
            } => stored.mark_failed(next_attempt_at, &error),
        }
    }
    claimed.len()
}

#[test]
fn crash_after_publish_before_mark_causes_duplicate_then_eventual_published_mark() {
    let mut rows = Vec::new();
    insert_direct(&mut rows, 1, at(0));
    let mut faults = FaultInjector::new();
    faults.configure(
        FAULT_AFTER_BROKER_PUBLISH_BEFORE_MARK_PUBLISHED,
        FaultConfig {
            fail_next: 1,
            subject_filter: None,
            delay_ms: None,
        },
    );
    let mut metrics = PublishMetrics::default();
    let config = config("worker-a", 10, 200);
    let mut calls = 0;
    let claimed =
        run_publisher_once(&mut rows, true, &mut calls, &mut faults, &config, &mut metrics, at(0));
    assert_eq!((claimed, calls), (1, 1));
    assert!(
        rows[0].published_at.is_none(),
        "the row must stay unpublished after the simulated crash"
    );
    let during_lease =
        run_publisher_once(&mut rows, true, &mut calls, &mut faults, &config, &mut metrics, at(200));
    assert_eq!(during_lease, 0);
    let claimed_again =
        run_publisher_once(&mut rows, true, &mut calls, &mut faults, &config, &mut metrics, at(250));
    assert_eq!((claimed_again, calls), (1, 2));
    let (attempts, failures, lease_recoveries, published) = metrics.snapshot();
    assert_eq!((attempts, failures), (2, 0));
    assert_eq!(lease_recoveries, 1, "the second claim must count as a lease recovery");
    assert_eq!(published, 1, "exactly one successful mark-published");
    assert_eq!(rows[0].published_at, Some(at(250)));
}

#[test]
fn two_publishers_share_backlog_without_double_publish() {
    let mut rows = Vec::new();
    insert_direct(&mut rows, 40, at(0));
    let a = claim_batch(&mut rows, "worker-a", 30_000_000_000, 25, at(1));
    let b = claim_batch(&mut rows, "worker-b", 30_000_000_000, 25, at(1));
    assert_eq!(
        a.len() + b.len(),
        40,
        "the two claims must partition the backlog exactly, with no overlap and no gaps"
    );
    let mut ids: Vec<u128> = a.iter().chain(b.iter()).map(|r| r.id).collect();
    assert_eq!(ids[0], 1000);
    assert!(ids.windows(2).all(|w| w[0] < w[1]), "the oldest first");
    ids.dedup();
    assert_eq!(ids.len(), 40);
    assert_eq!(rows[0].claimed_by.as_deref(), Some("worker-a"));
    assert_eq!(rows[39].claimed_by.as_deref(), Some("worker-b"));
    assert!(a.iter().all(|r| !r.was_previously_claimed));
}

#[test]
fn broker_outage_grows_backlog_then_drains_on_recovery() {
    let mut rows = Vec::new();
    insert_direct(&mut rows, 5, at(0));
    let mut faults = FaultInjector::new();
    let mut metrics = PublishMetrics::default();
    let config = config("outage-worker", 10, 30_000);
    let mut calls = 0;
    run_publisher_once(&mut rows, false, &mut calls, &mut faults, &config, &mut metrics, at(0));
    let waiting = rows.iter().filter(|r| r.published_at.is_none()).count();
    assert_eq!(waiting, 5, "the backlog must not shrink while the broker is unreachable");
    assert_eq!(metrics.failures_total, 5);
    for row in &rows {
        assert_eq!(row.attempts, 1);
        assert_eq!(row.last_error.as_deref(), Some("simulated broker outage"));
        assert!(row.claimed_by.is_none());
        assert!(row.next_attempt_at.at_or_before(at(10)));
    }
    run_publisher_once(&mut rows, true, &mut calls, &mut faults, &config, &mut metrics, at(50));
    assert!(rows.iter().all(|r| r.published_at == Some(at(50))));
    assert_eq!((calls, metrics.published_total), (5, 5));
    assert_eq!(metrics.lease_recoveries_total, 0);
}

#[test]
fn only_due_unpublished_rows_without_a_live_lease_are_claimed() {
    let mut rows = Vec::new();
    insert_direct(&mut rows, 4, at(100));
    rows[0].mark_published(at(100));
    rows[1].next_attempt_at = at(300);
    rows[2].created_at = at(50);
    let none = claim_batch(&mut rows, "w", 1_000_000, 0, at(200));
    assert!(none.is_empty());
    let claimed = claim_batch(&mut rows, "w", 1_000_000, 9, at(200));
    let ids: Vec<u128> = claimed.iter().map(|r| r.id).collect();
    assert_eq!(ids, vec![1002, 1003]);
    assert_eq!(rows[2].claimed_until, Some(at(201)));
    assert!(claim_batch(&mut rows, "v", 1_000_000, 9, at(201)).is_empty());
    let recovered = claim_batch(&mut rows, "v", 1_000_000, 9, at(300));
    let flags: Vec<(u128, bool)> =
        recovered.iter().map(|r| (r.id, r.was_previously_claimed)).collect();
    assert_eq!(flags, vec![(1002, true), (1001, false), (1003, true)]);
}

#[test]
fn publisher_defaults_name_the_worker() {
    let config = PublisherConfig::default();
    assert!(config.claimed_by.starts_with("publisher-"));
    assert_eq!(config.claimed_by.len(), 46);
    assert_eq!(config.lease_nanos, 30_000_000_000);
}

#[test]
fn only_an_empty_or_failed_batch_is_followed_by_a_pause() {
    let config = PublisherConfig::default();
    assert_eq!(pause_after(Some(3), &config), None);
    assert_eq!(pause_after(Some(0), &config), Some(Span::from_millis(200)));
    assert_eq!(pause_after(None, &config), Some(Span::from_millis(200)));
}

#[test]
fn headers_tell_what_the_envelope_tells() {
    let envelope =
        b"{\"correlation_id\":\"c\",\"causation_id\":7,\"producer\":\"orders\"}".to_vec();
    let headers = headers_from_envelope(1, &envelope);
    assert_eq!(
        headers,
        vec![
            (
                "event_id".to_string(),
                b"00000000-0000-0000-0000-000000000001".to_vec()
            ),
            ("correlation_id".to_string(), b"c".to_vec()),
            ("producer".to_string(), b"orders".to_vec()),
        ]
    );
    assert_eq!(headers_from_envelope(1, &b"no json".to_vec()).len(), 1);
}

#[test]
fn a_stored_envelope_that_is_no_json_is_not_published() {
    let mut rows = vec![insert(&new_outbox_event(1), b"no json".to_vec(), at(0))];
    let mut metrics = PublishMetrics::default();
    let claimed = claim_batch(&mut rows, "w", 1, 1, at(0));
    assert!(begin_publication(&claimed[0], &mut metrics).is_none());
    assert_eq!(metrics.attempts_total, 1);
}

#[test]
fn the_backlog_has_an_age() {
    let backlog = backlog_metrics(2, Some(at(0)), at(1_999));
    assert_eq!(backlog.unpublished_count, 2);
    assert_eq!(backlog.oldest_unpublished_age_millis, Some(1_999));
    assert_eq!(
        backlog_metrics(1, Some(at(5)), at(0)).oldest_unpublished_age_millis,
        Some(0)
    );
    assert_eq!(backlog_metrics(0, None, at(0)).oldest_unpublished_age_millis, None);
}

#[test]
fn consumer_counters_are_shown_as_text() {
    let mut metrics = ConsumerMetrics::default();
    record_result(&mut metrics, "applied");
    record_result(&mut metrics, "applied");
    record_result(&mut metrics, "duplicate");
    record_result(&mut metrics, "mystery");
    record_gap(&mut metrics);
    record_dlq(&mut metrics);
    record_retry(&mut metrics);
    set_consumer_lag(&mut metrics, 12);
    assert_eq!(
        prometheus(&metrics),
        "# TYPE consumer_records_total counter\n\
         consumer_records_total{result=\"applied\"} 2\n\
         consumer_records_total{result=\"duplicate\"} 1\n\
         consumer_records_total{result=\"stale\"} 0\n\
         consumer_records_total{result=\"poison\"} 0\n\
         # TYPE consumer_version_gaps_total counter\n\
         consumer_version_gaps_total 1\n\
         # TYPE dlq_published_total counter\n\
         dlq_published_total 1\n\
         # TYPE dependency_retries_total counter\n\
         dependency_retries_total 1\n\
         # TYPE consumer_lag_records gauge\n\
         consumer_lag_records 12\n"
    );
    set_consumer_lag(&mut metrics, -3);
    assert_eq!(metrics.lag, 0);
    metrics.stale = u64::MAX;
    record_result(&mut metrics, "stale");
    assert_eq!(metrics.stale, 0);
}

#[test]
fn a_window_is_handled_in_the_order_of_versions() {
    let place = |aggregate_id: u128, aggregate_version: i64| {
        Some(Position {
            aggregate_id,
            aggregate_version,
        })
    };
    let window = vec![place(1, 2), place(2, 1), None, place(1, 1), place(2, 2), place(1, 3)];
    assert_eq!(order_by_aggregate_version(&window), vec![3, 0, 1, 2, 4, 5]);
    let backwards = vec![place(1, 3), place(1, 2), place(1, 1)];
    assert_eq!(order_by_aggregate_version(&backwards), vec![2, 1, 0]);
    let same = vec![place(1, 1), place(1, 1)];
    assert_eq!(order_by_aggregate_version(&same), vec![0, 1]);
    assert!(order_by_aggregate_version(&Vec::new()).is_empty());
}

#[test]
fn offsets_advance_through_a_contiguous_prefix_only() {
    let mut tracker = ContiguousOffsetTracker::new(10);
    assert_eq!(tracker.complete(12), None);
    assert_eq!(tracker.complete(13), None);
    assert_eq!(tracker.complete(10), Some(11));
    assert_eq!(tracker.complete(10), None);
    assert_eq!(tracker.complete(11), Some(14));
    assert_eq!(tracker.complete(3), None);
    assert_eq!(tracker.complete(14), Some(15));
}

#[test]
fn the_silent_broker_accepts_everything_and_has_nothing() {
    assert!(NoopProducer
        .publish("t", "k", b"x".to_vec(), Vec::new())
        .is_ok());
    assert!(NoopConsumer.fetch("t", 0, 5).unwrap().is_empty());
    assert_eq!(
        MessagingError::NotImplemented("x".to_string()).message(),
        "not yet implemented: x"
    );
    assert_eq!(
        MessagingError::Client("x".to_string()).message(),
        "kafka client error: x"
    );
}

fn letter(topic: &str, replay_count: u32, envelope: Option<()>) -> DlqRecord<()> {
    DlqRecord {
        original_topic: topic.to_string(),
        original_partition: 0,
        original_offset: 5,
        original_key: Some("order-1".to_string()),
        envelope,
        consumer: "c".to_string(),
        attempts: 1,
        first_failure_at: at(0),
        last_failure_at: at(0),
        error_code: "EXPECTED_VERSION_GAP".to_string(),
        error_detail: "d".to_string(),
        replay_count,
    }
}

fn stored(value: Option<&str>) -> ConsumedRecord {
    ConsumedRecord {
        offset: 5,
        key: None,
        value: value.map(|v| v.as_bytes().to_vec()),
        headers: Vec::new(),
    }
}

#[test]
fn dead_letters_carry_their_reason_and_origin() {
    let (topic, headers) = publication("a.v1", &letter("a.v1", 0, None));
    assert_eq!(topic, "a.v1.dlq");
    assert_eq!(
        headers,
        vec![
            ("error_code".to_string(), b"EXPECTED_VERSION_GAP".to_vec()),
            ("original_topic".to_string(), b"a.v1".to_vec()),
        ]
    );
}

#[test]
fn replay_preserves_the_envelope_and_counts() {
    let value = "{\"envelope\": {\"event_id\": \"e-1\", \"correlation_id\": \"c-1\"}}";
    let again = replay("a.v1", &stored(Some(value)), &letter("a.v1", 2, Some(()))).unwrap();
    assert_eq!(again.event_id, "e-1");
    assert_eq!(again.replay_count, 3);
    assert_eq!(again.publication.topic, "a.v1");
    assert_eq!(again.publication.key, "order-1");
    assert_eq!(
        again.publication.payload,
        b"{\"correlation_id\":\"c-1\",\"event_id\":\"e-1\"}"
    );
    assert_eq!(
        again.publication.headers,
        vec![
            ("replayed_from_dlq".to_string(), b"a.v1.dlq".to_vec()),
            ("replay_count".to_string(), b"3".to_vec()),
            ("event_id".to_string(), b"e-1".to_vec()),
        ]
    );
    let worn = replay("a.v1", &stored(Some("{\"envelope\":{}}")), &letter("a.v1", u32::MAX, Some(())))
        .unwrap();
    assert_eq!(worn.replay_count, u32::MAX);
    assert_eq!(worn.event_id, "unknown");
}

#[test]
fn replay_says_why_it_refuses() {
    let value = Some("{\"envelope\":{}}");
    let refused = |record: ConsumedRecord, letter: DlqRecord<()>| {
        replay("a.v1", &record, &letter).unwrap_err().message()
    };
    assert_eq!(
        refused(stored(None), letter("a.v1", 0, Some(()))),
        "DLQ record has no value"
    );
    assert_eq!(
        refused(stored(value), letter("b.v1", 0, Some(()))),
        "DLQ record belongs to b.v1, not a.v1"
    );
    assert_eq!(
        refused(stored(value), letter("a.v1", 0, None)),
        "DLQ record has no parseable envelope; correct it before replay"
    );
    assert_eq!(
        usage().message(),
        "usage: replay-dlq <source-topic> <dlq-offset> [broker]"
    );
    assert_eq!(find_letter(&vec![3, 4, 5], 5).unwrap(), 2);
    assert!(matches!(
        find_letter(&vec![3, 4], 5),
        Err(ReplayError::NoRecord { offset: 5 })
    ));
    assert_eq!(
        ReplayError::NoRecord { offset: -1 }.message(),
        "no DLQ record at offset -1"
    );
}

#[test]
fn numbers_and_texts() {
    assert_eq!(u64_text(0), "0");
    assert_eq!(u64_text(u64::MAX), "18446744073709551615");
    assert_eq!(i64_text(i64::MIN), "-9223372036854775808");
    assert_eq!(i64_text(70), "70");
    for (a, b) in [("", "a"), ("a", "b"), ("a", "aa"), ("Z", "a"), ("a", "é"), ("\u{ffff}", "😀")] {
        assert!(text_less(a, b) && a < b);
        assert!(!text_less(b, a));
        assert!(!text_less(a, a));
    }
}
