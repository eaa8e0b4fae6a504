use order_choreography::domain_common::{Currency, DomainError, OrderId};
use order_choreography::inventory::domain::{
    sorted_skus, validate_items, ReservationLine, ReservationRequestError,
};
use order_choreography::orders::config::{
    Config, DatabaseConfig, DeliveryMode, FailureInjectionConfig,
};
use order_choreography::orders::domain::{
    is_legal_transition, validate_and_normalize, CreateOrderRequest, ItemRequest, NormalizedOrder,
    OrderStatus, ValidationError, MAX_QUANTITY,
};
use order_choreography::orders::repository::fingerprint;
use order_choreography::payments;
use order_choreography::persistence::dlq::dlq_topic;
use order_choreography::persistence::inbox::{fetch_offset, version_decision, VersionDecision};
use order_choreography::test_support::FakeClock;
use order_choreography::time::{Clock, SystemClock, Timestamp};

fn req(items: Vec<(&str, i64, i64)>, currency: &str) -> CreateOrderRequest {
    CreateOrderRequest {
        items: items
            .into_iter()
            .map(|(sku, quantity, unit_price_minor)| ItemRequest {
                sku: sku.to_string(),
                quantity,
                unit_price_minor,
            })
            .collect(),
        currency: currency.to_string(),
    }
}

fn lines(pairs: &[(&str, i64)]) -> Vec<(String, i64)> {
    pairs.iter().map(|(sku, qty)| (sku.to_string(), *qty)).collect()
}

#[test]
fn currency_accepts_uppercase_three_letter_codes() {
    assert!(Currency::parse("USD").is_ok());
}

#[test]
fn currency_rejects_lowercase_or_wrong_length() {
    assert!(Currency::parse("usd").is_err());
    assert!(Currency::parse("US").is_err());
}

#[test]
fn currencies_with_one_code_are_equal() {
    let euro = Currency::parse("EUR").unwrap();
    assert_eq!(Currency::parse(&euro.text()), Ok(euro));
    assert_ne!(Currency::parse("USD"), Ok(euro));
}

#[test]
fn currency_shows_its_code_and_names_what_it_refuses() {
    assert_eq!(Currency::parse("EUR").unwrap().text(), "EUR");
    assert_eq!(Currency::parse("ÄBC"), Err(DomainError::InvalidCurrency("ÄBC".to_string())));
    assert_eq!(
        Currency::parse("U1D").unwrap_err().message(),
        "invalid currency code: U1D"
    );
}

#[test]
fn fresh_identifiers_differ_and_are_of_version_seven() {
    let a = OrderId::new_v7();
    let b = OrderId::new_v7();
    assert_ne!(a, b);
    assert_eq!((a.0 >> 76) & 0xf, 7);
    assert_eq!(a.text(), uuid::Uuid::from_u128(a.0).to_string());
    assert_eq!(
        OrderId(0x0123456789abcdef0123456789abcdef).text(),
        "01234567-89ab-cdef-0123-456789abcdef"
    );
}

#[test]
fn computes_total_from_items() {
    let n = validate_and_normalize(req(vec![("SKU-1", 2, 1250), ("SKU-2", 1, 500)], "USD"))
        .unwrap();
    assert_eq!(n.amount_minor, 3000);
}

#[test]
fn rejects_empty_items() {
    assert_eq!(
        validate_and_normalize(req(vec![], "USD")).unwrap_err(),
        ValidationError::ItemCountOutOfRange
    );
}

#[test]
fn rejects_too_many_items() {
    let items: Vec<ItemRequest> = (0..101)
        .map(|i| ItemRequest {
            sku: format!("SKU-{i}"),
            quantity: 1,
            unit_price_minor: 100,
        })
        .collect();
    let req = CreateOrderRequest {
        items,
        currency: "USD".to_string(),
    };
    assert_eq!(
        validate_and_normalize(req).unwrap_err(),
        ValidationError::ItemCountOutOfRange
    );
}

#[test]
fn rejects_zero_and_negative_quantity() {
    assert!(matches!(
        validate_and_normalize(req(vec![("SKU-1", 0, 100)], "USD")),
        Err(ValidationError::QuantityOutOfRange { .. })
    ));
    assert!(matches!(
        validate_and_normalize(req(vec![("SKU-1", -1, 100)], "USD")),
        Err(ValidationError::QuantityOutOfRange { .. })
    ));
}

#[test]
fn rejects_quantity_over_max() {
    assert!(matches!(
        validate_and_normalize(req(vec![("SKU-1", MAX_QUANTITY + 1, 100)], "USD")),
        Err(ValidationError::QuantityOutOfRange { .. })
    ));
}

#[test]
fn rejects_lowercase_currency() {
    assert!(matches!(
        validate_and_normalize(req(vec![("SKU-1", 1, 100)], "usd")),
        Err(ValidationError::InvalidCurrency(_))
    ));
}

#[test]
fn rejects_duplicate_sku() {
    assert!(matches!(
        validate_and_normalize(req(vec![("SKU-1", 1, 100), ("SKU-1", 2, 100)], "USD")),
        Err(ValidationError::DuplicateSku(_))
    ));
}

#[test]
fn rejects_amount_overflow() {
    assert!(matches!(
        validate_and_normalize(req(vec![("SKU-1", MAX_QUANTITY, i64::MAX)], "USD")),
        Err(ValidationError::AmountOverflow)
    ));
}

#[test]
fn rejects_a_sum_that_overflows() {
    assert_eq!(
        validate_and_normalize(req(vec![("A", 1, i64::MAX), ("B", 1, 1)], "USD")).unwrap_err(),
        ValidationError::AmountOverflow
    );
    assert_eq!(
        validate_and_normalize(req(vec![("A", 1, i64::MAX), ("B", 1, 0)], "USD"))
            .unwrap()
            .amount_minor,
        i64::MAX
    );
}

#[test]
fn refusals_come_in_sku_order() {
    assert_eq!(
        validate_and_normalize(req(vec![("Z", 0, 1), ("A", 1, -1)], "USD")).unwrap_err(),
        ValidationError::NegativeUnitPrice("A".to_string())
    );
    assert_eq!(
        validate_and_normalize(req(vec![("Z", 1, 1), ("Z", 1, 1), ("B", 1, 1), ("B", 1, 1)], "USD"))
            .unwrap_err(),
        ValidationError::DuplicateSku("B".to_string())
    );
}

#[test]
fn validation_errors_speak() {
    assert_eq!(
        ValidationError::ItemCountOutOfRange.message(),
        "items must contain between 1 and 100 entries"
    );
    assert_eq!(
        ValidationError::DuplicateSku("A".to_string()).message(),
        "duplicate sku in items: A"
    );
    assert_eq!(
        ValidationError::QuantityOutOfRange {
            sku: "A".to_string(),
            quantity: -3
        }
        .message(),
        "quantity for sku A must be between 1 and 10000, got -3"
    );
    assert_eq!(
        ValidationError::NegativeUnitPrice("A".to_string()).message(),
        "unit_price_minor for sku A must be non-negative"
    );
    assert_eq!(
        ValidationError::InvalidCurrency("u\"d".to_string()).message(),
        "currency must be an uppercase 3-letter ISO-4217-shaped code, got \"u\\\"d\""
    );
    assert_eq!(
        ValidationError::AmountOverflow.message(),
        "computed order amount overflowed i64"
    );
}

#[test]
fn line_order_does_not_change_the_normal_form() {
    let a = validate_and_normalize(req(vec![("B", 2, 10), ("A", 1, 5), ("C", 3, 7)], "USD"))
        .unwrap();
    let b = validate_and_normalize(req(vec![("C", 3, 7), ("A", 1, 5), ("B", 2, 10)], "USD"))
        .unwrap();
    let skus: Vec<&str> = a.items.iter().map(|i| i.sku.as_str()).collect();
    assert_eq!(skus, vec!["A", "B", "C"]);
    assert_eq!(a.amount_minor, 46);
    assert_eq!(fingerprint(&a), fingerprint(&b));
}

#[test]
fn fingerprint_is_the_digest_of_the_canonical_json() {
    let order = validate_and_normalize(req(
        vec![("SKU \"2\"\n\\é\u{1}", 2, 1250), ("A", 1, 0)],
        "USD",
    ))
    .unwrap();
    let text = "{\"items\":[{\"sku\":\"A\",\"quantity\":1,\"unit_price_minor\":0},\
                {\"unit_price_minor\":1250,\"sku\":\"SKU \\\"2\\\"\\n\\\\é\\u0001\",\"quantity\":2}],\
                \"currency\":\"USD\"}";
    let value: serde_json::Value = serde_json::from_str(text).unwrap();
    let bytes = serde_json::to_vec(&value).unwrap();
    let digest = <sha2::Sha256 as sha2::Digest>::digest(bytes);
    assert_eq!(fingerprint(&order), hex::encode(digest));
    assert_eq!(fingerprint(&order).len(), 64);
}

#[test]
fn canonical_json_is_what_serde_json_writes() {
    let skus = ["A-1", "quoted \"\\\u{7f}", "tab\tnew\nbell\u{7}", "\u{e9}\u{1F600}"];
    let items: Vec<ItemRequest> = skus
        .iter()
        .map(|sku| ItemRequest {
            sku: sku.to_string(),
            quantity: i64::MIN,
            unit_price_minor: 9_007_199_254_740_993,
        })
        .collect();
    let lines: Vec<serde_json::Value> = items
        .iter()
        .map(|item| {
            let mut line = serde_json::Map::new();
            line.insert("sku".to_string(), item.sku.clone().into());
            line.insert("quantity".to_string(), item.quantity.into());
            line.insert("unit_price_minor".to_string(), item.unit_price_minor.into());
            serde_json::Value::Object(line)
        })
        .collect();
    let order = NormalizedOrder {
        items,
        currency: "USD".to_string(),
        amount_minor: 1,
    };
    let mut canonical = serde_json::Map::new();
    canonical.insert("items".to_string(), lines.into());
    canonical.insert("currency".to_string(), "USD".into());
    let bytes = serde_json::to_vec(&serde_json::Value::Object(canonical)).unwrap();
    let digest = <sha2::Sha256 as sha2::Digest>::digest(bytes);
    assert_eq!(fingerprint(&order), hex::encode(digest));
}

#[test]
fn different_bodies_have_different_fingerprints() {
    let a = validate_and_normalize(req(vec![("A", 1, 5)], "USD")).unwrap();
    let b = validate_and_normalize(req(vec![("A", 2, 5)], "USD")).unwrap();
    let c = validate_and_normalize(req(vec![("A", 1, 5)], "EUR")).unwrap();
    assert_ne!(fingerprint(&a), fingerprint(&b));
    assert_ne!(fingerprint(&a), fingerprint(&c));
}

#[test]
fn legal_transition_graph_matches_spec() {
    assert!(is_legal_transition(OrderStatus::Pending, OrderStatus::InventoryReserved));
    assert!(is_legal_transition(
        OrderStatus::InventoryReserved,
        OrderStatus::PaymentAuthorized
    ));
    assert!(is_legal_transition(
        OrderStatus::PaymentAuthorized,
        OrderStatus::ReadyForFulfilment
    ));
    assert!(is_legal_transition(OrderStatus::ReadyForFulfilment, OrderStatus::Completed));
    assert!(is_legal_transition(OrderStatus::Pending, OrderStatus::Cancelling));
    assert!(is_legal_transition(OrderStatus::Cancelling, OrderStatus::Cancelled));
    assert!(is_legal_transition(OrderStatus::Cancelling, OrderStatus::ManualReview));

    assert!(!is_legal_transition(OrderStatus::Pending, OrderStatus::Completed));
    assert!(!is_legal_transition(OrderStatus::Pending, OrderStatus::PaymentAuthorized));
    assert!(!is_legal_transition(OrderStatus::Cancelled, OrderStatus::Pending));
    assert!(!is_legal_transition(OrderStatus::Completed, OrderStatus::Cancelling));
    assert!(!is_legal_transition(OrderStatus::ManualReview, OrderStatus::Cancelled));
}

#[test]
fn the_status_graph_has_ten_edges() {
    let all = [
        OrderStatus::Pending,
        OrderStatus::InventoryReserved,
        OrderStatus::PaymentAuthorized,
        OrderStatus::ReadyForFulfilment,
        OrderStatus::Completed,
        OrderStatus::Cancelling,
        OrderStatus::Cancelled,
        OrderStatus::ManualReview,
    ];
    let mut edges = 0;
    for from in all {
        for to in all {
            if is_legal_transition(from, to) {
                edges += 1;
            }
        }
    }
    assert_eq!(edges, 10);
    assert_eq!(OrderStatus::ReadyForFulfilment.text(), "READY_FOR_FULFILMENT");
}

#[test]
fn rejects_empty_request() {
    assert_eq!(validate_items(&[]), Err(ReservationRequestError::Empty));
}

#[test]
fn rejects_non_positive_quantity() {
    let raw = lines(&[("SKU-1", 0)]);
    assert_eq!(
        validate_items(&raw),
        Err(ReservationRequestError::NonPositiveQuantity {
            sku: "SKU-1".to_string(),
            quantity: 0
        })
    );
}

#[test]
fn rejects_duplicate_sku_in_one_request() {
    let raw = lines(&[("SKU-1", 1), ("SKU-1", 2)]);
    assert_eq!(
        validate_items(&raw),
        Err(ReservationRequestError::DuplicateSku("SKU-1".to_string()))
    );
}

#[test]
fn sorted_skus_is_deterministic_regardless_of_input_order() {
    let raw = lines(&[("SKU-B", 1), ("SKU-A", 2)]);
    let valid = validate_items(&raw).unwrap();
    assert_eq!(sorted_skus(&valid), vec!["SKU-A", "SKU-B"]);
}

#[test]
fn reservation_requests_keep_their_lines_and_report_the_first_refusal() {
    assert_eq!(
        validate_items(&lines(&[("B", 3), ("A", 1)])).unwrap(),
        vec![
            ReservationLine {
                sku: "B".to_string(),
                quantity: 3
            },
            ReservationLine {
                sku: "A".to_string(),
                quantity: 1
            }
        ]
    );
    let e = validate_items(&lines(&[("B", 3), ("B", -2), ("B", 1)])).unwrap_err();
    assert_eq!(e.message(), "quantity for sku B must be positive, got -2");
    let e = validate_items(&lines(&[("B", 3), ("B", 1), ("C", 0)])).unwrap_err();
    assert_eq!(e.message(), "duplicate sku B in one reservation request");
    assert_eq!(
        ReservationRequestError::Empty.message(),
        "reservation request has no items"
    );
}

#[test]
fn dlq_topic_appends_suffix() {
    assert_eq!(dlq_topic("inventory.commands.v1"), "inventory.commands.v1.dlq");
}

#[test]
fn version_decision_variants_are_distinct() {
    assert_ne!(VersionDecision::Apply, VersionDecision::Stale);
    assert_ne!(VersionDecision::Stale, VersionDecision::Gap);
}

#[test]
fn versions_apply_in_sequence_only() {
    assert_eq!(version_decision(None, 1), VersionDecision::Apply);
    assert_eq!(version_decision(None, 0), VersionDecision::Stale);
    assert_eq!(version_decision(None, 2), VersionDecision::Gap);
    assert_eq!(version_decision(Some(4), 5), VersionDecision::Apply);
    assert_eq!(version_decision(Some(4), 4), VersionDecision::Stale);
    assert_eq!(version_decision(Some(4), 6), VersionDecision::Gap);
    assert_eq!(version_decision(Some(i64::MAX), i64::MAX), VersionDecision::Stale);
    assert_eq!(fetch_offset(None), 0);
    assert_eq!(fetch_offset(Some(7)), 7);
}

#[test]
fn fake_clock_only_advances_when_told() {
    let start = SystemClock.now();
    let mut clock = FakeClock::at(start);
    assert_eq!(clock.now(), start);
    clock.advance(5_000_000_000);
    assert_eq!(
        clock.now(),
        Timestamp {
            seconds: start.seconds + 5,
            nanos: start.nanos
        }
    );
}

#[test]
fn the_system_clock_reads_the_present() {
    let before = chrono::Utc::now().timestamp();
    let now = SystemClock.now();
    let after = chrono::Utc::now().timestamp();
    assert!(before <= now.seconds && now.seconds <= after);
    assert!(now.nanos < 1_000_000_000);
}

#[test]
fn delivery_mode_defaults_to_outbox() {
    let config = Config::default();
    assert_eq!(config.delivery_mode, DeliveryMode::Outbox);
}

#[test]
fn failure_injection_refuses_production() {
    let config = FailureInjectionConfig {
        environment: "production".to_string(),
        failure_injection_enabled: true,
        failure_injection_token: String::new(),
    };
    let result = config.accept();
    assert!(result.is_err());
    assert_eq!(
        result.unwrap_err().message(),
        "FAILURE_INJECTION_ENABLED=true is refused when ENVIRONMENT=production"
    );
}

#[test]
fn failure_injection_allowed_outside_production() {
    let config = FailureInjectionConfig {
        environment: "development".to_string(),
        failure_injection_enabled: true,
        failure_injection_token: String::new(),
    };
    assert!(config.accept().expect("should load").enabled());
    assert!(!FailureInjectionConfig::default().enabled());
    assert!(!payments::config::FailureInjectionConfig::default().enabled());
}

#[test]
fn configuration_is_put_into_text() {
    assert_eq!(Config::default().socket_addr(), "0.0.0.0:8081");
    assert_eq!(payments::config::Config::default().socket_addr(), "0.0.0.0:8083");
    let database = DatabaseConfig {
        postgres_user: "app".to_string(),
        postgres_password: "pw".to_string(),
        postgres_host: "localhost".to_string(),
        postgres_port: 55432,
        postgres_orders_db: "orders".to_string(),
    };
    assert_eq!(
        database.database_url(),
        "postgres://app:pw@localhost:55432/orders"
    );
    let publisher = Config::default().publisher_config("me".to_string());
    assert_eq!(publisher.claimed_by, "me");
    assert_eq!(publisher.batch_size, 20);
    assert_eq!(publisher.lease_nanos, 30_000_000_000);
    assert_eq!(publisher.poll_interval.as_nanos(), 200_000_000);
    assert_eq!(publisher.backoff_base.as_nanos(), 100_000_000);
    assert_eq!(publisher.backoff_cap.as_nanos(), 30_000_000_000);
    let retry = payments::config::Config::default().provider_retry_config();
    assert_eq!(retry.max_attempts, 8);
    assert_eq!(retry.max_elapsed.as_nanos(), 600_000_000_000);
}
