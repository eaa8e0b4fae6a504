//! The rows of the order aggregate: creation under an idempotency key, and
//! version-guarded transitions.

use vstd::prelude::*;
use vstd::string::*;
use vstd::utf8::*;

use crate::contracts::inventory::{
    ReserveInventoryItem, ReserveInventoryItemView, ReserveInventoryPayload, ReserveInventoryView,
    INVENTORY_COMMANDS_TOPIC, RESERVE_INVENTORY_AGGREGATE_TYPE, RESERVE_INVENTORY_COMMAND_TYPE,
    RESERVE_INVENTORY_SCHEMA_VERSION,
};
use crate::contracts::orders::{
    OrderCreatedAmount, OrderCreatedAmountView, OrderCreatedItem, OrderCreatedItemView,
    OrderCreatedPayload, OrderCreatedView, ORDERS_PRODUCER_NAME, ORDER_AGGREGATE_TYPE,
    ORDER_CREATED_EVENT_TYPE, ORDER_CREATED_SCHEMA_VERSION, ORDER_CREATED_TOPIC,
};
use crate::contracts::{Envelope, EnvelopeView, EventPayload, EventPayloadView};
use crate::digest::{
    hex_encode, json_quote, json_string, json_strings_delimit_themselves, sha256, sha256_digest,
};
use crate::domain_common::is_version_7;
use crate::ids::{fresh_id, id_text};
use crate::model::{copy_opt_text, opt_view, views};
use crate::orders::config::DeliveryMode;
use crate::orders::domain::{
    is_legal_transition, legal, normalization_ignores_line_order, normalized,
    normalized_orders_are_valid, ItemRequest, ItemView, NormalizedOrder, NormalizedView,
    OrderStatus, RequestView,
};
use crate::persistence::outbox::{NewOutboxEvent, OutboxView};
use crate::text::{
    hex_text, i64_text, lemma_text_before_irreflexive, numbers_delimit_themselves, signed_decimal,
    text_eq, uuid_text,
};
use crate::time::Timestamp;

verus! {

/// An order.
#[derive(Debug)]
pub struct OrderRow {
    pub id: u128,
    pub idempotency_key: String,
    pub idempotency_request_hash: String,
    pub status: OrderStatus,
    pub currency: String,
    pub amount_minor: i64,
    pub version: i64,
    pub cancellation_reason: Option<String>,
    pub correlation_id: u128,
    pub created_at: Timestamp,
    pub updated_at: Timestamp,
}

impl Clone for OrderRow {
    fn clone(&self) -> (r: OrderRow)
        ensures
            r == *self,
    {
        OrderRow {
            id: self.id,
            idempotency_key: self.idempotency_key.clone(),
            idempotency_request_hash: self.idempotency_request_hash.clone(),
            status: self.status,
            currency: self.currency.clone(),
            amount_minor: self.amount_minor,
            version: self.version,
            cancellation_reason: copy_opt_text(&self.cancellation_reason),
            correlation_id: self.correlation_id,
            created_at: self.created_at,
            updated_at: self.updated_at,
        }
    }
}

/// What an [`OrderRow`] says.
pub struct OrderView {
    pub id: u128,
    pub idempotency_key: Seq<char>,
    pub idempotency_request_hash: Seq<char>,
    pub status: OrderStatus,
    pub currency: Seq<char>,
    pub amount_minor: i64,
    pub version: i64,
    pub cancellation_reason: Option<Seq<char>>,
    pub correlation_id: u128,
    pub created_at: Timestamp,
    pub updated_at: Timestamp,
}

impl View for OrderRow {
    type V = OrderView;

    open spec fn view(&self) -> OrderView {
        OrderView {
            id: self.id,
            idempotency_key: self.idempotency_key@,
            idempotency_request_hash: self.idempotency_request_hash@,
            status: self.status,
            currency: self.currency@,
            amount_minor: self.amount_minor,
            version: self.version,
            cancellation_reason: opt_view(self.cancellation_reason),
            correlation_id: self.correlation_id,
            created_at: self.created_at,
            updated_at: self.updated_at,
        }
    }
}

/// A line of an order.
#[derive(Debug)]
pub struct OrderItemRow {
    pub sku: String,
    pub quantity: i64,
    pub unit_price_minor: i64,
}

impl Clone for OrderItemRow {
    fn clone(&self) -> (r: OrderItemRow)
        ensures
            r == *self,
    {
        OrderItemRow {
            sku: self.sku.clone(),
            quantity: self.quantity,
            unit_price_minor: self.unit_price_minor,
        }
    }
}

impl View for OrderItemRow {
    type V = ItemView;

    open spec fn view(&self) -> ItemView {
        ItemView {
            sku: self.sku@,
            quantity: self.quantity,
            unit_price_minor: self.unit_price_minor,
        }
    }
}

/// A change of an order's status.
#[derive(Debug)]
pub struct TransitionRow {
    pub id: u128,
    pub order_id: u128,
    pub from_status: Option<OrderStatus>,
    pub to_status: OrderStatus,
    pub reason: Option<String>,
    pub triggering_event_id: Option<u128>,
    pub order_version: i64,
    pub created_at: Timestamp,
}

impl Clone for TransitionRow {
    fn clone(&self) -> (r: TransitionRow)
        ensures
            r == *self,
    {
        TransitionRow {
            id: self.id,
            order_id: self.order_id,
            from_status: self.from_status,
            to_status: self.to_status,
            reason: copy_opt_text(&self.reason),
            triggering_event_id: self.triggering_event_id,
            order_version: self.order_version,
            created_at: self.created_at,
        }
    }
}

/// What a [`TransitionRow`] says.
pub struct TransitionView {
    pub id: u128,
    pub order_id: u128,
    pub from_status: Option<OrderStatus>,
    pub to_status: OrderStatus,
    pub reason: Option<Seq<char>>,
    pub triggering_event_id: Option<u128>,
    pub order_version: i64,
    pub created_at: Timestamp,
}

impl View for TransitionRow {
    type V = TransitionView;

    open spec fn view(&self) -> TransitionView {
        TransitionView {
            id: self.id,
            order_id: self.order_id,
            from_status: self.from_status,
            to_status: self.to_status,
            reason: opt_view(self.reason),
            triggering_event_id: self.triggering_event_id,
            order_version: self.order_version,
            created_at: self.created_at,
        }
    }
}

/// Why a transition is refused.
#[derive(Debug, Clone, Copy, PartialEq, Eq, Structural)]
pub enum TransitionError {
    NotFound,
    IllegalTransition { from: OrderStatus, to: OrderStatus },
    VersionConflict { expected: i64 },
}

/// The order after a legal step to `to`: one version later.
pub open spec fn stepped(order: OrderView, to: OrderStatus, now: Timestamp) -> OrderView {
    OrderView { status: to, version: (order.version + 1) as i64, updated_at: now, ..order }
}

/// The record of a step of `order` to `to`.
pub open spec fn step_record(
    order: OrderView,
    to: OrderStatus,
    reason: Option<Seq<char>>,
    trigger: Option<u128>,
    id: u128,
    now: Timestamp,
) -> TransitionView {
    TransitionView {
        id,
        order_id: order.id,
        from_status: Some(order.status),
        to_status: to,
        reason,
        triggering_event_id: trigger,
        order_version: (order.version + 1) as i64,
        created_at: now,
    }
}

/// What a request to move an order comes to: the order after the step, or
/// the refusal.
pub open spec fn transition_verdict(
    current: Option<OrderView>,
    expected_version: i64,
    to: OrderStatus,
    now: Timestamp,
) -> Result<OrderView, TransitionError> {
    match current {
        None => Err(TransitionError::NotFound),
        Some(order) => if !legal(order.status, to) {
            Err((TransitionError::IllegalTransition { from: order.status, to }))
        } else if order.version != expected_version {
            Err((TransitionError::VersionConflict { expected: expected_version }))
        } else {
            Ok(stepped(order, to, now))
        },
    }
}

/// Moves an order that stands at `expected_version` to `to`. The result holds
/// the order after the step and the record of the step, under a fresh
/// identifier; a refusal writes nothing.
pub fn transition_order(
    current: Option<OrderRow>,
    expected_version: i64,
    to: OrderStatus,
    reason: Option<String>,
    now: Timestamp,
) -> (r: Result<(OrderRow, TransitionRow), TransitionError>)
    requires
        current is Some ==> current->0.version < i64::MAX,
    ensures
        match (r, transition_verdict(opt_view(current), expected_version, to, now)) {
            (Ok((row, record)), Ok(order)) => {
                &&& row@ == order
                &&& record@ == step_record(
                    current->0@,
                    to,
                    opt_view(reason),
                    None,
                    record.id,
                    now,
                )
                &&& is_version_7(record.id)
            },
            (Err(e), Err(refusal)) => e == refusal,
            _ => false,
        },
{
    let order: OrderRow = match current {
        Some(order) => order,
        None => {
            return Err(TransitionError::NotFound);
        },
    };
    if !is_legal_transition(order.status, to) {
        return Err(TransitionError::IllegalTransition { from: order.status, to });
    }
    if order.version != expected_version {
        return Err(TransitionError::VersionConflict { expected: expected_version });
    }
    Ok(step(order, to, reason, None, fresh_id(), now))
}

/// Takes a step.
pub fn step(
    order: OrderRow,
    to: OrderStatus,
    reason: Option<String>,
    trigger: Option<u128>,
    id: u128,
    now: Timestamp,
) -> (r: (OrderRow, TransitionRow))
    requires
        order.version < i64::MAX,
    ensures
        r.0@ == stepped(order@, to, now),
        r.1@ == step_record(order@, to, opt_view(reason), trigger, id, now),
{
    let version: i64 = order.version + 1;
    let record = TransitionRow {
        id,
        order_id: order.id,
        from_status: Some(order.status),
        to_status: to,
        reason,
        triggering_event_id: trigger,
        order_version: version,
        created_at: now,
    };
    let mut order = order;
    order.status = to;
    order.version = version;
    order.updated_at = now;
    (order, record)
}

/// Why an order is not created.
#[derive(Debug)]
pub enum RepoError {
    IdempotencyKeyReused,
    Storage(String),
}

/// What a [`RepoError`] says.
pub enum RepoErrorView {
    IdempotencyKeyReused,
    Storage(Seq<char>),
}

impl View for RepoError {
    type V = RepoErrorView;

    open spec fn view(&self) -> RepoErrorView {
        match *self {
            RepoError::IdempotencyKeyReused => RepoErrorView::IdempotencyKeyReused,
            RepoError::Storage(detail) => RepoErrorView::Storage(detail@),
        }
    }
}

/// The order that a request led to.
#[derive(Debug)]
pub struct CreateOutcome {
    pub order: OrderRow,
    pub items: Vec<OrderItemRow>,
    /// Whether this request created the order, rather than repeat one that
    /// did.
    pub created: bool,
}

/// One line in the canonical form of a request.
pub open spec fn canonical_item(item: ItemView) -> Seq<char> {
    "{\"quantity\":"@ + signed_decimal(item.quantity as int) + ",\"sku\":"@ + json_string(item.sku)
        + ",\"unit_price_minor\":"@ + signed_decimal(item.unit_price_minor as int) + "}"@
}

/// Further lines in the canonical form of a request, each behind a comma.
pub open spec fn further_items(items: Seq<ItemView>) -> Seq<char>
    decreases items.len(),
{
    if items.len() == 0 {
        Seq::empty()
    } else {
        ","@ + canonical_item(items[0]) + further_items(items.drop_first())
    }
}

/// The lines in the canonical form of a request, with commas between them.
pub open spec fn canonical_items(items: Seq<ItemView>) -> Seq<char> {
    if items.len() == 0 {
        Seq::empty()
    } else {
        canonical_item(items[0]) + further_items(items.drop_first())
    }
}

proof fn lemma_concat(a: Seq<char>, b: Seq<char>, c: Seq<char>)
    ensures
        a + (b + c) == (a + b) + c,
        a + Seq::<char>::empty() == a,
        Seq::<char>::empty() + a == a,
{
    assert(a + (b + c) =~= (a + b) + c);
    assert(a + Seq::<char>::empty() =~= a);
    assert(Seq::<char>::empty() + a =~= a);
}

proof fn lemma_further_items_push(items: Seq<ItemView>, item: ItemView)
    ensures
        further_items(items.push(item)) == further_items(items) + (","@ + canonical_item(item)),
    decreases items.len(),
{
    let all = items.push(item);
    let last = ","@ + canonical_item(item);
    if items.len() == 0 {
        assert(all.drop_first() =~= Seq::<ItemView>::empty());
        assert(further_items(all.drop_first()) == Seq::<char>::empty());
        lemma_concat(last, last, last);
    } else {
        let first = ","@ + canonical_item(items[0]);
        let rest = further_items(items.drop_first());
        assert(all.drop_first() =~= items.drop_first().push(item));
        lemma_further_items_push(items.drop_first(), item);
        assert(further_items(all) == first + (rest + last));
        assert(further_items(items) == first + rest);
        lemma_concat(first, rest, last);
    }
}

/// A line more in the canonical form of a request is the line behind those
/// before it, with a comma in between.
pub proof fn lemma_canonical_items_push(items: Seq<ItemView>, item: ItemView)
    ensures
        canonical_items(items.push(item)) == if items.len() == 0 {
            canonical_item(item)
        } else {
            canonical_items(items) + (","@ + canonical_item(item))
        },
{
    let all = items.push(item);
    if items.len() == 0 {
        let only = canonical_item(item);
        assert(all.drop_first() =~= Seq::<ItemView>::empty());
        assert(further_items(all.drop_first()) == Seq::<char>::empty());
        lemma_concat(only, only, only);
    } else {
        let first = canonical_item(items[0]);
        let rest = further_items(items.drop_first());
        let last = ","@ + canonical_item(item);
        assert(all.drop_first() =~= items.drop_first().push(item));
        lemma_further_items_push(items.drop_first(), item);
        assert(canonical_items(all) == first + (rest + last));
        assert(canonical_items(items) == first + rest);
        lemma_concat(first, rest, last);
    }
}

/// The canonical form of a request: compact JSON with its keys in order.
pub open spec fn canonical_text(order: NormalizedView) -> Seq<char> {
    "{\"currency\":"@ + json_string(order.currency) + ",\"items\":["@ + canonical_items(order.items)
        + "]}"@
}

/// The fingerprint of a request: the SHA-256 digest of its canonical form, in
/// hexadecimal.
pub open spec fn fingerprint_of(order: NormalizedView) -> Seq<char> {
    hex_text(sha256(encode_utf8(canonical_text(order))))
}

/// The fingerprint of a request.
pub fn fingerprint(normalized: &NormalizedOrder) -> (r: String)
    ensures
        r@ == fingerprint_of(normalized@),
{
    let mut text: String = "{\"currency\":".to_owned();
    text.append(json_quote(normalized.currency.as_str()).as_str());
    text.append(",\"items\":[");
    let ghost head = text@;
    let ghost all = views(normalized.items@);
    let mut i: usize = 0;
    assert(text@ =~= head + canonical_items(all.subrange(0, 0)));
    while i < normalized.items.len()
        invariant
            i <= normalized.items.len(),
            all == views(normalized.items@),
            all.len() == normalized.items.len(),
            text@ == head + canonical_items(all.subrange(0, i as int)),
        decreases normalized.items.len() - i,
    {
        let item = &normalized.items[i];
        let ghost before = all.subrange(0, i as int);
        let ghost upto = all.subrange(0, i + 1);
        proof {
            assert(all[i as int] == item@);
            assert(upto =~= before.push(item@));
            lemma_canonical_items_push(before, item@);
        }
        if i > 0 {
            text.append(",");
        }
        let line: String = write_item(item);
        text.append(line.as_str());
        assert(text@ =~= head + canonical_items(upto));
        i = i + 1;
    }
    assert(all.subrange(0, i as int) =~= all);
    text.append("]}");
    let digest: Vec<u8> = sha256_digest(text.as_str().as_bytes());
    hex_encode(digest.as_slice())
}

fn write_item(item: &ItemRequest) -> (r: String)
    ensures
        r@ == canonical_item(item@),
{
    let mut text: String = "{\"quantity\":".to_owned();
    text.append(i64_text(item.quantity).as_str());
    text.append(",\"sku\":");
    text.append(json_quote(item.sku.as_str()).as_str());
    text.append(",\"unit_price_minor\":");
    text.append(i64_text(item.unit_price_minor).as_str());
    text.append("}");
    text
}

/// Identifiers for an order and the record of its creation.
#[derive(Debug, Clone, Copy, PartialEq, Eq, Structural)]
pub struct OrderIds {
    pub order: u128,
    pub transition: u128,
}

impl OrderIds {
    /// The identifiers are fresh ones.
    pub open spec fn drawn(self) -> bool {
        is_version_7(self.order) && is_version_7(self.transition)
    }

    /// Draws fresh identifiers.
    pub fn draw() -> (r: OrderIds)
        ensures
            r.drawn(),
    {
        OrderIds { order: fresh_id(), transition: fresh_id() }
    }
}

/// Identifiers for an order and the messages of a delivery mode.
#[derive(Debug, Clone, Copy, PartialEq, Eq, Structural)]
pub struct CreationIds {
    pub order: u128,
    pub transition: u128,
    pub created_event: u128,
    pub reserve_event: u128,
    pub cause: u128,
}

impl CreationIds {
    /// The identifiers are fresh ones.
    pub open spec fn drawn(self) -> bool {
        &&& is_version_7(self.order)
        &&& is_version_7(self.transition)
        &&& is_version_7(self.created_event)
        &&& is_version_7(self.reserve_event)
        &&& is_version_7(self.cause)
    }

    /// Draws fresh identifiers.
    pub fn draw() -> (r: CreationIds)
        ensures
            r.drawn(),
    {
        CreationIds {
            order: fresh_id(),
            transition: fresh_id(),
            created_event: fresh_id(),
            reserve_event: fresh_id(),
            cause: fresh_id(),
        }
    }
}

/// What a creation comes to: the order, and what is written with it. Nothing
/// is written for a repeated request.
#[derive(Debug)]
pub struct Creation {
    pub outcome: CreateOutcome,
    pub transition: Option<TransitionRow>,
    pub inventory_commands: i64,
    pub outbox: Vec<NewOutboxEvent>,
}

/// What a [`Creation`] says.
pub struct CreationView {
    pub order: OrderView,
    pub items: Seq<ItemView>,
    pub created: bool,
    pub transition: Option<TransitionView>,
    pub inventory_commands: i64,
    pub outbox: Seq<OutboxView>,
}

impl View for Creation {
    type V = CreationView;

    open spec fn view(&self) -> CreationView {
        CreationView {
            order: self.outcome.order@,
            items: views(self.outcome.items@),
            created: self.outcome.created,
            transition: opt_view(self.transition),
            inventory_commands: self.inventory_commands,
            outbox: views(self.outbox@),
        }
    }
}

/// The order that a request creates.
pub open spec fn new_order(
    key: Seq<char>,
    request: NormalizedView,
    correlation_id: u128,
    id: u128,
    now: Timestamp,
) -> OrderView {
    OrderView {
        id,
        idempotency_key: key,
        idempotency_request_hash: fingerprint_of(request),
        status: OrderStatus::Pending,
        currency: request.currency,
        amount_minor: request.amount_minor,
        version: 1,
        cancellation_reason: None,
        correlation_id,
        created_at: now,
        updated_at: now,
    }
}

/// The record of a creation.
pub open spec fn creation_record(order_id: u128, id: u128, now: Timestamp) -> TransitionView {
    TransitionView {
        id,
        order_id,
        from_status: None,
        to_status: OrderStatus::Pending,
        reason: Some("order created"@),
        triggering_event_id: None,
        order_version: 1,
        created_at: now,
    }
}

/// The lines of an order as `order_created` tells them.
pub open spec fn created_items(items: Seq<ItemView>) -> Seq<OrderCreatedItemView> {
    Seq::new(
        items.len(),
        |i: int| OrderCreatedItemView { sku: items[i].sku, quantity: items[i].quantity },
    )
}

/// The `order_created` event.
pub open spec fn created_envelope(
    order_id: u128,
    order_version: i64,
    currency: Seq<char>,
    amount_minor: i64,
    items: Seq<ItemView>,
    correlation_id: u128,
    event_id: u128,
    cause: u128,
    now: Timestamp,
) -> EnvelopeView<EventPayloadView> {
    EnvelopeView {
        event_id,
        event_type: ORDER_CREATED_EVENT_TYPE@,
        schema_version: ORDER_CREATED_SCHEMA_VERSION,
        occurred_at: now,
        producer: ORDERS_PRODUCER_NAME@,
        aggregate_type: ORDER_AGGREGATE_TYPE@,
        aggregate_id: order_id,
        aggregate_version: order_version,
        correlation_id,
        causation_id: cause,
        traceparent: None,
        payload: EventPayloadView::OrderCreated(
            OrderCreatedView {
                order_id,
                items: created_items(items),
                amount: OrderCreatedAmountView { currency, minor_units: amount_minor },
            },
        ),
    }
}

/// Builds the `order_created` event.
pub fn build_created_envelope(
    order_id: u128,
    order_version: i64,
    currency: &str,
    amount_minor: i64,
    items: &Vec<OrderItemRow>,
    correlation_id: u128,
    event_id: u128,
    cause: u128,
    now: Timestamp,
) -> (r: Envelope<EventPayload>)
    ensures
        r@ == created_envelope(
            order_id,
            order_version,
            currency@,
            amount_minor,
            views(items@),
            correlation_id,
            event_id,
            cause,
            now,
        ),
{
    let mut lines: Vec<OrderCreatedItem> = Vec::new();
    let ghost all = views(items@);
    let mut i: usize = 0;
    while i < items.len()
        invariant
            i <= items.len(),
            all == views(items@),
            views(lines@) == created_items(all.subrange(0, i as int)),
        decreases items.len() - i,
    {
        let ghost held = lines@;
        let line = OrderCreatedItem { sku: items[i].sku.clone(), quantity: items[i].quantity };
        let ghost shown = line@;
        lines.push(line);
        proof {
            assert(views(lines@) =~= views(held).push(shown));
            assert(all[i as int] == items@[i as int]@);
            assert(created_items(all.subrange(0, i + 1)) =~= created_items(all.subrange(0, i as int)).push(shown));
        }
        i = i + 1;
    }
    assert(all.subrange(0, i as int) =~= all);
    Envelope {
        event_id,
        event_type: ORDER_CREATED_EVENT_TYPE.to_owned(),
        schema_version: ORDER_CREATED_SCHEMA_VERSION,
        occurred_at: now,
        producer: ORDERS_PRODUCER_NAME.to_owned(),
        aggregate_type: ORDER_AGGREGATE_TYPE.to_owned(),
        aggregate_id: order_id,
        aggregate_version: order_version,
        correlation_id,
        causation_id: cause,
        traceparent: None,
        payload: EventPayload::OrderCreated(
            OrderCreatedPayload {
                order_id,
                items: lines,
                amount: OrderCreatedAmount {
                    currency: currency.to_owned(),
                    minor_units: amount_minor,
                },
            },
        ),
    }
}

/// The lines of an order as `reserve_inventory` asks for them.
pub open spec fn reserve_items(items: Seq<ItemView>) -> Seq<ReserveInventoryItemView> {
    Seq::new(
        items.len(),
        |i: int| ReserveInventoryItemView { sku: items[i].sku, quantity: items[i].quantity },
    )
}

/// The `reserve_inventory` command.
pub open spec fn reserve_envelope(
    order_id: u128,
    order_version: i64,
    items: Seq<ItemView>,
    correlation_id: u128,
    command_version: i64,
    event_id: u128,
    cause: u128,
    now: Timestamp,
) -> EnvelopeView<EventPayloadView> {
    EnvelopeView {
        event_id,
        event_type: RESERVE_INVENTORY_COMMAND_TYPE@,
        schema_version: RESERVE_INVENTORY_SCHEMA_VERSION,
        occurred_at: now,
        producer: ORDERS_PRODUCER_NAME@,
        aggregate_type: RESERVE_INVENTORY_AGGREGATE_TYPE@,
        aggregate_id: order_id,
        aggregate_version: command_version,
        correlation_id,
        causation_id: cause,
        traceparent: None,
        payload: EventPayloadView::ReserveInventory(
            ReserveInventoryView {
                order_id,
                items: reserve_items(items),
                expected_order_version: order_version,
            },
        ),
    }
}

/// Builds the `reserve_inventory` command.
pub fn build_reserve_envelope(
    order_id: u128,
    order_version: i64,
    items: &Vec<OrderItemRow>,
    correlation_id: u128,
    command_version: i64,
    event_id: u128,
    cause: u128,
    now: Timestamp,
) -> (r: Envelope<EventPayload>)
    ensures
        r@ == reserve_envelope(
            order_id,
            order_version,
            views(items@),
            correlation_id,
            command_version,
            event_id,
            cause,
            now,
        ),
{
    let mut lines: Vec<ReserveInventoryItem> = Vec::new();
    let ghost all = views(items@);
    let mut i: usize = 0;
    while i < items.len()
        invariant
            i <= items.len(),
            all == views(items@),
            views(lines@) == reserve_items(all.subrange(0, i as int)),
        decreases items.len() - i,
    {
        let ghost held = lines@;
        let line = ReserveInventoryItem { sku: items[i].sku.clone(), quantity: items[i].quantity };
        let ghost shown = line@;
        lines.push(line);
        proof {
            assert(views(lines@) =~= views(held).push(shown));
            assert(all[i as int] == items@[i as int]@);
            assert(reserve_items(all.subrange(0, i + 1)) =~= reserve_items(all.subrange(0, i as int)).push(shown));
        }
        i = i + 1;
    }
    assert(all.subrange(0, i as int) =~= all);
    Envelope {
        event_id,
        event_type: RESERVE_INVENTORY_COMMAND_TYPE.to_owned(),
        schema_version: RESERVE_INVENTORY_SCHEMA_VERSION,
        occurred_at: now,
        producer: ORDERS_PRODUCER_NAME.to_owned(),
        aggregate_type: RESERVE_INVENTORY_AGGREGATE_TYPE.to_owned(),
        aggregate_id: order_id,
        aggregate_version: command_version,
        correlation_id,
        causation_id: cause,
        traceparent: None,
        payload: EventPayload::ReserveInventory(
            ReserveInventoryPayload {
                order_id,
                items: lines,
                expected_order_version: order_version,
            },
        ),
    }
}

/// An envelope as it stands in the outbox.
pub open spec fn outbox_row(
    envelope: EnvelopeView<EventPayloadView>,
    topic: Seq<char>,
    order_id: u128,
) -> OutboxView {
    OutboxView {
        id: envelope.event_id,
        aggregate_type: envelope.aggregate_type,
        aggregate_id: envelope.aggregate_id,
        aggregate_version: envelope.aggregate_version,
        topic,
        message_key: uuid_text(order_id),
        envelope,
    }
}

fn enqueue(envelope: Envelope<EventPayload>, topic: &str, order_id: u128) -> (r: NewOutboxEvent)
    ensures
        r@ == outbox_row(envelope@, topic@, order_id),
{
    NewOutboxEvent {
        id: envelope.event_id,
        aggregate_type: envelope.aggregate_type.clone(),
        aggregate_id: envelope.aggregate_id,
        aggregate_version: envelope.aggregate_version,
        topic: topic.to_owned(),
        message_key: id_text(order_id),
        envelope,
    }
}

/// The messages that the service commits together with a new order: in outbox
/// mode its announcement and, caused by that, the command to reserve its
/// stock.
pub open spec fn creation_messages(
    mode: DeliveryMode,
    order_id: u128,
    order_version: i64,
    command_version: i64,
    request: NormalizedView,
    correlation_id: u128,
    ids: CreationIds,
    now: Timestamp,
) -> Seq<OutboxView> {
    match mode {
        DeliveryMode::Naive => Seq::empty(),
        DeliveryMode::Outbox => seq![
            outbox_row(
                created_envelope(
                    order_id,
                    order_version,
                    request.currency,
                    request.amount_minor,
                    request.items,
                    correlation_id,
                    ids.created_event,
                    ids.cause,
                    now,
                ),
                ORDER_CREATED_TOPIC@,
                order_id,
            ),
            outbox_row(
                reserve_envelope(
                    order_id,
                    order_version,
                    request.items,
                    correlation_id,
                    command_version,
                    ids.reserve_event,
                    ids.created_event,
                    now,
                ),
                INVENTORY_COMMANDS_TOPIC@,
                order_id,
            ),
        ],
    }
}

fn build_creation_messages(
    mode: DeliveryMode,
    order_id: u128,
    order_version: i64,
    command_version: i64,
    normalized: &NormalizedOrder,
    correlation_id: u128,
    ids: &CreationIds,
    now: Timestamp,
) -> (r: Vec<NewOutboxEvent>)
    ensures
        views(r@) == creation_messages(
            mode,
            order_id,
            order_version,
            command_version,
            normalized@,
            correlation_id,
            *ids,
            now,
        ),
{
    let mut outbox: Vec<NewOutboxEvent> = Vec::new();
    match mode {
        DeliveryMode::Naive => {},
        DeliveryMode::Outbox => {
            let items: Vec<OrderItemRow> = item_rows(&normalized.items);
            let created: Envelope<EventPayload> = build_created_envelope(
                order_id,
                order_version,
                normalized.currency.as_str(),
                normalized.amount_minor,
                &items,
                correlation_id,
                ids.created_event,
                ids.cause,
                now,
            );
            let reserve: Envelope<EventPayload> = build_reserve_envelope(
                order_id,
                order_version,
                &items,
                correlation_id,
                command_version,
                ids.reserve_event,
                ids.created_event,
                now,
            );
            outbox.push(enqueue(created, ORDER_CREATED_TOPIC, order_id));
            outbox.push(enqueue(reserve, INVENTORY_COMMANDS_TOPIC, order_id));
        },
    }
    assert(views(outbox@) =~= creation_messages(
        mode,
        order_id,
        order_version,
        command_version,
        normalized@,
        correlation_id,
        *ids,
        now,
    ));
    outbox
}

/// An order that holds the idempotency key already.
#[derive(Debug)]
pub struct ExistingOrder {
    pub order: OrderRow,
    pub items: Vec<OrderItemRow>,
}

/// What an [`ExistingOrder`] says.
pub struct ExistingView {
    pub order: OrderView,
    pub items: Seq<ItemView>,
}

impl View for ExistingOrder {
    type V = ExistingView;

    open spec fn view(&self) -> ExistingView {
        ExistingView { order: self.order@, items: views(self.items@) }
    }
}

/// The key of an order's lines: no two of them name the same SKU.
pub open spec fn names_each_sku_once(items: Seq<ItemView>) -> bool {
    forall|i: int, j: int|
        0 <= i < j < items.len() ==> #[trigger] items[i].sku != #[trigger] items[j].sku
}

/// Whether one of the messages is a command to the inventory service.
pub open spec fn commands_inventory(outbox: Seq<OutboxView>) -> bool {
    exists|i: int|
        0 <= i < outbox.len() && (#[trigger] outbox[i]).topic == INVENTORY_COMMANDS_TOPIC@
}

/// What a request under an idempotency key comes to: a new order together
/// with its messages, or the order that the same request led to before. A key
/// that belongs to another request is refused, and so are lines that cannot
/// be stored.
pub open spec fn creation(
    key: Seq<char>,
    request: NormalizedView,
    correlation_id: u128,
    existing: Option<ExistingView>,
    ids: OrderIds,
    outbox: Seq<OutboxView>,
    now: Timestamp,
) -> Result<CreationView, RepoErrorView> {
    match existing {
        Some(found) => if found.order.idempotency_request_hash != fingerprint_of(request) {
            Err(RepoErrorView::IdempotencyKeyReused)
        } else {
            Ok(
                (CreationView {
                    order: found.order,
                    items: found.items,
                    created: false,
                    transition: None,
                    inventory_commands: 0,
                    outbox: Seq::empty(),
                }),
            )
        },
        None => if !names_each_sku_once(request.items) {
            Err(RepoErrorView::Storage("duplicate key in order_items"@))
        } else {
            Ok(
                (CreationView {
                    order: new_order(key, request, correlation_id, ids.order, now),
                    items: request.items,
                    created: true,
                    transition: Some(creation_record(ids.order, ids.transition, now)),
                    inventory_commands: if commands_inventory(outbox) {
                        1
                    } else {
                        0
                    },
                    outbox,
                }),
            )
        },
    }
}

/// What a request comes to with the messages of a delivery mode.
pub open spec fn placement(
    key: Seq<char>,
    request: NormalizedView,
    correlation_id: u128,
    existing: Option<ExistingView>,
    mode: DeliveryMode,
    ids: CreationIds,
    now: Timestamp,
) -> Result<CreationView, RepoErrorView> {
    creation(
        key,
        request,
        correlation_id,
        existing,
        OrderIds { order: ids.order, transition: ids.transition },
        creation_messages(mode, ids.order, 1, 1, request, correlation_id, ids, now),
        now,
    )
}

fn each_sku_once(items: &Vec<ItemRequest>) -> (r: bool)
    ensures
        r == names_each_sku_once(views(items@)),
{
    let ghost all = views(items@);
    let mut i: usize = 0;
    while i < items.len()
        invariant
            i <= items.len(),
            all == views(items@),
            forall|x: int, y: int|
                0 <= x < y < i ==> #[trigger] all[x].sku != #[trigger] all[y].sku,
        decreases items.len() - i,
    {
        let mut j: usize = 0;
        while j < i
            invariant
                j <= i < items.len(),
                all == views(items@),
                forall|x: int| 0 <= x < j ==> #[trigger] all[x].sku != all[i as int].sku,
            decreases i - j,
        {
            if text_eq(items[j].sku.as_str(), items[i].sku.as_str()) {
                assert(all[j as int].sku == all[i as int].sku);
                return false;
            }
            assert(all[j as int].sku != all[i as int].sku);
            j = j + 1;
        }
        i = i + 1;
    }
    true
}

fn item_rows(items: &Vec<ItemRequest>) -> (r: Vec<OrderItemRow>)
    ensures
        views(r@) == views(items@),
{
    let mut rows: Vec<OrderItemRow> = Vec::new();
    let ghost all = views(items@);
    let mut i: usize = 0;
    while i < items.len()
        invariant
            i <= items.len(),
            all == views(items@),
            views(rows@) == all.subrange(0, i as int),
        decreases items.len() - i,
    {
        let ghost held = rows@;
        let row = OrderItemRow {
            sku: items[i].sku.clone(),
            quantity: items[i].quantity,
            unit_price_minor: items[i].unit_price_minor,
        };
        let ghost shown = row@;
        rows.push(row);
        proof {
            assert(views(rows@) =~= views(held).push(shown));
            assert(all[i as int] == items@[i as int]@);
            assert(all.subrange(0, i + 1) =~= all.subrange(0, i as int).push(shown));
        }
        i = i + 1;
    }
    assert(views(rows@) =~= all);
    rows
}

fn has_inventory_command(outbox: &Vec<NewOutboxEvent>) -> (r: bool)
    ensures
        r == commands_inventory(views(outbox@)),
{
    let ghost all = views(outbox@);
    let mut i: usize = 0;
    while i < outbox.len()
        invariant
            i <= outbox.len(),
            all == views(outbox@),
            forall|k: int|
                0 <= k < i ==> (#[trigger] all[k]).topic != INVENTORY_COMMANDS_TOPIC@,
        decreases outbox.len() - i,
    {
        if text_eq(outbox[i].topic.as_str(), INVENTORY_COMMANDS_TOPIC) {
            assert(all[i as int].topic == INVENTORY_COMMANDS_TOPIC@);
            return true;
        }
        i = i + 1;
    }
    false
}

/// The messages of a creation that was not refused.
pub open spec fn messages_of(r: Result<Creation, RepoError>) -> Seq<OutboxView> {
    match r {
        Ok(made) => views(made.outbox@),
        Err(_) => Seq::empty(),
    }
}

/// Creates an order under an idempotency key with the given identifiers, or
/// repeats the one that the same request led to. For a new order
/// `build_outbox_events` builds the messages that are committed with it, from
/// its identifier, its version, and the number of its first command to the
/// inventory service.
pub fn plan_order<F: FnOnce(u128, i64, i64) -> Vec<NewOutboxEvent>>(
    idempotency_key: &str,
    normalized: &NormalizedOrder,
    correlation_id: u128,
    existing: Option<ExistingOrder>,
    ids: &OrderIds,
    now: Timestamp,
    build_outbox_events: F,
) -> (r: Result<Creation, RepoError>)
    requires
        existing is None ==> call_requires(build_outbox_events, (ids.order, 1i64, 1i64)),
    ensures
        created_as(
            r,
            creation(
                idempotency_key@,
                normalized@,
                correlation_id,
                opt_view(existing),
                *ids,
                messages_of(r),
                now,
            ),
        ),
        r matches Ok(made) ==> made.outcome.created ==> call_ensures(
            build_outbox_events,
            (ids.order, 1i64, 1i64),
            made.outbox,
        ),
{
    let request_hash: String = fingerprint(normalized);
    match existing {
        Some(found) => {
            if !text_eq(
                found.order.idempotency_request_hash.as_str(),
                request_hash.as_str(),
            ) {
                return Err(RepoError::IdempotencyKeyReused);
            }
            let outbox: Vec<NewOutboxEvent> = Vec::new();
            assert(views(outbox@) =~= Seq::<OutboxView>::empty());
            Ok(
                Creation {
                    outcome: CreateOutcome {
                        order: found.order,
                        items: found.items,
                        created: false,
                    },
                    transition: None,
                    inventory_commands: 0,
                    outbox,
                },
            )
        },
        None => {
            if !each_sku_once(&normalized.items) {
                return Err(RepoError::Storage("duplicate key in order_items".to_owned()));
            }
            let order = OrderRow {
                id: ids.order,
                idempotency_key: idempotency_key.to_owned(),
                idempotency_request_hash: request_hash,
                status: OrderStatus::Pending,
                currency: normalized.currency.clone(),
                amount_minor: normalized.amount_minor,
                version: 1,
                cancellation_reason: None,
                correlation_id,
                created_at: now,
                updated_at: now,
            };
            let items: Vec<OrderItemRow> = item_rows(&normalized.items);
            let transition = TransitionRow {
                id: ids.transition,
                order_id: ids.order,
                from_status: None,
                to_status: OrderStatus::Pending,
                reason: Some("order created".to_owned()),
                triggering_event_id: None,
                order_version: 1,
                created_at: now,
            };
            let outbox: Vec<NewOutboxEvent> = build_outbox_events(ids.order, 1, 1);
            let inventory_commands: i64 = if has_inventory_command(&outbox) {
                1
            } else {
                0
            };
            Ok(
                Creation {
                    outcome: CreateOutcome { order, items, created: true },
                    transition: Some(transition),
                    inventory_commands,
                    outbox,
                },
            )
        },
    }
}

/// Creates an order under an idempotency key, or repeats the one that the
/// same request led to. A new order gets fresh identifiers, and the messages
/// that `build_outbox_events` builds for it are committed with it.
pub fn create_order<F: FnOnce(u128, i64, i64) -> Vec<NewOutboxEvent>>(
    idempotency_key: &str,
    normalized: &NormalizedOrder,
    correlation_id: u128,
    existing: Option<ExistingOrder>,
    now: Timestamp,
    build_outbox_events: F,
) -> (r: Result<Creation, RepoError>)
    requires
        forall|id: u128| #[trigger] call_requires(build_outbox_events, (id, 1i64, 1i64)),
    ensures
        exists|ids: OrderIds|
            ids.drawn() && created_as(
                r,
                #[trigger] creation(
                    idempotency_key@,
                    normalized@,
                    correlation_id,
                    opt_view(existing),
                    ids,
                    messages_of(r),
                    now,
                ),
            ),
        r matches Ok(made) ==> made.outcome.created ==> call_ensures(
            build_outbox_events,
            (made.outcome.order.id, 1i64, 1i64),
            made.outbox,
        ),
{
    let ids: OrderIds = OrderIds::draw();
    plan_order(
        idempotency_key,
        normalized,
        correlation_id,
        existing,
        &ids,
        now,
        build_outbox_events,
    )
}

/// Creates an order with the messages of a delivery mode and the given
/// identifiers, or repeats the one that the same request led to.
pub fn plan_placement(
    idempotency_key: &str,
    normalized: &NormalizedOrder,
    correlation_id: u128,
    existing: Option<ExistingOrder>,
    mode: DeliveryMode,
    ids: &CreationIds,
    now: Timestamp,
) -> (r: Result<Creation, RepoError>)
    ensures
        created_as(
            r,
            placement(
                idempotency_key@,
                normalized@,
                correlation_id,
                opt_view(existing),
                mode,
                *ids,
                now,
            ),
        ),
{
    let build = |order_id: u128, order_version: i64, command_version: i64| -> (out: Vec<
        NewOutboxEvent,
    >)
        ensures
            views(out@) == creation_messages(
                mode,
                order_id,
                order_version,
                command_version,
                normalized@,
                correlation_id,
                *ids,
                now,
            ),
        {
            build_creation_messages(
                mode,
                order_id,
                order_version,
                command_version,
                normalized,
                correlation_id,
                ids,
                now,
            )
        };
    plan_order(
        idempotency_key,
        normalized,
        correlation_id,
        existing,
        &OrderIds { order: ids.order, transition: ids.transition },
        now,
        build,
    )
}

/// Creates an order with the messages of a delivery mode, or repeats the one
/// that the same request led to. What is new gets fresh identifiers.
pub fn place_order(
    idempotency_key: &str,
    normalized: &NormalizedOrder,
    correlation_id: u128,
    existing: Option<ExistingOrder>,
    mode: DeliveryMode,
    now: Timestamp,
) -> (r: Result<Creation, RepoError>)
    ensures
        exists|ids: CreationIds|
            ids.drawn() && created_as(
                r,
                #[trigger] placement(
                    idempotency_key@,
                    normalized@,
                    correlation_id,
                    opt_view(existing),
                    mode,
                    ids,
                    now,
                ),
            ),
{
    let ids: CreationIds = CreationIds::draw();
    plan_placement(idempotency_key, normalized, correlation_id, existing, mode, &ids, now)
}

/// The result is the one that is owed.
pub open spec fn created_as(
    r: Result<Creation, RepoError>,
    owed: Result<CreationView, RepoErrorView>,
) -> bool {
    match (r, owed) {
        (Ok(planned), Ok(view)) => planned@ == view,
        (Err(e), Err(refusal)) => e@ == refusal,
        _ => false,
    }
}

/// Every accepted request names each SKU once.
proof fn lemma_normalized_names_each_sku_once(request: RequestView)
    requires
        normalized(request) is Ok,
    ensures
        names_each_sku_once(normalized(request)->Ok_0.items),
{
    normalized_orders_are_valid(request);
    let items = normalized(request)->Ok_0.items;
    assert forall|i: int, j: int| 0 <= i < j < items.len() implies #[trigger] items[i].sku
        != #[trigger] items[j].sku by {
        lemma_text_before_irreflexive(items[i].sku);
    }
}

/// The same request under the same key is answered with the order that it
/// led to, also where it lists its lines in another order; nothing more is
/// written.
pub proof fn repeated_requests_replay(
    key: Seq<char>,
    first: RequestView,
    second: RequestView,
    correlation_id: u128,
    other_correlation: u128,
    ids: OrderIds,
    other_ids: OrderIds,
    outbox: Seq<OutboxView>,
    other_outbox: Seq<OutboxView>,
    now: Timestamp,
    later: Timestamp,
)
    requires
        normalized(first) is Ok,
        first.currency == second.currency,
        first.items.to_multiset() == second.items.to_multiset(),
    ensures
        ({
            let created = creation(
                key,
                normalized(first)->Ok_0,
                correlation_id,
                None,
                ids,
                outbox,
                now,
            )->Ok_0;
            let existing = ExistingView { order: created.order, items: created.items };
            let again = creation(
                key,
                normalized(second)->Ok_0,
                other_correlation,
                Some(existing),
                other_ids,
                other_outbox,
                later,
            );
            &&& created.created
            &&& again is Ok
            &&& again->Ok_0.order == created.order
            &&& again->Ok_0.items == created.items
            &&& !again->Ok_0.created
            &&& again->Ok_0.transition is None
            &&& again->Ok_0.outbox.len() == 0
        }),
{
    normalization_ignores_line_order(first, second);
    lemma_normalized_names_each_sku_once(first);
}

/// A key that belongs to a request with another fingerprint is refused, and
/// only then.
pub proof fn reused_keys_are_refused(
    key: Seq<char>,
    request: NormalizedView,
    correlation_id: u128,
    existing: Option<ExistingView>,
    ids: OrderIds,
    outbox: Seq<OutboxView>,
    now: Timestamp,
)
    ensures
        creation(key, request, correlation_id, existing, ids, outbox, now) == Err::<
            CreationView,
            RepoErrorView,
        >(RepoErrorView::IdempotencyKeyReused) <==> existing is Some
            && existing->0.order.idempotency_request_hash != fingerprint_of(request),
{
}

/// An accepted request under a new key always leads to an order of its lines.
pub proof fn accepted_requests_create_orders(
    key: Seq<char>,
    request: RequestView,
    correlation_id: u128,
    ids: OrderIds,
    outbox: Seq<OutboxView>,
    now: Timestamp,
)
    requires
        normalized(request) is Ok,
    ensures
        creation(
            key,
            normalized(request)->Ok_0,
            correlation_id,
            None,
            ids,
            outbox,
            now,
        ) matches Ok(made) && made.created && made.order.id == ids.order && made.items
            == normalized(request)->Ok_0.items,
{
    lemma_normalized_names_each_sku_once(request);
}

/// A new order and the messages that were built for it are committed
/// together, whatever they are, and a repetition of the request adds none: of
/// one message for the order there is exactly one row. Lines that cannot be
/// stored leave neither an order nor a row.
pub proof fn orders_are_committed_with_their_messages(
    key: Seq<char>,
    request: NormalizedView,
    correlation_id: u128,
    other_correlation: u128,
    ids: OrderIds,
    other_ids: OrderIds,
    outbox: Seq<OutboxView>,
    other_outbox: Seq<OutboxView>,
    now: Timestamp,
    later: Timestamp,
)
    ensures
        ({
            let made = creation(key, request, correlation_id, None, ids, outbox, now);
            let created = made->Ok_0;
            let existing = ExistingView { order: created.order, items: created.items };
            let again = creation(
                key,
                request,
                other_correlation,
                Some(existing),
                other_ids,
                other_outbox,
                later,
            );
            let rows = created.outbox + again->Ok_0.outbox;
            &&& made is Ok <==> names_each_sku_once(request.items)
            &&& made is Ok ==> {
                &&& created.created
                &&& created.order.id == ids.order
                &&& again is Ok
                &&& !again->Ok_0.created
                &&& rows == outbox
                &&& outbox.len() == 1 && outbox[0].aggregate_id == ids.order ==> rows.len() == 1
                    && rows[0].aggregate_id == created.order.id
            }
        }),
{
    let made = creation(key, request, correlation_id, None, ids, outbox, now);
    if made is Ok {
        assert(outbox + Seq::<OutboxView>::empty() =~= outbox);
    }
}

/// In outbox mode every new order is committed together with its announcement
/// and the command to reserve its stock, both under its own identifier and on
/// its own journey, and that command is counted; a repeated request commits
/// neither.
pub proof fn orders_are_announced_with_their_creation(
    key: Seq<char>,
    request: NormalizedView,
    correlation_id: u128,
    existing: Option<ExistingView>,
    ids: CreationIds,
    now: Timestamp,
)
    requires
        placement(key, request, correlation_id, existing, DeliveryMode::Outbox, ids, now) is Ok,
    ensures
        ({
            let made = placement(
                key,
                request,
                correlation_id,
                existing,
                DeliveryMode::Outbox,
                ids,
                now,
            )->Ok_0;
            &&& made.created ==> {
                &&& made.outbox.len() == 2
                &&& made.outbox[0].envelope.payload is OrderCreated
                &&& made.outbox[0].topic == ORDER_CREATED_TOPIC@
                &&& made.outbox[0].aggregate_id == made.order.id
                &&& made.outbox[1].envelope.payload is ReserveInventory
                &&& made.outbox[1].topic == INVENTORY_COMMANDS_TOPIC@
                &&& made.outbox[1].aggregate_id == made.order.id
                &&& made.outbox[1].aggregate_version == made.inventory_commands == 1
                &&& made.outbox[0].envelope.correlation_id == correlation_id
                &&& made.outbox[1].envelope.correlation_id == correlation_id
                &&& made.outbox[1].envelope.causation_id == made.outbox[0].envelope.event_id
            }
            &&& !made.created ==> made.outbox.len() == 0
        }),
{
    let outbox = creation_messages(
        DeliveryMode::Outbox,
        ids.order,
        1,
        1,
        request,
        correlation_id,
        ids,
        now,
    );
    assert(outbox[1].topic == INVENTORY_COMMANDS_TOPIC@);
}

/// An order is announced once: the request that created it, together with a
/// repetition of it, commits exactly one announcement, and it bears the
/// order's identifier.
pub proof fn orders_are_announced_once(
    key: Seq<char>,
    request: NormalizedView,
    correlation_id: u128,
    other_correlation: u128,
    ids: CreationIds,
    other_ids: CreationIds,
    now: Timestamp,
    later: Timestamp,
)
    requires
        names_each_sku_once(request.items),
    ensures
        ({
            let mode = DeliveryMode::Outbox;
            let created = placement(key, request, correlation_id, None, mode, ids, now)->Ok_0;
            let existing = ExistingView { order: created.order, items: created.items };
            let again = placement(
                key,
                request,
                other_correlation,
                Some(existing),
                mode,
                other_ids,
                later,
            );
            let sent = created.outbox + again->Ok_0.outbox;
            &&& again is Ok
            &&& forall|i: int|
                0 <= i < sent.len() ==> ((#[trigger] sent[i]).envelope.payload is OrderCreated
                    <==> i == 0)
            &&& sent[0].aggregate_id == created.order.id
            &&& sent[0].topic == ORDER_CREATED_TOPIC@
        }),
{
}

proof fn lemma_item_delimits(a: ItemView, b: ItemView, x: Seq<char>, y: Seq<char>)
    requires
        canonical_item(a) + x == canonical_item(b) + y,
    ensures
        a == b,
        x == y,
{
    reveal_strlit("{\"quantity\":");
    reveal_strlit(",\"sku\":");
    reveal_strlit(",\"unit_price_minor\":");
    reveal_strlit("}");
    let open = "{\"quantity\":"@;
    let sku = ",\"sku\":"@;
    let price = ",\"unit_price_minor\":"@;
    let close = "}"@;
    let s = canonical_item(a) + x;
    let t = canonical_item(b) + y;
    let s3 = close + x;
    let t3 = close + y;
    let s2 = price + (signed_decimal(a.unit_price_minor as int) + s3);
    let t2 = price + (signed_decimal(b.unit_price_minor as int) + t3);
    let s1 = sku + (json_string(a.sku) + s2);
    let t1 = sku + (json_string(b.sku) + t2);
    assert(s =~= open + (signed_decimal(a.quantity as int) + s1));
    assert(t =~= open + (signed_decimal(b.quantity as int) + t1));
    lemma_same_prefix(
        open,
        signed_decimal(a.quantity as int) + s1,
        signed_decimal(b.quantity as int) + t1,
    );
    assert(s1[0] == ',' && t1[0] == ',');
    numbers_delimit_themselves(a.quantity as int, b.quantity as int, s1, t1);
    lemma_same_prefix(sku, json_string(a.sku) + s2, json_string(b.sku) + t2);
    json_strings_delimit_themselves(a.sku, b.sku, s2, t2);
    lemma_same_prefix(
        price,
        signed_decimal(a.unit_price_minor as int) + s3,
        signed_decimal(b.unit_price_minor as int) + t3,
    );
    assert(s3[0] == '}' && t3[0] == '}');
    numbers_delimit_themselves(a.unit_price_minor as int, b.unit_price_minor as int, s3, t3);
    lemma_same_prefix(close, x, y);
}

proof fn lemma_same_prefix(prefix: Seq<char>, x: Seq<char>, y: Seq<char>)
    requires
        prefix + x == prefix + y,
    ensures
        x == y,
{
    let s = prefix + x;
    let t = prefix + y;
    assert(x =~= s.subrange(prefix.len() as int, s.len() as int));
    assert(y =~= t.subrange(prefix.len() as int, t.len() as int));
}

proof fn lemma_further_items_delimit(a: Seq<ItemView>, b: Seq<ItemView>)
    requires
        further_items(a) + "]}"@ == further_items(b) + "]}"@,
    ensures
        a == b,
    decreases a.len(),
{
    reveal_strlit("]}");
    reveal_strlit(",");
    let end = "]}"@;
    let s = further_items(a) + end;
    let t = further_items(b) + end;
    if a.len() > 0 {
        let rest = further_items(a.drop_first()) + end;
        assert(s =~= ","@ + (canonical_item(a[0]) + rest));
        assert(s[0] == ',');
    } else {
        assert(s =~= end);
        assert(s[0] == ']');
    }
    if b.len() > 0 {
        let rest = further_items(b.drop_first()) + end;
        assert(t =~= ","@ + (canonical_item(b[0]) + rest));
        assert(t[0] == ',');
    } else {
        assert(t =~= end);
        assert(t[0] == ']');
    }
    if a.len() > 0 && b.len() > 0 {
        let p = further_items(a.drop_first()) + end;
        let q = further_items(b.drop_first()) + end;
        lemma_same_prefix(","@, canonical_item(a[0]) + p, canonical_item(b[0]) + q);
        lemma_item_delimits(a[0], b[0], p, q);
        lemma_further_items_delimit(a.drop_first(), b.drop_first());
        assert(a =~= seq![a[0]] + a.drop_first());
        assert(b =~= seq![b[0]] + b.drop_first());
    } else {
        assert(a =~= b);
    }
}

/// Two requests with the same canonical form ask for the same lines in the
/// same currency: a key reused for another body shows in the form that is
/// digested.
#[verifier::spinoff_prover]
#[verifier::rlimit(60)]
pub proof fn canonical_form_tells_requests_apart(a: NormalizedView, b: NormalizedView)
    requires
        canonical_text(a) == canonical_text(b),
    ensures
        a.currency == b.currency,
        a.items == b.items,
{
    reveal_strlit("{\"currency\":");
    reveal_strlit(",\"items\":[");
    reveal_strlit("{\"quantity\":");
    reveal_strlit("]}");
    let open = "{\"currency\":"@;
    let mid = ",\"items\":["@;
    let end = "]}"@;
    let s1 = mid + (canonical_items(a.items) + end);
    let t1 = mid + (canonical_items(b.items) + end);
    assert(canonical_text(a) =~= open + (json_string(a.currency) + s1));
    assert(canonical_text(b) =~= open + (json_string(b.currency) + t1));
    lemma_same_prefix(open, json_string(a.currency) + s1, json_string(b.currency) + t1);
    json_strings_delimit_themselves(a.currency, b.currency, s1, t1);
    let s = canonical_items(a.items) + end;
    let t = canonical_items(b.items) + end;
    lemma_same_prefix(mid, s, t);
    if a.items.len() > 0 {
        let rest = further_items(a.items.drop_first()) + end;
        assert(s =~= canonical_item(a.items[0]) + rest);
        assert(s[0] == '{');
    } else {
        assert(s =~= end);
        assert(s[0] == ']');
    }
    if b.items.len() > 0 {
        let rest = further_items(b.items.drop_first()) + end;
        assert(t =~= canonical_item(b.items[0]) + rest);
        assert(t[0] == '{');
    } else {
        assert(t =~= end);
        assert(t[0] == ']');
    }
    if a.items.len() > 0 && b.items.len() > 0 {
        let p = further_items(a.items.drop_first()) + end;
        let q = further_items(b.items.drop_first()) + end;
        lemma_item_delimits(a.items[0], b.items[0], p, q);
        lemma_further_items_delimit(a.items.drop_first(), b.items.drop_first());
        assert(a.items =~= seq![a.items[0]] + a.items.drop_first());
        assert(b.items =~= seq![b.items[0]] + b.items.drop_first());
    } else {
        assert(a.items =~= b.items);
    }
}

}
