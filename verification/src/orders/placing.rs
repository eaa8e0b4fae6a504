//! What becomes of an accepted request: the order, the record of its
//! creation, and the messages that go out with it.

use vstd::prelude::*;
use vstd::utf8::encode_utf8;

use crate::contracts::inventory::ReserveInventoryItemView;
use crate::contracts::orders::OrderCreatedItemView;
use crate::contracts::{Envelope, EventPayload};
use crate::digest::{json_string, sha256};
use crate::domain_common::is_version_7;
use crate::model::{opt_view, views};
use crate::orders::config::DeliveryMode;
use crate::orders::domain::{
    accepted_orders_cost_the_sum_of_their_lines, accepted_orders_hold_the_lines_asked_for,
    is_legal_transition, normalized, normalized_orders_are_valid,
    requests_are_accepted_exactly_when_valid, validate_and_normalize, CreateOrderRequest,
    ItemRequest, ItemView, NormalizedOrder, NormalizedView, OrderStatus, RequestView,
    ValidationError,
};
use crate::orders::repository::{
    accepted_requests_create_orders, build_created_envelope, build_reserve_envelope,
    canonical_items, canonical_text, create_order, created_as, created_envelope, creation,
    creation_messages, fingerprint, lemma_canonical_items_push, messages_of, place_order,
    placement, plan_placement, reserve_envelope, step_record, transition_order,
    transition_verdict, Creation, CreationIds,
    CreationView, ExistingOrder, ExistingView, OrderIds, OrderItemRow, OrderRow, OrderView,
    RepoError, RepoErrorView, TransitionError, TransitionRow,
};
use crate::persistence::outbox::{NewOutboxEvent, OutboxView};
use crate::text::{hex_text, signed_decimal, text_before, uuid_text};
use crate::time::Timestamp;

verus! {

/// In outbox mode a new order sends exactly two messages. The first announces
/// it with its lines, its currency and its amount; the second asks for its
/// stock. Each names the order, and each has one line for every line of the
/// order, in the same place, of the same SKU and the same quantity.
pub proof fn new_orders_tell_and_reserve_every_line(
    key: Seq<char>,
    request: NormalizedView,
    correlation_id: u128,
    ids: CreationIds,
    now: Timestamp,
)
    requires
        forall|i: int, j: int|
            0 <= i < j < request.items.len() ==> (#[trigger] request.items[i]).sku != (
            #[trigger] request.items[j]).sku,
    ensures
        ({
            let placed = placement(
                key,
                request,
                correlation_id,
                None,
                DeliveryMode::Outbox,
                ids,
                now,
            );
            let outbox = placed->Ok_0.outbox;
            let told = outbox[0].envelope.payload->OrderCreated_0;
            let asked = outbox[1].envelope.payload->ReserveInventory_0;
            &&& placed is Ok
            &&& placed->Ok_0.created
            &&& placed->Ok_0.inventory_commands == 1
            &&& outbox.len() == 2
            &&& outbox[0].envelope.payload is OrderCreated
            &&& told.order_id == ids.order
            &&& told.amount.currency == request.currency
            &&& told.amount.minor_units == request.amount_minor
            &&& told.items.len() == request.items.len()
            &&& forall|i: int|
                0 <= i < request.items.len() ==> (#[trigger] told.items[i]).sku
                    == request.items[i].sku && told.items[i].quantity == request.items[i].quantity
            &&& outbox[1].envelope.payload is ReserveInventory
            &&& asked.order_id == ids.order
            &&& asked.expected_order_version == 1
            &&& asked.items.len() == request.items.len()
            &&& forall|i: int|
                0 <= i < request.items.len() ==> (#[trigger] asked.items[i]).sku
                    == request.items[i].sku && asked.items[i].quantity == request.items[i].quantity
        }),
{
    lemma_reserve_is_counted(key, request, correlation_id, ids, now);
}

proof fn lemma_reserve_is_counted(
    key: Seq<char>,
    request: NormalizedView,
    correlation_id: u128,
    ids: CreationIds,
    now: Timestamp,
)
    ensures
        ({
            let outbox = creation_messages(
                DeliveryMode::Outbox,
                ids.order,
                1,
                1,
                request,
                correlation_id,
                ids,
                now,
            );
            0 <= 1 < outbox.len() && outbox[1].topic == "inventory.commands.v1"@
        }),
{
}

/// The two messages of a new order bear its identifier, its key and its
/// journey: the announcement is caused by the request, the command by the
/// announcement.
pub proof fn new_orders_address_their_messages(
    key: Seq<char>,
    request: NormalizedView,
    correlation_id: u128,
    ids: CreationIds,
    now: Timestamp,
)
    requires
        forall|i: int, j: int|
            0 <= i < j < request.items.len() ==> (#[trigger] request.items[i]).sku != (
            #[trigger] request.items[j]).sku,
    ensures
        ({
            let outbox = placement(
                key,
                request,
                correlation_id,
                None,
                DeliveryMode::Outbox,
                ids,
                now,
            )->Ok_0.outbox;
            &&& sent_for(
                outbox[0],
                "orders.order_created"@,
                "orders.events.v1"@,
                ids.order,
                correlation_id,
                ids.cause,
                ids.created_event,
                now,
            )
            &&& sent_for(
                outbox[1],
                "inventory.reserve_inventory"@,
                "inventory.commands.v1"@,
                ids.order,
                correlation_id,
                ids.created_event,
                ids.reserve_event,
                now,
            )
        }),
{
    lemma_reserve_is_counted(key, request, correlation_id, ids, now);
}

/// A first message about an order, but for what it says.
pub open spec fn sent_for(
    message: OutboxView,
    event_type: Seq<char>,
    topic: Seq<char>,
    order_id: u128,
    correlation_id: u128,
    cause: u128,
    event_id: u128,
    now: Timestamp,
) -> bool {
    &&& message.id == event_id
    &&& message.topic == topic
    &&& message.message_key == uuid_text(order_id)
    &&& message.aggregate_type == "order"@
    &&& message.aggregate_id == order_id
    &&& message.aggregate_version == 1
    &&& message.envelope.event_id == event_id
    &&& message.envelope.event_type == event_type
    &&& message.envelope.schema_version == 1
    &&& message.envelope.occurred_at == now
    &&& message.envelope.producer == "orders"@
    &&& message.envelope.aggregate_type == "order"@
    &&& message.envelope.aggregate_id == order_id
    &&& message.envelope.aggregate_version == 1
    &&& message.envelope.correlation_id == correlation_id
    &&& message.envelope.causation_id == cause
    &&& message.envelope.traceparent is None
}

/// Every line that a customer asks for is reserved and announced in the
/// quantity that was asked for, no further line is, and the amount announced
/// is the sum over the customer's own lines of quantity times unit price.
pub proof fn customers_get_what_they_ask_for(
    key: Seq<char>,
    request: RequestView,
    correlation_id: u128,
    ids: CreationIds,
    now: Timestamp,
)
    requires
        normalized(request) is Ok,
    ensures
        ({
            let placed = placement(
                key,
                normalized(request)->Ok_0,
                correlation_id,
                None,
                DeliveryMode::Outbox,
                ids,
                now,
            );
            let told = placed->Ok_0.outbox[0].envelope.payload->OrderCreated_0;
            let asked = placed->Ok_0.outbox[1].envelope.payload->ReserveInventory_0;
            let order = placed->Ok_0.order;
            &&& placed is Ok
            &&& placed->Ok_0.outbox.len() == 2
            &&& asked.items.len() == request.items.len()
            &&& told.items.len() == request.items.len()
            &&& told.amount.currency == request.currency
            &&& order.currency == request.currency
            &&& told.amount.minor_units == order.amount_minor == request.items.fold_left(
                0int,
                |sum: int, line: ItemView| sum + line.quantity * line.unit_price_minor,
            )
            &&& forall|k: int|
                0 <= k < request.items.len() ==> asked.items.contains(
                    ReserveInventoryItemView {
                        sku: (#[trigger] request.items[k]).sku,
                        quantity: request.items[k].quantity,
                    },
                )
            &&& forall|k: int|
                0 <= k < request.items.len() ==> told.items.contains(
                    OrderCreatedItemView {
                        sku: (#[trigger] request.items[k]).sku,
                        quantity: request.items[k].quantity,
                    },
                )
        }),
{
    let order = normalized(request)->Ok_0;
    let made_ids = OrderIds { order: ids.order, transition: ids.transition };
    let outbox = creation_messages(
        DeliveryMode::Outbox,
        ids.order,
        1,
        1,
        order,
        correlation_id,
        ids,
        now,
    );
    accepted_orders_cost_the_sum_of_their_lines(request);
    accepted_orders_hold_the_lines_asked_for(request);
    accepted_requests_create_orders(key, request, correlation_id, made_ids, outbox, now);
    new_orders_keep_what_was_asked(key, order, correlation_id, made_ids, outbox, now);
    new_orders_tell_and_reserve_every_line(key, order, correlation_id, ids, now);
    let sent = placement(
        key,
        order,
        correlation_id,
        None,
        DeliveryMode::Outbox,
        ids,
        now,
    )->Ok_0.outbox;
    let told = sent[0].envelope.payload->OrderCreated_0;
    let asked = sent[1].envelope.payload->ReserveInventory_0;
    lemma_reserved_lines(request.items, order.items, asked.items);
    lemma_told_lines(request.items, order.items, told.items);
}

proof fn lemma_reserved_lines(
    wanted: Seq<ItemView>,
    kept: Seq<ItemView>,
    asked: Seq<ReserveInventoryItemView>,
)
    requires
        forall|k: int| 0 <= k < wanted.len() ==> kept.contains(#[trigger] wanted[k]),
        asked.len() == kept.len(),
        forall|i: int|
            0 <= i < kept.len() ==> (#[trigger] asked[i]).sku == kept[i].sku && asked[i].quantity
                == kept[i].quantity,
    ensures
        forall|k: int|
            0 <= k < wanted.len() ==> asked.contains(
                ReserveInventoryItemView {
                    sku: (#[trigger] wanted[k]).sku,
                    quantity: wanted[k].quantity,
                },
            ),
{
    assert forall|k: int| 0 <= k < wanted.len() implies asked.contains(
        ReserveInventoryItemView { sku: (#[trigger] wanted[k]).sku, quantity: wanted[k].quantity },
    ) by {
        assert(kept.contains(wanted[k]));
        let i = choose|i: int| 0 <= i < kept.len() && kept[i] == wanted[k];
        assert(asked[i] == ReserveInventoryItemView {
            sku: wanted[k].sku,
            quantity: wanted[k].quantity,
        });
    }
}

proof fn lemma_told_lines(
    wanted: Seq<ItemView>,
    kept: Seq<ItemView>,
    told: Seq<OrderCreatedItemView>,
)
    requires
        forall|k: int| 0 <= k < wanted.len() ==> kept.contains(#[trigger] wanted[k]),
        told.len() == kept.len(),
        forall|i: int|
            0 <= i < kept.len() ==> (#[trigger] told[i]).sku == kept[i].sku && told[i].quantity
                == kept[i].quantity,
    ensures
        forall|k: int|
            0 <= k < wanted.len() ==> told.contains(
                OrderCreatedItemView {
                    sku: (#[trigger] wanted[k]).sku,
                    quantity: wanted[k].quantity,
                },
            ),
{
    assert forall|k: int| 0 <= k < wanted.len() implies told.contains(
        OrderCreatedItemView { sku: (#[trigger] wanted[k]).sku, quantity: wanted[k].quantity },
    ) by {
        assert(kept.contains(wanted[k]));
        let i = choose|i: int| 0 <= i < kept.len() && kept[i] == wanted[k];
        assert(told[i] == OrderCreatedItemView {
            sku: wanted[k].sku,
            quantity: wanted[k].quantity,
        });
    }
}

/// An announcement tells the order at the version at which it stands, with
/// its currency, its amount and, line by line, its SKUs and quantities.
pub proof fn announcements_tell_the_order(
    order_id: u128,
    order_version: i64,
    currency: Seq<char>,
    amount_minor: i64,
    items: Seq<ItemView>,
    correlation_id: u128,
    event_id: u128,
    cause: u128,
    now: Timestamp,
)
    ensures
        ({
            let envelope = created_envelope(
                order_id,
                order_version,
                currency,
                amount_minor,
                items,
                correlation_id,
                event_id,
                cause,
                now,
            );
            let told = envelope.payload->OrderCreated_0;
            &&& envelope.event_id == event_id
            &&& envelope.event_type == "orders.order_created"@
            &&& envelope.schema_version == 1
            &&& envelope.occurred_at == now
            &&& envelope.producer == "orders"@
            &&& envelope.aggregate_type == "order"@
            &&& envelope.aggregate_id == order_id
            &&& envelope.aggregate_version == order_version
            &&& envelope.correlation_id == correlation_id
            &&& envelope.causation_id == cause
            &&& envelope.traceparent is None
            &&& envelope.payload is OrderCreated
            &&& told.order_id == order_id
            &&& told.amount.currency == currency
            &&& told.amount.minor_units == amount_minor
            &&& told.items.len() == items.len()
            &&& forall|i: int|
                0 <= i < items.len() ==> (#[trigger] told.items[i]).sku == items[i].sku
                    && told.items[i].quantity == items[i].quantity
        }),
{
}

/// A command to reserve asks for each line of the order in its quantity, for
/// the order at the version at which it stands, and bears its own number
/// among the commands of the order.
pub proof fn reserve_commands_ask_for_the_order(
    order_id: u128,
    order_version: i64,
    items: Seq<ItemView>,
    correlation_id: u128,
    command_version: i64,
    event_id: u128,
    cause: u128,
    now: Timestamp,
)
    ensures
        ({
            let envelope = reserve_envelope(
                order_id,
                order_version,
                items,
                correlation_id,
                command_version,
                event_id,
                cause,
                now,
            );
            let asked = envelope.payload->ReserveInventory_0;
            &&& envelope.event_id == event_id
            &&& envelope.event_type == "inventory.reserve_inventory"@
            &&& envelope.schema_version == 1
            &&& envelope.occurred_at == now
            &&& envelope.producer == "orders"@
            &&& envelope.aggregate_type == "order"@
            &&& envelope.aggregate_id == order_id
            &&& envelope.aggregate_version == command_version
            &&& envelope.correlation_id == correlation_id
            &&& envelope.causation_id == cause
            &&& envelope.traceparent is None
            &&& envelope.payload is ReserveInventory
            &&& asked.order_id == order_id
            &&& asked.expected_order_version == order_version
            &&& asked.items.len() == items.len()
            &&& forall|i: int|
                0 <= i < items.len() ==> (#[trigger] asked.items[i]).sku == items[i].sku
                    && asked.items[i].quantity == items[i].quantity
        }),
{
}

/// Without an outbox nothing is sent with a new order, and no command is
/// counted.
pub proof fn naive_orders_send_nothing(
    key: Seq<char>,
    request: NormalizedView,
    correlation_id: u128,
    existing: Option<ExistingView>,
    ids: CreationIds,
    now: Timestamp,
)
    ensures
        ({
            let placed = placement(
                key,
                request,
                correlation_id,
                existing,
                DeliveryMode::Naive,
                ids,
                now,
            );
            placed is Ok ==> placed->Ok_0.outbox.len() == 0 && placed->Ok_0.inventory_commands == 0
        }),
{
}

/// A new order keeps what was asked for under the key that it was asked for
/// with: it is pending, in its first version, created and changed at the same
/// moment, and the only record of it tells of its creation. The messages that
/// were built for it go with it, and a command to the inventory among them is
/// counted.
pub proof fn new_orders_keep_what_was_asked(
    key: Seq<char>,
    request: NormalizedView,
    correlation_id: u128,
    ids: OrderIds,
    outbox: Seq<OutboxView>,
    now: Timestamp,
)
    ensures
        ({
            let made = creation(key, request, correlation_id, None, ids, outbox, now);
            let order = made->Ok_0.order;
            let record = made->Ok_0.transition->0;
            let distinct = forall|i: int, j: int|
                0 <= i < j < request.items.len() ==> (#[trigger] request.items[i]).sku != (
                #[trigger] request.items[j]).sku;
            &&& made is Ok <==> distinct
            &&& !distinct ==> made == Err::<CreationView, RepoErrorView>(
                RepoErrorView::Storage("duplicate key in order_items"@),
            )
            &&& distinct ==> {
                &&& made->Ok_0.created
                &&& made->Ok_0.items == request.items
                &&& made->Ok_0.outbox == outbox
                &&& made->Ok_0.inventory_commands == if exists|i: int|
                    0 <= i < outbox.len() && (#[trigger] outbox[i]).topic
                        == "inventory.commands.v1"@ {
                    1int
                } else {
                    0
                }
                &&& order.id == ids.order
                &&& order.idempotency_key == key
                &&& order.status is Pending
                &&& order.currency == request.currency
                &&& order.amount_minor == request.amount_minor
                &&& order.version == 1
                &&& order.cancellation_reason is None
                &&& order.correlation_id == correlation_id
                &&& order.created_at == now
                &&& order.updated_at == now
                &&& made->Ok_0.transition is Some
                &&& record.id == ids.transition
                &&& record.order_id == ids.order
                &&& record.from_status is None
                &&& record.to_status is Pending
                &&& record.reason == Some("order created"@)
                &&& record.triggering_event_id is None
                &&& record.order_version == 1
                &&& record.created_at == now
            }
        }),
{
}

/// A new order keeps the hexadecimal SHA-256 digest of its request in
/// canonical form, and a later request under its key is answered with it
/// exactly where that digest is the same: two requests with one currency and
/// one set of lines always agree, and two that disagree in their digests are
/// never taken for one another.
pub proof fn keys_stand_for_one_digest(
    key: Seq<char>,
    first: NormalizedView,
    second: NormalizedView,
    correlation_id: u128,
    other_correlation: u128,
    ids: OrderIds,
    other_ids: OrderIds,
    outbox: Seq<OutboxView>,
    other_outbox: Seq<OutboxView>,
    now: Timestamp,
    later: Timestamp,
)
    requires
        creation(key, first, correlation_id, None, ids, outbox, now) is Ok,
    ensures
        ({
            let made = creation(key, first, correlation_id, None, ids, outbox, now)->Ok_0;
            let again = creation(
                key,
                second,
                other_correlation,
                Some(ExistingView { order: made.order, items: made.items }),
                other_ids,
                other_outbox,
                later,
            );
            let one = hex_text(sha256(encode_utf8(canonical_text(first))));
            let two = hex_text(sha256(encode_utf8(canonical_text(second))));
            &&& made.order.idempotency_request_hash == one
            &&& one != two ==> again == Err::<CreationView, RepoErrorView>(
                RepoErrorView::IdempotencyKeyReused,
            )
            &&& one == two ==> {
                &&& again is Ok
                &&& again->Ok_0.order == made.order
                &&& again->Ok_0.items == made.items
                &&& !again->Ok_0.created
                &&& again->Ok_0.transition is None
                &&& again->Ok_0.inventory_commands == 0
                &&& again->Ok_0.outbox.len() == 0
            }
            &&& first.currency == second.currency && first.items == second.items ==> again is Ok
        }),
{
}

/// An order moves exactly where it exists, the step is one of the status
/// graph, and the caller knows its version. It then stands at the next
/// version; nothing else of it changes.
pub proof fn orders_move_by_legal_steps_at_their_version(
    current: Option<OrderView>,
    expected_version: i64,
    to: OrderStatus,
    now: Timestamp,
)
    requires
        current is Some ==> current->0.version < i64::MAX,
    ensures
        ({
            let verdict = transition_verdict(current, expected_version, to, now);
            let from = current->0.status;
            let known = {
                ||| from is Pending && (to is InventoryReserved || to is Cancelling)
                ||| from is InventoryReserved && (to is PaymentAuthorized || to is Cancelling)
                ||| from is PaymentAuthorized && (to is ReadyForFulfilment || to is Cancelling)
                ||| from is ReadyForFulfilment && (to is Completed || to is Cancelling)
                ||| from is Cancelling && (to is Cancelled || to is ManualReview)
            };
            let order = verdict->Ok_0;
            &&& verdict is Ok <==> current is Some && known && current->0.version
                == expected_version
            &&& current is None ==> verdict == Err::<OrderView, TransitionError>(
                TransitionError::NotFound,
            )
            &&& current is Some && !known ==> verdict == Err::<OrderView, TransitionError>(
                TransitionError::IllegalTransition { from, to },
            )
            &&& current is Some && known && current->0.version != expected_version ==> verdict
                == Err::<OrderView, TransitionError>(
                TransitionError::VersionConflict { expected: expected_version },
            )
            &&& verdict is Ok ==> {
                &&& order.version == expected_version + 1
                &&& order == (OrderView {
                    status: to,
                    version: order.version,
                    updated_at: now,
                    ..current->0
                })
            }
        }),
{
}

/// The record of a step tells where it led from and to, at which version, for
/// what reason and because of which event.
pub proof fn records_tell_the_step(
    order: OrderView,
    to: OrderStatus,
    reason: Option<Seq<char>>,
    trigger: Option<u128>,
    id: u128,
    now: Timestamp,
)
    requires
        order.version < i64::MAX,
    ensures
        ({
            let record = step_record(order, to, reason, trigger, id, now);
            &&& record.id == id
            &&& record.order_id == order.id
            &&& record.from_status == Some(order.status)
            &&& record.to_status == to
            &&& record.reason == reason
            &&& record.triggering_event_id == trigger
            &&& record.order_version == order.version + 1
            &&& record.created_at == now
        }),
{
}

/// A request is accepted exactly when it has one to a hundred lines, each of
/// its own SKU, with one to ten thousand pieces at a price that is not
/// negative, in a currency of three capital letters, and the sum of quantity
/// times unit price over its lines can be counted; that sum is what the order
/// costs.
pub proof fn requests_cost_what_their_lines_cost(
    req: CreateOrderRequest,
    r: Result<NormalizedOrder, ValidationError>,
)
    requires
        call_ensures(validate_and_normalize, (req,), r),
    ensures
        ({
            let sum = req.items@.fold_left(
                0int,
                |sum: int, line: ItemRequest| sum + line.quantity * line.unit_price_minor,
            );
            &&& r is Ok <==> {
                &&& 1 <= req.items@.len() <= 100
                &&& req.currency@.len() == 3
                &&& forall|i: int| 0 <= i < 3 ==> 'A' <= #[trigger] req.currency@[i] <= 'Z'
                &&& forall|i: int, j: int|
                    0 <= i < j < req.items@.len() ==> (#[trigger] req.items@[i]).sku@ != (
                    #[trigger] req.items@[j]).sku@
                &&& forall|i: int|
                    0 <= i < req.items@.len() ==> 1 <= (#[trigger] req.items@[i]).quantity <= 10_000
                        && req.items@[i].unit_price_minor >= 0
                &&& sum <= i64::MAX
            }
            &&& r is Ok ==> {
                &&& r->Ok_0.amount_minor == sum
                &&& r->Ok_0.currency@ == req.currency@
                &&& r->Ok_0.items@.len() == req.items@.len()
                &&& forall|k: int|
                    0 <= k < req.items@.len() ==> lists_line(
                        r->Ok_0.items@,
                        (#[trigger] req.items@[k]).sku@,
                        req.items@[k].quantity,
                        req.items@[k].unit_price_minor,
                    )
                &&& forall|i: int, j: int|
                    0 <= i < j < r->Ok_0.items@.len() ==> text_before(
                        (#[trigger] r->Ok_0.items@[i]).sku@,
                        (#[trigger] r->Ok_0.items@[j]).sku@,
                    )
            }
        }),
{
    let request = req@;
    let f = |sum: int, line: ItemRequest| sum + line.quantity * line.unit_price_minor;
    let g = |sum: int, line: ItemView| sum + line.quantity * line.unit_price_minor;
    requests_are_accepted_exactly_when_valid(request);
    lemma_same_sum(req.items@, request.items, f, g);
    assert forall|i: int| 0 <= i < req.items@.len() implies (#[trigger] req.items@[i]).sku@
        == request.items[i].sku && req.items@[i].quantity == request.items[i].quantity
        && req.items@[i].unit_price_minor == request.items[i].unit_price_minor by {
        assert(request.items[i] == req.items@[i]@);
    }
    if forall|i: int, j: int|
        0 <= i < j < req.items@.len() ==> (#[trigger] req.items@[i]).sku@ != (
        #[trigger] req.items@[j]).sku@ {
        assert forall|i: int, j: int| 0 <= i < j < request.items.len() implies (
        #[trigger] request.items[i]).sku != (#[trigger] request.items[j]).sku by {
            assert(req.items@[i].sku@ != req.items@[j].sku@);
        }
    }
    if forall|i: int|
        0 <= i < req.items@.len() ==> 1 <= (#[trigger] req.items@[i]).quantity <= 10_000
            && req.items@[i].unit_price_minor >= 0 {
        assert forall|i: int| 0 <= i < request.items.len() implies 1 <= (
        #[trigger] request.items[i]).quantity <= 10_000 && request.items[i].unit_price_minor >= 0 by {
            assert(1 <= req.items@[i].quantity <= 10_000);
        }
    }
    if r is Ok {
        let kept = r->Ok_0.items@;
        let order = r->Ok_0@;
        accepted_orders_cost_the_sum_of_their_lines(request);
        accepted_orders_hold_the_lines_asked_for(request);
        normalized_orders_are_valid(request);
        assert forall|i: int, j: int| 0 <= i < j < req.items@.len() implies (
        #[trigger] req.items@[i]).sku@ != (#[trigger] req.items@[j]).sku@ by {
            assert(request.items[i].sku != request.items[j].sku);
        }
        assert forall|i: int| 0 <= i < kept.len() implies #[trigger] kept[i]@ == order.items[i] by {
        }
        assert forall|k: int| 0 <= k < req.items@.len() implies lists_line(
            kept,
            (#[trigger] req.items@[k]).sku@,
            req.items@[k].quantity,
            req.items@[k].unit_price_minor,
        ) by {
            assert(order.items.contains(request.items[k]));
            let i = choose|i: int| 0 <= i < order.items.len() && order.items[i] == request.items[k];
            assert(kept[i]@ == order.items[i]);
            assert(kept[i].quantity == req.items@[k].quantity);
        }
        assert forall|i: int, j: int| 0 <= i < j < kept.len() implies text_before(
            (#[trigger] kept[i]).sku@,
            (#[trigger] kept[j]).sku@,
        ) by {
            assert(kept[i]@ == order.items[i] && kept[j]@ == order.items[j]);
        }
    }
}

/// Some line is for the SKU, in this quantity and at this price.
pub open spec fn lists_line(
    lines: Seq<ItemRequest>,
    sku: Seq<char>,
    quantity: i64,
    unit_price_minor: i64,
) -> bool {
    exists|i: int|
        0 <= i < lines.len() && (#[trigger] lines[i]).sku@ == sku && lines[i].quantity == quantity
            && lines[i].unit_price_minor == unit_price_minor
}

proof fn lemma_same_sum(
    lines: Seq<ItemRequest>,
    shown: Seq<ItemView>,
    f: spec_fn(int, ItemRequest) -> int,
    g: spec_fn(int, ItemView) -> int,
)
    requires
        shown.len() == lines.len(),
        forall|i: int|
            0 <= i < lines.len() ==> (#[trigger] lines[i]).quantity == shown[i].quantity
                && lines[i].unit_price_minor == shown[i].unit_price_minor,
        forall|sum: int, line: ItemRequest| #[trigger]
            f(sum, line) == sum + line.quantity * line.unit_price_minor,
        forall|sum: int, line: ItemView| #[trigger]
            g(sum, line) == sum + line.quantity * line.unit_price_minor,
    ensures
        lines.fold_left(0int, f) == shown.fold_left(0int, g),
    decreases lines.len(),
{
    if lines.len() > 0 {
        let n = lines.len() - 1;
        lemma_same_sum(lines.drop_last(), shown.drop_last(), f, g);
        assert(lines[n].quantity == shown[n].quantity);
    }
}

/// A step of the status graph is taken, and no other.
pub proof fn steps_are_those_of_the_graph(from: OrderStatus, to: OrderStatus, r: bool)
    requires
        call_ensures(is_legal_transition, (from, to), r),
    ensures
        r <==> {
            ||| from is Pending && (to is InventoryReserved || to is Cancelling)
            ||| from is InventoryReserved && (to is PaymentAuthorized || to is Cancelling)
            ||| from is PaymentAuthorized && (to is ReadyForFulfilment || to is Cancelling)
            ||| from is ReadyForFulfilment && (to is Completed || to is Cancelling)
            ||| from is Cancelling && (to is Cancelled || to is ManualReview)
        },
{
}

/// The command to reserve has one line for each row of the order, in the same
/// place, of its SKU and its quantity, and names the order.
pub proof fn reserve_commands_hold_every_row(
    order_id: u128,
    order_version: i64,
    items: &Vec<OrderItemRow>,
    correlation_id: u128,
    command_version: i64,
    event_id: u128,
    cause: u128,
    now: Timestamp,
    r: Envelope<EventPayload>,
)
    requires
        call_ensures(
            build_reserve_envelope,
            (
                order_id,
                order_version,
                items,
                correlation_id,
                command_version,
                event_id,
                cause,
                now,
            ),
            r,
        ),
    ensures
        r.event_id == event_id,
        r.event_type@ == "inventory.reserve_inventory"@,
        r.aggregate_id == order_id,
        r.aggregate_version == command_version,
        r.correlation_id == correlation_id,
        r.causation_id == cause,
        r.occurred_at == now,
        r.payload is ReserveInventory,
        r.payload->ReserveInventory_0.order_id == order_id,
        r.payload->ReserveInventory_0.expected_order_version == order_version,
        r.payload->ReserveInventory_0.items@.len() == items@.len(),
        forall|i: int|
            0 <= i < items@.len() ==> (#[trigger] r.payload->ReserveInventory_0.items@[i]).sku@
                == items@[i].sku@ && r.payload->ReserveInventory_0.items@[i].quantity
                == items@[i].quantity,
{
    let rows = views(items@);
    let lines = r.payload->ReserveInventory_0.items@;
    assert(r@.payload is ReserveInventory);
    assert(views(lines).len() == rows.len());
    assert forall|i: int| 0 <= i < items@.len() implies (#[trigger] lines[i]).sku@ == items@[i].sku@
        && lines[i].quantity == items@[i].quantity by {
        assert(views(lines)[i] == lines[i]@);
        assert(rows[i] == items@[i]@);
    }
}

/// The announcement has one line for each row of the order, in the same
/// place, of its SKU and its quantity, and names the order, its currency and
/// its amount.
pub proof fn announcements_hold_every_row(
    order_id: u128,
    order_version: i64,
    currency: &str,
    amount_minor: i64,
    items: &Vec<OrderItemRow>,
    correlation_id: u128,
    event_id: u128,
    cause: u128,
    now: Timestamp,
    r: Envelope<EventPayload>,
)
    requires
        call_ensures(
            build_created_envelope,
            (
                order_id,
                order_version,
                currency,
                amount_minor,
                items,
                correlation_id,
                event_id,
                cause,
                now,
            ),
            r,
        ),
    ensures
        r.event_id == event_id,
        r.event_type@ == "orders.order_created"@,
        r.aggregate_id == order_id,
        r.aggregate_version == order_version,
        r.correlation_id == correlation_id,
        r.causation_id == cause,
        r.occurred_at == now,
        r.payload is OrderCreated,
        r.payload->OrderCreated_0.order_id == order_id,
        r.payload->OrderCreated_0.amount.currency@ == currency@,
        r.payload->OrderCreated_0.amount.minor_units == amount_minor,
        r.payload->OrderCreated_0.items@.len() == items@.len(),
        forall|i: int|
            0 <= i < items@.len() ==> (#[trigger] r.payload->OrderCreated_0.items@[i]).sku@
                == items@[i].sku@ && r.payload->OrderCreated_0.items@[i].quantity
                == items@[i].quantity,
{
    let rows = views(items@);
    let lines = r.payload->OrderCreated_0.items@;
    assert(r@.payload is OrderCreated);
    assert(views(lines).len() == rows.len());
    assert forall|i: int| 0 <= i < items@.len() implies (#[trigger] lines[i]).sku@ == items@[i].sku@
        && lines[i].quantity == items@[i].quantity by {
        assert(views(lines)[i] == lines[i]@);
        assert(rows[i] == items@[i]@);
    }
}

/// A new order is stored as it was asked for, under the given identifiers: it
/// bears the key and the correlation of the request, its currency, its amount
/// and its lines, and what is written with it are the messages of the
/// delivery mode, the command to reserve last.
pub proof fn orders_are_placed_as_asked(
    key: &str,
    normalized: &NormalizedOrder,
    correlation_id: u128,
    ids: &CreationIds,
    now: Timestamp,
    r: Result<Creation, RepoError>,
)
    requires
        call_ensures(
            plan_placement,
            (key, normalized, correlation_id, None, DeliveryMode::Outbox, ids, now),
            r,
        ),
        forall|i: int, j: int|
            0 <= i < j < normalized.items@.len() ==> (#[trigger] normalized.items@[i]).sku@ != (
            #[trigger] normalized.items@[j]).sku@,
    ensures
        ({
            let made = r->Ok_0;
            let order = made.outcome.order;
            let asked = made.outbox@[1].envelope.payload->ReserveInventory_0;
            let told = made.outbox@[0].envelope.payload->OrderCreated_0;
            &&& r is Ok
            &&& made.outcome.created
            &&& made.inventory_commands == 1
            &&& order.id == ids.order
            &&& order.idempotency_key@ == key@
            &&& order.status is Pending
            &&& order.currency@ == normalized.currency@
            &&& order.amount_minor == normalized.amount_minor
            &&& order.version == 1
            &&& order.cancellation_reason is None
            &&& order.correlation_id == correlation_id
            &&& order.created_at == now
            &&& order.updated_at == now
            &&& made.outcome.items@.len() == normalized.items@.len()
            &&& made.outbox@.len() == 2
            &&& made.outbox@[0].topic@ == "orders.events.v1"@
            &&& made.outbox@[1].topic@ == "inventory.commands.v1"@
            &&& made.outbox@[0].message_key@ == uuid_text(ids.order)
            &&& made.outbox@[1].message_key@ == uuid_text(ids.order)
            &&& made.outbox@[0].envelope.payload is OrderCreated
            &&& told.order_id == ids.order
            &&& told.amount.currency@ == normalized.currency@
            &&& told.amount.minor_units == normalized.amount_minor
            &&& told.items@.len() == normalized.items@.len()
            &&& made.outbox@[1].envelope.payload is ReserveInventory
            &&& asked.order_id == ids.order
            &&& asked.items@.len() == normalized.items@.len()
            &&& forall|i: int|
                0 <= i < normalized.items@.len() ==> {
                    let line = #[trigger] normalized.items@[i];
                    &&& made.outcome.items@[i].sku@ == line.sku@
                    &&& made.outcome.items@[i].quantity == line.quantity
                    &&& made.outcome.items@[i].unit_price_minor == line.unit_price_minor
                    &&& told.items@[i].sku@ == line.sku@
                    &&& told.items@[i].quantity == line.quantity
                    &&& asked.items@[i].sku@ == line.sku@
                    &&& asked.items@[i].quantity == line.quantity
                }
        }),
{
    let request = normalized@;
    let lines = normalized.items@;
    assert forall|i: int, j: int| 0 <= i < j < request.items.len() implies (
    #[trigger] request.items[i]).sku != (#[trigger] request.items[j]).sku by {
        assert(request.items[i] == lines[i]@ && request.items[j] == lines[j]@);
        assert(lines[i].sku@ != lines[j].sku@);
    }
    new_orders_tell_and_reserve_every_line(key@, request, correlation_id, *ids, now);
    new_orders_address_their_messages(key@, request, correlation_id, *ids, now);
    let made = r->Ok_0;
    let shown = made@;
    let asked = made.outbox@[1].envelope.payload->ReserveInventory_0;
    let told = made.outbox@[0].envelope.payload->OrderCreated_0;
    assert(opt_view::<ExistingOrder>(None) is None);
    assert(shown.outbox.len() == made.outbox@.len());
    assert(shown.outbox[0] == made.outbox@[0]@);
    assert(shown.outbox[1] == made.outbox@[1]@);
    assert(shown.outbox[0].envelope.payload is OrderCreated);
    assert(shown.outbox[1].envelope.payload is ReserveInventory);
    assert(shown.items.len() == made.outcome.items@.len());
    assert(views(told.items@).len() == told.items@.len());
    assert(views(asked.items@).len() == asked.items@.len());
    assert forall|i: int| 0 <= i < lines.len() implies {
        let line = #[trigger] lines[i];
        &&& made.outcome.items@[i].sku@ == line.sku@
        &&& made.outcome.items@[i].quantity == line.quantity
        &&& made.outcome.items@[i].unit_price_minor == line.unit_price_minor
        &&& told.items@[i].sku@ == line.sku@
        &&& told.items@[i].quantity == line.quantity
        &&& asked.items@[i].sku@ == line.sku@
        &&& asked.items@[i].quantity == line.quantity
    } by {
        assert(request.items[i] == lines[i]@);
        assert(shown.items[i] == made.outcome.items@[i]@);
        assert(views(told.items@)[i] == told.items@[i]@);
        assert(views(asked.items@)[i] == asked.items@[i]@);
    }
}

/// Whatever the mode and whatever was stored under the key, what is planned
/// is what the request comes to.
pub proof fn placements_are_planned_as_owed(
    key: &str,
    normalized: &NormalizedOrder,
    correlation_id: u128,
    existing: Option<ExistingOrder>,
    mode: DeliveryMode,
    ids: &CreationIds,
    now: Timestamp,
    r: Result<Creation, RepoError>,
)
    requires
        call_ensures(
            plan_placement,
            (key, normalized, correlation_id, existing, mode, ids, now),
            r,
        ),
    ensures
        ({
            let owed = placement(
                key@,
                normalized@,
                correlation_id,
                opt_view(existing),
                mode,
                *ids,
                now,
            );
            &&& r is Ok <==> owed is Ok
            &&& r is Ok ==> r->Ok_0@ == owed->Ok_0
            &&& r is Err ==> r->Err_0@ == owed->Err_0
        }),
{
}

/// A transition that is carried out changes the status, the version and the
/// last change of the order, and is recorded with where it led from and to.
pub proof fn transitions_are_carried_out(
    current: Option<OrderRow>,
    expected_version: i64,
    to: OrderStatus,
    reason: Option<String>,
    now: Timestamp,
    r: Result<(OrderRow, TransitionRow), TransitionError>,
)
    requires
        call_ensures(transition_order, (current, expected_version, to, reason, now), r),
        current is Some ==> current->0.version < i64::MAX,
    ensures
        ({
            let from = current->0.status;
            let known = {
                ||| from is Pending && (to is InventoryReserved || to is Cancelling)
                ||| from is InventoryReserved && (to is PaymentAuthorized || to is Cancelling)
                ||| from is PaymentAuthorized && (to is ReadyForFulfilment || to is Cancelling)
                ||| from is ReadyForFulfilment && (to is Completed || to is Cancelling)
                ||| from is Cancelling && (to is Cancelled || to is ManualReview)
            };
            &&& r is Ok <==> current is Some && known && current->0.version == expected_version
            &&& r matches Ok((row, record)) ==> {
                &&& row.id == current->0.id
                &&& row.status == to
                &&& row.version == expected_version + 1
                &&& row.updated_at == now
                &&& row.currency@ == current->0.currency@
                &&& row.amount_minor == current->0.amount_minor
                &&& row.idempotency_key@ == current->0.idempotency_key@
                &&& row.correlation_id == current->0.correlation_id
                &&& row.created_at == current->0.created_at
                &&& record.order_id == current->0.id
                &&& record.from_status == Some(from)
                &&& record.to_status == to
                &&& record.order_version == expected_version + 1
                &&& record.triggering_event_id is None
                &&& record.created_at == now
                &&& opt_view(record.reason) == opt_view(reason)
            }
            &&& r matches Err(e) ==> {
                &&& current is None ==> e is NotFound
                &&& current is Some && !known ==> e == (TransitionError::IllegalTransition {
                    from,
                    to,
                })
                &&& current is Some && known ==> e == (TransitionError::VersionConflict {
                    expected: expected_version,
                })
            }
        }),
{
    if current is Some {
        assert(opt_view(current) == Some(current->0@));
    }
}

/// The canonical form of a request is compact JSON: its currency, then its
/// lines in their order with commas between them, each with its quantity, its
/// SKU and its unit price.
pub proof fn requests_have_a_canonical_form(order: NormalizedView, line: ItemView)
    ensures
        canonical_text(order) == "{\"currency\":"@ + json_string(order.currency) + ",\"items\":["@
            + canonical_items(order.items) + "]}"@,
        canonical_items(Seq::empty()) == Seq::<char>::empty(),
        canonical_items(order.items.push(line)) == canonical_items(order.items) + (
        if order.items.len() == 0 {
            Seq::empty()
        } else {
            ","@
        }) + ("{\"quantity\":"@ + signed_decimal(line.quantity as int) + ",\"sku\":"@ + json_string(
            line.sku,
        ) + ",\"unit_price_minor\":"@ + signed_decimal(line.unit_price_minor as int) + "}"@),
{
    lemma_canonical_items_push(order.items, line);
    let text = "{\"quantity\":"@ + signed_decimal(line.quantity as int) + ",\"sku\":"@ + json_string(
        line.sku,
    ) + ",\"unit_price_minor\":"@ + signed_decimal(line.unit_price_minor as int) + "}"@;
    let before = canonical_items(order.items);
    if order.items.len() == 0 {
        assert(before + Seq::<char>::empty() + text =~= text);
    } else {
        assert(before + ","@ + text =~= before + (","@ + text));
    }
}

/// The fingerprint of a request is the hexadecimal SHA-256 digest of its
/// canonical form.
pub proof fn fingerprints_are_digests(normalized: &NormalizedOrder, r: String)
    requires
        call_ensures(fingerprint, (normalized,), r),
    ensures
        r@ == hex_text(sha256(encode_utf8(canonical_text(normalized@)))),
{
}

/// An order that is placed now is placed as owed in the given mode and at the
/// given moment, under fresh identifiers.
pub proof fn orders_are_placed_with_fresh_identifiers(
    key: &str,
    normalized: &NormalizedOrder,
    correlation_id: u128,
    existing: Option<ExistingOrder>,
    mode: DeliveryMode,
    now: Timestamp,
    r: Result<Creation, RepoError>,
)
    requires
        call_ensures(place_order, (key, normalized, correlation_id, existing, mode, now), r),
    ensures
        exists|ids: CreationIds|
            {
                let owed = #[trigger] placement(
                    key@,
                    normalized@,
                    correlation_id,
                    opt_view(existing),
                    mode,
                    ids,
                    now,
                );
                &&& r is Ok <==> owed is Ok
                &&& r is Ok ==> r->Ok_0@ == owed->Ok_0
                &&& r is Err ==> r->Err_0@ == owed->Err_0
                &&& is_version_7(ids.order)
                &&& is_version_7(ids.transition)
                &&& is_version_7(ids.created_event)
                &&& is_version_7(ids.reserve_event)
                &&& is_version_7(ids.cause)
            },
{
    let ids = choose|ids: CreationIds|
        ids.drawn() && created_as(
            r,
            #[trigger] placement(
                key@,
                normalized@,
                correlation_id,
                opt_view(existing),
                mode,
                ids,
                now,
            ),
        );
    assert(created_as(
        r,
        placement(key@, normalized@, correlation_id, opt_view(existing), mode, ids, now),
    ));
}

/// An order that a caller creates with messages of its own is the order that
/// was asked for, under a fresh identifier, and what is written with it are
/// the messages that were built for that identifier.
pub proof fn orders_are_created_with_the_messages_built<
    F: FnOnce(u128, i64, i64) -> Vec<NewOutboxEvent>,
>(
    key: &str,
    normalized: &NormalizedOrder,
    correlation_id: u128,
    existing: Option<ExistingOrder>,
    now: Timestamp,
    build: F,
    r: Result<Creation, RepoError>,
)
    requires
        call_ensures(
            create_order::<F>,
            (key, normalized, correlation_id, existing, now, build),
            r,
        ),
    ensures
        r is Ok && existing is None ==> {
            let order = r->Ok_0.outcome.order;
            &&& r->Ok_0.outcome.created
            &&& call_ensures(build, (order.id, 1i64, 1i64), r->Ok_0.outbox)
            &&& is_version_7(order.id)
            &&& order.idempotency_key@ == key@
            &&& order.currency@ == normalized.currency@
            &&& order.amount_minor == normalized.amount_minor
            &&& order.correlation_id == correlation_id
            &&& order.status is Pending
            &&& order.version == 1
            &&& order.created_at == now
        },
        r is Ok && existing is Some ==> {
            &&& !r->Ok_0.outcome.created
            &&& r->Ok_0.outcome.order@ == existing->0.order@
            &&& r->Ok_0.outbox@.len() == 0
        },
        existing is Some ==> (r is Err <==> existing->0.order.idempotency_request_hash@ != hex_text(
            sha256(encode_utf8(canonical_text(normalized@))),
        )),
{
    let ids = choose|ids: OrderIds|
        ids.drawn() && created_as(
            r,
            #[trigger] creation(
                key@,
                normalized@,
                correlation_id,
                opt_view(existing),
                ids,
                messages_of(r),
                now,
            ),
        );
    let owed = creation(
        key@,
        normalized@,
        correlation_id,
        opt_view(existing),
        ids,
        messages_of(r),
        now,
    );
    assert(created_as(r, owed));
    if r is Ok && existing is Some {
        assert(opt_view(existing) == Some(existing->0@));
        assert(views(r->Ok_0.outbox@).len() == r->Ok_0.outbox@.len());
    }
}

/// Every request is looked at, every accepted one is placed, and an order
/// whose version can be counted on can be moved: nothing else is asked of
/// the caller.
pub proof fn every_request_can_be_placed(
    req: CreateOrderRequest,
    key: &str,
    normalized: &NormalizedOrder,
    correlation_id: u128,
    existing: Option<ExistingOrder>,
    mode: DeliveryMode,
    ids: &CreationIds,
    now: Timestamp,
    current: Option<OrderRow>,
    expected_version: i64,
    to: OrderStatus,
    reason: Option<String>,
)
    ensures
        call_requires(validate_and_normalize, (req,)),
        call_requires(
            plan_placement,
            (key, normalized, correlation_id, existing, mode, ids, now),
        ),
        call_requires(place_order, (key, normalized, correlation_id, existing, mode, now)),
        current is None || current->0.version < i64::MAX ==> call_requires(
            transition_order,
            (current, expected_version, to, reason, now),
        ),
{
}

}
