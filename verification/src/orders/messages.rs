//! The messages that the orders service sends in answer to outcomes.

use vstd::prelude::*;

use crate::consuming::{RawEnvelope, RawView};
use crate::contracts::fulfilment::{
    CreateFulfilmentPayload, CREATE_FULFILMENT_AGGREGATE_TYPE, CREATE_FULFILMENT_COMMAND_TYPE,
    CREATE_FULFILMENT_SCHEMA_VERSION, FULFILMENT_COMMANDS_TOPIC,
};
use crate::contracts::inventory::{
    ReleaseInventoryPayload, ReleaseInventoryView, INVENTORY_COMMANDS_TOPIC,
    RELEASE_INVENTORY_AGGREGATE_TYPE, RELEASE_INVENTORY_COMMAND_TYPE,
    RELEASE_INVENTORY_SCHEMA_VERSION,
};
use crate::contracts::orders::{
    OrderCancelledPayload, OrderCancelledView, OrderCompletedPayload, ORDERS_PRODUCER_NAME,
    ORDER_AGGREGATE_TYPE, ORDER_CANCELLED_EVENT_TYPE, ORDER_CANCELLED_SCHEMA_VERSION,
    ORDER_COMPLETED_EVENT_TYPE, ORDER_COMPLETED_SCHEMA_VERSION, ORDER_CREATED_TOPIC,
};
use crate::contracts::payments::{
    AuthorizePaymentPayload, AuthorizePaymentView, PaymentAmount, PaymentAmountView,
    RefundPaymentPayload, RefundPaymentView, AUTHORIZE_PAYMENT_COMMAND_TYPE,
    AUTHORIZE_PAYMENT_SCHEMA_VERSION, PAYMENTS_COMMANDS_TOPIC, PAYMENT_COMMAND_AGGREGATE_TYPE,
    REFUND_PAYMENT_COMMAND_TYPE, REFUND_PAYMENT_SCHEMA_VERSION,
};
use crate::contracts::{EventPayload, EventPayloadView};
use crate::orders::repository::{OrderRow, OrderView};
use crate::persistence::outbox::{
    answers, build_reply, reply_to, MessageKind, NewOutboxEvent, OutboxView,
};
use crate::time::Timestamp;

verus! {

/// The `authorize_payment` command.
pub open spec fn authorize_payment_event(
    trigger: RawView,
    order: OrderView,
    command_version: i64,
    payment_id: u128,
    event_id: u128,
    now: Timestamp,
) -> OutboxView {
    reply_to(
        trigger,
        MessageKind {
            event_type: AUTHORIZE_PAYMENT_COMMAND_TYPE,
            schema_version: AUTHORIZE_PAYMENT_SCHEMA_VERSION,
            producer: ORDERS_PRODUCER_NAME,
            aggregate_type: PAYMENT_COMMAND_AGGREGATE_TYPE,
            topic: PAYMENTS_COMMANDS_TOPIC,
        },
        order.id,
        command_version,
        order.id,
        event_id,
        now,
        EventPayloadView::AuthorizePayment(
            AuthorizePaymentView {
                order_id: order.id,
                payment_id,
                amount: PaymentAmountView {
                    currency: order.currency,
                    minor_units: order.amount_minor,
                },
            },
        ),
    )
}

/// Builds the `authorize_payment` command.
pub fn build_authorize_payment_event(
    trigger: &RawEnvelope,
    order: &OrderRow,
    command_version: i64,
    payment_id: u128,
    event_id: u128,
    now: Timestamp,
) -> (r: NewOutboxEvent)
    ensures
        r@ == authorize_payment_event(
            trigger@,
            order@,
            command_version,
            payment_id,
            event_id,
            now,
        ),
{
    build_reply(
        trigger,
        MessageKind {
            event_type: AUTHORIZE_PAYMENT_COMMAND_TYPE,
            schema_version: AUTHORIZE_PAYMENT_SCHEMA_VERSION,
            producer: ORDERS_PRODUCER_NAME,
            aggregate_type: PAYMENT_COMMAND_AGGREGATE_TYPE,
            topic: PAYMENTS_COMMANDS_TOPIC,
        },
        order.id,
        command_version,
        order.id,
        event_id,
        now,
        EventPayload::AuthorizePayment(
            AuthorizePaymentPayload {
                order_id: order.id,
                payment_id,
                amount: PaymentAmount {
                    currency: order.currency.clone(),
                    minor_units: order.amount_minor,
                },
            },
        ),
    )
}

/// The `release_inventory` command.
pub open spec fn release_inventory_event(
    trigger: RawView,
    order_id: u128,
    reservation_id: u128,
    command_version: i64,
    reason: Seq<char>,
    event_id: u128,
    now: Timestamp,
) -> OutboxView {
    reply_to(
        trigger,
        MessageKind {
            event_type: RELEASE_INVENTORY_COMMAND_TYPE,
            schema_version: RELEASE_INVENTORY_SCHEMA_VERSION,
            producer: ORDERS_PRODUCER_NAME,
            aggregate_type: RELEASE_INVENTORY_AGGREGATE_TYPE,
            topic: INVENTORY_COMMANDS_TOPIC,
        },
        order_id,
        command_version,
        order_id,
        event_id,
        now,
        EventPayloadView::ReleaseInventory(
            ReleaseInventoryView { order_id, reservation_id, reason },
        ),
    )
}

/// Builds the `release_inventory` command.
pub fn build_release_inventory_event(
    trigger: &RawEnvelope,
    order_id: u128,
    reservation_id: u128,
    command_version: i64,
    reason: &str,
    event_id: u128,
    now: Timestamp,
) -> (r: NewOutboxEvent)
    ensures
        r@ == release_inventory_event(
            trigger@,
            order_id,
            reservation_id,
            command_version,
            reason@,
            event_id,
            now,
        ),
{
    build_reply(
        trigger,
        MessageKind {
            event_type: RELEASE_INVENTORY_COMMAND_TYPE,
            schema_version: RELEASE_INVENTORY_SCHEMA_VERSION,
            producer: ORDERS_PRODUCER_NAME,
            aggregate_type: RELEASE_INVENTORY_AGGREGATE_TYPE,
            topic: INVENTORY_COMMANDS_TOPIC,
        },
        order_id,
        command_version,
        order_id,
        event_id,
        now,
        EventPayload::ReleaseInventory(
            ReleaseInventoryPayload { order_id, reservation_id, reason: reason.to_owned() },
        ),
    )
}

/// The `create_fulfilment` command.
pub open spec fn create_fulfilment_event(
    trigger: RawView,
    order_id: u128,
    reservation_id: u128,
    payment_id: u128,
    command_version: i64,
    event_id: u128,
    now: Timestamp,
) -> OutboxView {
    reply_to(
        trigger,
        MessageKind {
            event_type: CREATE_FULFILMENT_COMMAND_TYPE,
            schema_version: CREATE_FULFILMENT_SCHEMA_VERSION,
            producer: ORDERS_PRODUCER_NAME,
            aggregate_type: CREATE_FULFILMENT_AGGREGATE_TYPE,
            topic: FULFILMENT_COMMANDS_TOPIC,
        },
        order_id,
        command_version,
        order_id,
        event_id,
        now,
        EventPayloadView::CreateFulfilment(
            CreateFulfilmentPayload { order_id, reservation_id, payment_id },
        ),
    )
}

/// Builds the `create_fulfilment` command.
pub fn build_create_fulfilment_event(
    trigger: &RawEnvelope,
    order_id: u128,
    reservation_id: u128,
    payment_id: u128,
    command_version: i64,
    event_id: u128,
    now: Timestamp,
) -> (r: NewOutboxEvent)
    ensures
        r@ == create_fulfilment_event(
            trigger@,
            order_id,
            reservation_id,
            payment_id,
            command_version,
            event_id,
            now,
        ),
{
    build_reply(
        trigger,
        MessageKind {
            event_type: CREATE_FULFILMENT_COMMAND_TYPE,
            schema_version: CREATE_FULFILMENT_SCHEMA_VERSION,
            producer: ORDERS_PRODUCER_NAME,
            aggregate_type: CREATE_FULFILMENT_AGGREGATE_TYPE,
            topic: FULFILMENT_COMMANDS_TOPIC,
        },
        order_id,
        command_version,
        order_id,
        event_id,
        now,
        EventPayload::CreateFulfilment(
            CreateFulfilmentPayload { order_id, reservation_id, payment_id },
        ),
    )
}

/// The `refund_payment` command.
pub open spec fn refund_payment_event(
    trigger: RawView,
    order_id: u128,
    payment_id: u128,
    command_version: i64,
    reason: Seq<char>,
    event_id: u128,
    now: Timestamp,
) -> OutboxView {
    reply_to(
        trigger,
        MessageKind {
            event_type: REFUND_PAYMENT_COMMAND_TYPE,
            schema_version: REFUND_PAYMENT_SCHEMA_VERSION,
            producer: ORDERS_PRODUCER_NAME,
            aggregate_type: PAYMENT_COMMAND_AGGREGATE_TYPE,
            topic: PAYMENTS_COMMANDS_TOPIC,
        },
        order_id,
        command_version,
        order_id,
        event_id,
        now,
        EventPayloadView::RefundPayment(RefundPaymentView { order_id, payment_id, reason }),
    )
}

/// Builds the `refund_payment` command.
pub fn build_refund_payment_event(
    trigger: &RawEnvelope,
    order_id: u128,
    payment_id: u128,
    command_version: i64,
    reason: &str,
    event_id: u128,
    now: Timestamp,
) -> (r: NewOutboxEvent)
    ensures
        r@ == refund_payment_event(
            trigger@,
            order_id,
            payment_id,
            command_version,
            reason@,
            event_id,
            now,
        ),
{
    build_reply(
        trigger,
        MessageKind {
            event_type: REFUND_PAYMENT_COMMAND_TYPE,
            schema_version: REFUND_PAYMENT_SCHEMA_VERSION,
            producer: ORDERS_PRODUCER_NAME,
            aggregate_type: PAYMENT_COMMAND_AGGREGATE_TYPE,
            topic: PAYMENTS_COMMANDS_TOPIC,
        },
        order_id,
        command_version,
        order_id,
        event_id,
        now,
        EventPayload::RefundPayment(
            RefundPaymentPayload { order_id, payment_id, reason: reason.to_owned() },
        ),
    )
}

/// The `order_completed` event.
pub open spec fn completed_event(
    trigger: RawView,
    order_id: u128,
    fulfilment_id: u128,
    order_version: i64,
    event_id: u128,
    now: Timestamp,
) -> OutboxView {
    reply_to(
        trigger,
        MessageKind {
            event_type: ORDER_COMPLETED_EVENT_TYPE,
            schema_version: ORDER_COMPLETED_SCHEMA_VERSION,
            producer: ORDERS_PRODUCER_NAME,
            aggregate_type: ORDER_AGGREGATE_TYPE,
            topic: ORDER_CREATED_TOPIC,
        },
        order_id,
        order_version,
        order_id,
        event_id,
        now,
        EventPayloadView::OrderCompleted(OrderCompletedPayload { order_id, fulfilment_id }),
    )
}

/// Builds the `order_completed` event.
pub fn build_completed_event(
    trigger: &RawEnvelope,
    order_id: u128,
    fulfilment_id: u128,
    order_version: i64,
    event_id: u128,
    now: Timestamp,
) -> (r: NewOutboxEvent)
    ensures
        r@ == completed_event(trigger@, order_id, fulfilment_id, order_version, event_id, now),
{
    build_reply(
        trigger,
        MessageKind {
            event_type: ORDER_COMPLETED_EVENT_TYPE,
            schema_version: ORDER_COMPLETED_SCHEMA_VERSION,
            producer: ORDERS_PRODUCER_NAME,
            aggregate_type: ORDER_AGGREGATE_TYPE,
            topic: ORDER_CREATED_TOPIC,
        },
        order_id,
        order_version,
        order_id,
        event_id,
        now,
        EventPayload::OrderCompleted(OrderCompletedPayload { order_id, fulfilment_id }),
    )
}

/// The `order_cancelled` event.
pub open spec fn cancelled_event(
    trigger: RawView,
    order_id: u128,
    order_version: i64,
    reason: Seq<char>,
    event_id: u128,
    now: Timestamp,
) -> OutboxView {
    reply_to(
        trigger,
        MessageKind {
            event_type: ORDER_CANCELLED_EVENT_TYPE,
            schema_version: ORDER_CANCELLED_SCHEMA_VERSION,
            producer: ORDERS_PRODUCER_NAME,
            aggregate_type: ORDER_AGGREGATE_TYPE,
            topic: ORDER_CREATED_TOPIC,
        },
        order_id,
        order_version,
        order_id,
        event_id,
        now,
        EventPayloadView::OrderCancelled(OrderCancelledView { order_id, reason_code: reason }),
    )
}

/// Builds the `order_cancelled` event.
pub fn build_cancelled_event(
    trigger: &RawEnvelope,
    order_id: u128,
    order_version: i64,
    reason: &str,
    event_id: u128,
    now: Timestamp,
) -> (r: NewOutboxEvent)
    ensures
        r@ == cancelled_event(trigger@, order_id, order_version, reason@, event_id, now),
{
    build_reply(
        trigger,
        MessageKind {
            event_type: ORDER_CANCELLED_EVENT_TYPE,
            schema_version: ORDER_CANCELLED_SCHEMA_VERSION,
            producer: ORDERS_PRODUCER_NAME,
            aggregate_type: ORDER_AGGREGATE_TYPE,
            topic: ORDER_CREATED_TOPIC,
        },
        order_id,
        order_version,
        order_id,
        event_id,
        now,
        EventPayload::OrderCancelled(
            OrderCancelledPayload { order_id, reason_code: reason.to_owned() },
        ),
    )
}

/// The commands of the orders service go to the service that they ask, about
/// the order that they are for, and name what they ask it for.
pub proof fn commands_name_what_they_ask_for(
    trigger: &RawEnvelope,
    order_id: u128,
    reservation_id: u128,
    payment_id: u128,
    version: i64,
    reason: &str,
    event_id: u128,
    now: Timestamp,
    r: NewOutboxEvent,
)
    ensures
        call_ensures(
            build_release_inventory_event,
            (trigger, order_id, reservation_id, version, reason, event_id, now),
            r,
        ) ==> {
            &&& answers(
                r@,
                trigger@,
                "inventory.release_inventory"@,
                "orders"@,
                "inventory.commands.v1"@,
                "order"@,
                order_id,
                version as int,
                order_id,
                event_id,
                now,
            )
            &&& r.envelope.payload matches EventPayload::ReleaseInventory(asked) && asked.order_id
                == order_id && asked.reservation_id == reservation_id && asked.reason@ == reason@
        },
        call_ensures(
            build_refund_payment_event,
            (trigger, order_id, payment_id, version, reason, event_id, now),
            r,
        ) ==> {
            &&& answers(
                r@,
                trigger@,
                "payments.refund_payment"@,
                "orders"@,
                "payments.commands.v1"@,
                "order"@,
                order_id,
                version as int,
                order_id,
                event_id,
                now,
            )
            &&& r.envelope.payload matches EventPayload::RefundPayment(asked) && asked.order_id
                == order_id && asked.payment_id == payment_id && asked.reason@ == reason@
        },
        call_ensures(
            build_create_fulfilment_event,
            (trigger, order_id, reservation_id, payment_id, version, event_id, now),
            r,
        ) ==> {
            &&& answers(
                r@,
                trigger@,
                "fulfilment.create_fulfilment"@,
                "orders"@,
                "fulfilment.commands.v1"@,
                "order"@,
                order_id,
                version as int,
                order_id,
                event_id,
                now,
            )
            &&& r.envelope.payload matches EventPayload::CreateFulfilment(asked) && asked.order_id
                == order_id && asked.reservation_id == reservation_id && asked.payment_id
                == payment_id
        },
{
    let shown = r@.envelope.payload;
    assert(shown == r.envelope.payload@);
}

/// The command to authorize asks for the order's own amount in its own
/// currency under the given payment.
pub proof fn authorizations_ask_for_the_amount(
    trigger: &RawEnvelope,
    order: &OrderRow,
    version: i64,
    payment_id: u128,
    event_id: u128,
    now: Timestamp,
    r: NewOutboxEvent,
)
    requires
        call_ensures(
            build_authorize_payment_event,
            (trigger, order, version, payment_id, event_id, now),
            r,
        ),
    ensures
        answers(
            r@,
            trigger@,
            "payments.authorize_payment"@,
            "orders"@,
            "payments.commands.v1"@,
            "order"@,
            order.id,
            version as int,
            order.id,
            event_id,
            now,
        ),
        r.envelope.payload matches EventPayload::AuthorizePayment(asked) && asked.order_id
            == order.id && asked.payment_id == payment_id && asked.amount.currency@
            == order.currency@ && asked.amount.minor_units == order.amount_minor,
{
    let shown = r@.envelope.payload;
    assert(shown == r.envelope.payload@);
}

/// The events of the orders service tell which order was completed with which
/// fulfilment, and which was cancelled and why.
pub proof fn events_tell_how_the_order_ended(
    trigger: &RawEnvelope,
    order_id: u128,
    fulfilment_id: u128,
    version: i64,
    reason: &str,
    event_id: u128,
    now: Timestamp,
    r: NewOutboxEvent,
)
    ensures
        call_ensures(
            build_completed_event,
            (trigger, order_id, fulfilment_id, version, event_id, now),
            r,
        ) ==> {
            &&& answers(
                r@,
                trigger@,
                "orders.order_completed"@,
                "orders"@,
                "orders.events.v1"@,
                "order"@,
                order_id,
                version as int,
                order_id,
                event_id,
                now,
            )
            &&& r.envelope.payload matches EventPayload::OrderCompleted(told) && told.order_id
                == order_id && told.fulfilment_id == fulfilment_id
        },
        call_ensures(
            build_cancelled_event,
            (trigger, order_id, version, reason, event_id, now),
            r,
        ) ==> {
            &&& answers(
                r@,
                trigger@,
                "orders.order_cancelled"@,
                "orders"@,
                "orders.events.v1"@,
                "order"@,
                order_id,
                version as int,
                order_id,
                event_id,
                now,
            )
            &&& r.envelope.payload matches EventPayload::OrderCancelled(told) && told.order_id
                == order_id && told.reason_code@ == reason@
        },
{
    let shown = r@.envelope.payload;
    assert(shown == r.envelope.payload@);
}

}
