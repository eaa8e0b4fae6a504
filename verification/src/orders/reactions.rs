//! What each outcome does to an order: where the order goes, what is recorded
//! of the step, and which commands and events go out for it.

use vstd::prelude::*;

use crate::consuming::{
    committed, in_line, result_view, DeliveryView, EffectView, Handled, HandledView, RawEnvelope,
    RawView,
};
use crate::contracts::fulfilment::{
    CreateFulfilmentPayload, FulfilmentCreatedPayload, FulfilmentFailedPayload,
    FulfilmentFailedView,
};
use crate::contracts::inventory::{
    InventoryReleasedPayload, ReleaseFailedView, ReleaseInventoryView, ReservationFailedPayload,
    ReservationFailedView, ReservationSucceededPayload, ReservationSucceededView,
};
use crate::contracts::orders::{OrderCancelledView, OrderCompletedPayload};
use crate::contracts::payments::{
    AuthorizePaymentView, PaymentAmountView, PaymentAuthorizedPayload, PaymentAuthorizedView,
    PaymentFailedPayload, PaymentFailedView, PaymentRefundedPayload, RefundFailedView,
    RefundPaymentView,
};
use crate::contracts::{Envelope, EnvelopeView, EventPayloadView};
use crate::deliveries::{applied_once, commits_all};
use crate::digest::json_member;
use crate::domain_common::is_version_7;
use crate::orders::domain::OrderStatus;
use crate::orders::outcome_consumer::{
    handle_one, handle_record, handling, kind_named, payload_fits, payload_view, reaction, Outcome,
    OutcomeKind, OutcomeView,
};
use crate::orders::repository::{OrderView, TransitionView};
use crate::orders::saga::{
    react_to_compensation_failed, react_to_fulfilment_created, react_to_fulfilment_failed,
    react_to_inventory_released, react_to_payment_authorized, react_to_payment_failed,
    react_to_payment_refunded, react_to_reservation_failed, react_to_reservation_succeeded, Fresh,
    HandleError, OrderSaga, OrderWrites, SagaView, WritesView,
};
use crate::persistence::inbox::{InboxFacts, InboxFactsView};
use crate::persistence::outbox::answers;
use crate::messaging::ConsumedRecord;
use crate::model::opt_view;
use crate::text::{decimal, uuid_text};
use crate::time::Timestamp;

verus! {

/// The versions of the order and of its commands can be counted on.
pub open spec fn can_be_counted(saga: SagaView) -> bool {
    &&& saga.order.version < i64::MAX - 1
    &&& saga.inventory_commands < i64::MAX
    &&& saga.payments_commands < i64::MAX
    &&& saga.fulfilment_commands < i64::MAX
}

/// An order is on its way: it was accepted, and is neither complete nor being
/// cancelled.
pub open spec fn on_its_way(status: OrderStatus) -> bool {
    status is Pending || status is InventoryReserved || status is PaymentAuthorized
        || status is ReadyForFulfilment
}

/// The order after `steps` steps to `to`: nothing but its status, its version
/// and its last change is another.
pub open spec fn order_moved(
    before: OrderView,
    after: OrderView,
    to: OrderStatus,
    steps: int,
    delivery: DeliveryView,
) -> bool {
    &&& after.status == to
    &&& after.version == before.version + steps
    &&& after.updated_at == delivery.now
    &&& after.id == before.id
    &&& after.idempotency_key == before.idempotency_key
    &&& after.idempotency_request_hash == before.idempotency_request_hash
    &&& after.currency == before.currency
    &&& after.amount_minor == before.amount_minor
    &&& after.cancellation_reason == before.cancellation_reason
    &&& after.correlation_id == before.correlation_id
    &&& after.created_at == before.created_at
}

/// The record of one step of an order.
pub open spec fn step_told(
    step: TransitionView,
    order_id: u128,
    from: OrderStatus,
    to: OrderStatus,
    version: int,
    reason: Seq<char>,
    envelope: RawView,
    id: u128,
    delivery: DeliveryView,
) -> bool {
    &&& step.id == id
    &&& step.order_id == order_id
    &&& step.from_status == Some(from)
    &&& step.to_status == to
    &&& step.order_version == version
    &&& step.reason == Some(reason)
    &&& step.triggering_event_id == Some(envelope.event_id)
    &&& step.created_at == delivery.now
}

/// What a reaction writes, where it writes.
pub open spec fn writes_of(handled: Result<HandledView<WritesView>, HandleError>) -> Option<
    WritesView,
> {
    match handled {
        Ok(h) => committed(h.effects),
        Err(_) => None,
    }
}

/// A reservation moves a pending order on, records under which reservation its
/// stock is held, and asks for the payment of exactly its amount in its
/// currency; an order that stands elsewhere is left as it is.
pub proof fn reservations_move_pending_orders_to_payment(
    delivery: DeliveryView,
    envelope: RawView,
    payload: ReservationSucceededView,
    saga: SagaView,
    fresh: Fresh,
)
    requires
        can_be_counted(saga),
    ensures
        ({
            let handled = reaction(
                delivery,
                envelope,
                OutcomeView::ReservationSucceeded(payload),
                Some(saga),
                fresh,
            );
            let writes = writes_of(handled)->0;
            &&& handled is Ok
            &&& applied_once(handled->Ok_0, delivery, envelope)
            &&& writes_of(handled) is Some
            &&& saga.order.status is Pending ==> {
                &&& order_moved(
                    saga.order,
                    writes.saga.order,
                    OrderStatus::InventoryReserved,
                    1,
                    delivery,
                )
                &&& writes.saga == (SagaView {
                    order: writes.saga.order,
                    reservation_id: Some(payload.reservation_id),
                    payments_commands: (saga.payments_commands + 1) as i64,
                    ..saga
                })
                &&& writes.transitions.len() == 1
                &&& step_told(
                    writes.transitions[0],
                    saga.order.id,
                    OrderStatus::Pending,
                    OrderStatus::InventoryReserved,
                    saga.order.version + 1,
                    "inventory reservation succeeded"@,
                    envelope,
                    fresh.first_transition,
                    delivery,
                )
                &&& writes.outbox.len() == 1
                &&& answers(
                    writes.outbox[0],
                    envelope,
                    "payments.authorize_payment"@,
                    "orders"@,
                    "payments.commands.v1"@,
                    "order"@,
                    saga.order.id,
                    saga.payments_commands + 1,
                    saga.order.id,
                    fresh.first_event,
                    delivery.now,
                )
                &&& writes.outbox[0].envelope.payload == EventPayloadView::AuthorizePayment(
                    AuthorizePaymentView {
                        order_id: saga.order.id,
                        payment_id: fresh.payment,
                        amount: PaymentAmountView {
                            currency: saga.order.currency,
                            minor_units: saga.order.amount_minor,
                        },
                    },
                )
            }
            &&& !(saga.order.status is Pending) ==> {
                &&& writes.saga == saga
                &&& writes.transitions.len() == 0
                &&& writes.outbox.len() == 0
            }
        }),
{
    reveal_with_fuel(committed, 3);
}

/// A rejected reservation cancels an order that is on its way in two steps and
/// asks for nothing; an order that stands elsewhere is left as it is.
pub proof fn rejected_reservations_cancel_at_once(
    delivery: DeliveryView,
    envelope: RawView,
    payload: ReservationFailedView,
    saga: SagaView,
    fresh: Fresh,
)
    requires
        can_be_counted(saga),
    ensures
        ({
            let handled = reaction(
                delivery,
                envelope,
                OutcomeView::ReservationFailed(payload),
                Some(saga),
                fresh,
            );
            let writes = writes_of(handled)->0;
            &&& handled is Ok
            &&& applied_once(handled->Ok_0, delivery, envelope)
            &&& writes_of(handled) is Some
            &&& writes.outbox.len() == 0
            &&& on_its_way(saga.order.status) ==> {
                &&& order_moved(
                    saga.order,
                    writes.saga.order,
                    OrderStatus::Cancelled,
                    2,
                    delivery,
                )
                &&& writes.saga == (SagaView { order: writes.saga.order, ..saga })
                &&& writes.transitions.len() == 2
                &&& step_told(
                    writes.transitions[0],
                    saga.order.id,
                    saga.order.status,
                    OrderStatus::Cancelling,
                    saga.order.version + 1,
                    payload.reason_code,
                    envelope,
                    fresh.first_transition,
                    delivery,
                )
                &&& step_told(
                    writes.transitions[1],
                    saga.order.id,
                    OrderStatus::Cancelling,
                    OrderStatus::Cancelled,
                    saga.order.version + 2,
                    "inventory reservation rejected; nothing to compensate"@,
                    envelope,
                    fresh.second_transition,
                    delivery,
                )
            }
            &&& !(on_its_way(saga.order.status)) ==> {
                &&& writes.saga == saga
                &&& writes.transitions.len() == 0
                &&& writes.outbox.len() == 0
            }
        }),
{
    reveal_with_fuel(committed, 3);
}

/// An authorized payment takes an order whose stock is reserved two steps on,
/// records the payment, and asks for the fulfilment of that order with that
/// reservation and that payment; an order that stands elsewhere only notes the
/// payment.
pub proof fn authorized_payments_ask_for_the_fulfilment(
    delivery: DeliveryView,
    envelope: RawView,
    payload: PaymentAuthorizedView,
    saga: SagaView,
    fresh: Fresh,
)
    requires
        can_be_counted(saga),
        saga.order.status is InventoryReserved ==> saga.reservation_id is Some,
    ensures
        ({
            let handled = reaction(
                delivery,
                envelope,
                OutcomeView::PaymentAuthorized(payload),
                Some(saga),
                fresh,
            );
            let writes = writes_of(handled)->0;
            &&& handled is Ok
            &&& applied_once(handled->Ok_0, delivery, envelope)
            &&& writes_of(handled) is Some
            &&& saga.order.status is InventoryReserved ==> {
                &&& order_moved(
                    saga.order,
                    writes.saga.order,
                    OrderStatus::ReadyForFulfilment,
                    2,
                    delivery,
                )
                &&& writes.saga == (SagaView {
                    order: writes.saga.order,
                    payment_id: Some(payload.payment_id),
                    fulfilment_commands: (saga.fulfilment_commands + 1) as i64,
                    ..saga
                })
                &&& writes.transitions.len() == 2
                &&& step_told(
                    writes.transitions[0],
                    saga.order.id,
                    OrderStatus::InventoryReserved,
                    OrderStatus::PaymentAuthorized,
                    saga.order.version + 1,
                    "payment authorized"@,
                    envelope,
                    fresh.first_transition,
                    delivery,
                )
                &&& step_told(
                    writes.transitions[1],
                    saga.order.id,
                    OrderStatus::PaymentAuthorized,
                    OrderStatus::ReadyForFulfilment,
                    saga.order.version + 2,
                    "inventory and payment confirmed"@,
                    envelope,
                    fresh.second_transition,
                    delivery,
                )
                &&& writes.outbox.len() == 1
                &&& answers(
                    writes.outbox[0],
                    envelope,
                    "fulfilment.create_fulfilment"@,
                    "orders"@,
                    "fulfilment.commands.v1"@,
                    "order"@,
                    saga.order.id,
                    saga.fulfilment_commands + 1,
                    saga.order.id,
                    fresh.first_event,
                    delivery.now,
                )
                &&& writes.outbox[0].envelope.payload == EventPayloadView::CreateFulfilment(
                    CreateFulfilmentPayload {
                        order_id: saga.order.id,
                        reservation_id: saga.reservation_id->0,
                        payment_id: payload.payment_id,
                    },
                )
            }
            &&& !(saga.order.status is InventoryReserved) ==> {
                &&& writes.saga == (SagaView { payment_id: Some(payload.payment_id), ..saga })
                &&& writes.transitions.len() == 0
                &&& writes.outbox.len() == 0
            }
        }),
{
    reveal_with_fuel(committed, 3);
}

/// A refused payment starts the cancellation of an order that is on its way and
/// asks for the release of that order's own reservation, with the reason of
/// the refusal; an order that stands elsewhere is left as it is.
pub proof fn refused_payments_ask_for_the_release(
    delivery: DeliveryView,
    envelope: RawView,
    payload: PaymentFailedView,
    saga: SagaView,
    fresh: Fresh,
)
    requires
        can_be_counted(saga),
        saga.reservation_id is Some,
    ensures
        ({
            let handled = reaction(
                delivery,
                envelope,
                OutcomeView::PaymentFailed(payload),
                Some(saga),
                fresh,
            );
            let writes = writes_of(handled)->0;
            &&& handled is Ok
            &&& applied_once(handled->Ok_0, delivery, envelope)
            &&& writes_of(handled) is Some
            &&& on_its_way(saga.order.status) ==> {
                &&& order_moved(
                    saga.order,
                    writes.saga.order,
                    OrderStatus::Cancelling,
                    1,
                    delivery,
                )
                &&& writes.saga == (SagaView {
                    order: writes.saga.order,
                    release_required: true,
                    inventory_commands: (saga.inventory_commands + 1) as i64,
                    ..saga
                })
                &&& writes.transitions.len() == 1
                &&& step_told(
                    writes.transitions[0],
                    saga.order.id,
                    saga.order.status,
                    OrderStatus::Cancelling,
                    saga.order.version + 1,
                    payload.reason_code,
                    envelope,
                    fresh.first_transition,
                    delivery,
                )
                &&& writes.outbox.len() == 1
                &&& answers(
                    writes.outbox[0],
                    envelope,
                    "inventory.release_inventory"@,
                    "orders"@,
                    "inventory.commands.v1"@,
                    "order"@,
                    saga.order.id,
                    saga.inventory_commands + 1,
                    saga.order.id,
                    fresh.first_event,
                    delivery.now,
                )
                &&& writes.outbox[0].envelope.payload == EventPayloadView::ReleaseInventory(
                    ReleaseInventoryView {
                        order_id: saga.order.id,
                        reservation_id: saga.reservation_id->0,
                        reason: payload.reason_code,
                    },
                )
            }
            &&& !(on_its_way(saga.order.status)) ==> {
                &&& writes.saga == saga
                &&& writes.transitions.len() == 0
                &&& writes.outbox.len() == 0
            }
        }),
{
    reveal_with_fuel(committed, 3);
}

/// A fulfilment completes an order that is ready for it and announces the
/// completion with that fulfilment; an order that stands elsewhere only notes
/// the fulfilment.
pub proof fn fulfilments_complete_the_order(
    delivery: DeliveryView,
    envelope: RawView,
    payload: FulfilmentCreatedPayload,
    saga: SagaView,
    fresh: Fresh,
)
    requires
        can_be_counted(saga),
    ensures
        ({
            let handled = reaction(
                delivery,
                envelope,
                OutcomeView::FulfilmentCreated(payload),
                Some(saga),
                fresh,
            );
            let writes = writes_of(handled)->0;
            &&& handled is Ok
            &&& applied_once(handled->Ok_0, delivery, envelope)
            &&& writes_of(handled) is Some
            &&& saga.order.status is ReadyForFulfilment ==> {
                &&& order_moved(
                    saga.order,
                    writes.saga.order,
                    OrderStatus::Completed,
                    1,
                    delivery,
                )
                &&& writes.saga == (SagaView {
                    order: writes.saga.order,
                    fulfilment_id: Some(payload.fulfilment_id),
                    ..saga
                })
                &&& writes.transitions.len() == 1
                &&& step_told(
                    writes.transitions[0],
                    saga.order.id,
                    OrderStatus::ReadyForFulfilment,
                    OrderStatus::Completed,
                    saga.order.version + 1,
                    "fulfilment created"@,
                    envelope,
                    fresh.first_transition,
                    delivery,
                )
                &&& writes.outbox.len() == 1
                &&& answers(
                    writes.outbox[0],
                    envelope,
                    "orders.order_completed"@,
                    "orders"@,
                    "orders.events.v1"@,
                    "order"@,
                    saga.order.id,
                    saga.order.version + 1,
                    saga.order.id,
                    fresh.first_event,
                    delivery.now,
                )
                &&& writes.outbox[0].envelope.payload == EventPayloadView::OrderCompleted(
                    OrderCompletedPayload {
                        order_id: saga.order.id,
                        fulfilment_id: payload.fulfilment_id,
                    },
                )
            }
            &&& !(saga.order.status is ReadyForFulfilment) ==> {
                &&& writes.saga == (SagaView { fulfilment_id: Some(payload.fulfilment_id), ..saga })
                &&& writes.transitions.len() == 0
                &&& writes.outbox.len() == 0
            }
        }),
{
    reveal_with_fuel(committed, 3);
}

/// A failed fulfilment starts the cancellation of an order that is on its way:
/// it asks for the release of that order's own reservation and for the refund
/// of its own payment, both with the reason of the failure, and waits for
/// both. An order that stands elsewhere sends nothing.
pub proof fn failed_fulfilments_ask_for_release_and_refund(
    delivery: DeliveryView,
    envelope: RawView,
    payload: FulfilmentFailedView,
    saga: SagaView,
    fresh: Fresh,
)
    requires
        can_be_counted(saga),
        saga.reservation_id is Some,
        saga.payment_id is Some,
    ensures
        ({
            let handled = reaction(
                delivery,
                envelope,
                OutcomeView::FulfilmentFailed(payload),
                Some(saga),
                fresh,
            );
            let writes = writes_of(handled)->0;
            &&& handled is Ok
            &&& applied_once(handled->Ok_0, delivery, envelope)
            &&& writes_of(handled) is Some
            &&& on_its_way(saga.order.status) ==> {
                &&& order_moved(
                    saga.order,
                    writes.saga.order,
                    OrderStatus::Cancelling,
                    1,
                    delivery,
                )
                &&& writes.saga == (SagaView {
                    order: writes.saga.order,
                    release_required: true,
                    refund_required: true,
                    inventory_commands: (saga.inventory_commands + 1) as i64,
                    payments_commands: (saga.payments_commands + 1) as i64,
                    ..saga
                })
                &&& writes.transitions.len() == 1
                &&& step_told(
                    writes.transitions[0],
                    saga.order.id,
                    saga.order.status,
                    OrderStatus::Cancelling,
                    saga.order.version + 1,
                    payload.reason_code,
                    envelope,
                    fresh.first_transition,
                    delivery,
                )
                &&& writes.outbox.len() == 2
                &&& answers(
                    writes.outbox[0],
                    envelope,
                    "inventory.release_inventory"@,
                    "orders"@,
                    "inventory.commands.v1"@,
                    "order"@,
                    saga.order.id,
                    saga.inventory_commands + 1,
                    saga.order.id,
                    fresh.first_event,
                    delivery.now,
                )
                &&& writes.outbox[0].envelope.payload == EventPayloadView::ReleaseInventory(
                    ReleaseInventoryView {
                        order_id: saga.order.id,
                        reservation_id: saga.reservation_id->0,
                        reason: payload.reason_code,
                    },
                )
                &&& answers(
                    writes.outbox[1],
                    envelope,
                    "payments.refund_payment"@,
                    "orders"@,
                    "payments.commands.v1"@,
                    "order"@,
                    saga.order.id,
                    saga.payments_commands + 1,
                    saga.order.id,
                    fresh.second_event,
                    delivery.now,
                )
                &&& writes.outbox[1].envelope.payload == EventPayloadView::RefundPayment(
                    RefundPaymentView {
                        order_id: saga.order.id,
                        payment_id: saga.payment_id->0,
                        reason: payload.reason_code,
                    },
                )
            }
            &&& !(on_its_way(saga.order.status)) ==> {
                &&& writes.saga == (SagaView { release_required: true, refund_required: true, ..saga })
                &&& writes.transitions.len() == 0
                &&& writes.outbox.len() == 0
            }
        }),
{
    reveal_with_fuel(committed, 3);
}

/// A confirmed release is noted, and cancels an order that is being cancelled
/// unless it still waits for a refund; the cancellation is announced.
pub proof fn confirmed_releases_cancel_unless_a_refund_is_awaited(
    delivery: DeliveryView,
    envelope: RawView,
    payload: InventoryReleasedPayload,
    saga: SagaView,
    fresh: Fresh,
)
    requires
        can_be_counted(saga),
    ensures
        ({
            let handled = reaction(
                delivery,
                envelope,
                OutcomeView::InventoryReleased(payload),
                Some(saga),
                fresh,
            );
            let writes = writes_of(handled)->0;
            let last = saga.order.status is Cancelling && !(saga.refund_required && !saga.refund_done);
            &&& handled is Ok
            &&& applied_once(handled->Ok_0, delivery, envelope)
            &&& writes_of(handled) is Some
            &&& last ==> {
                &&& order_moved(
                    saga.order,
                    writes.saga.order,
                    OrderStatus::Cancelled,
                    1,
                    delivery,
                )
                &&& writes.saga == (SagaView {
                    order: writes.saga.order,
                    release_done: true,
                    ..saga
                })
                &&& writes.transitions.len() == 1
                &&& step_told(
                    writes.transitions[0],
                    saga.order.id,
                    OrderStatus::Cancelling,
                    OrderStatus::Cancelled,
                    saga.order.version + 1,
                    "required compensations confirmed"@,
                    envelope,
                    fresh.first_transition,
                    delivery,
                )
                &&& writes.outbox.len() == 1
                &&& answers(
                    writes.outbox[0],
                    envelope,
                    "orders.order_cancelled"@,
                    "orders"@,
                    "orders.events.v1"@,
                    "order"@,
                    saga.order.id,
                    saga.order.version + 1,
                    saga.order.id,
                    fresh.first_event,
                    delivery.now,
                )
                &&& writes.outbox[0].envelope.payload == EventPayloadView::OrderCancelled(
                    OrderCancelledView { order_id: saga.order.id, reason_code: "COMPENSATED"@ },
                )
            }
            &&& !(last) ==> {
                &&& writes.saga == (SagaView { release_done: true, ..saga })
                &&& writes.transitions.len() == 0
                &&& writes.outbox.len() == 0
            }
        }),
{
    reveal_with_fuel(committed, 3);
}

/// A confirmed refund is noted, and cancels an order that is being cancelled
/// unless it still waits for a release; the cancellation is announced.
pub proof fn confirmed_refunds_cancel_unless_a_release_is_awaited(
    delivery: DeliveryView,
    envelope: RawView,
    payload: PaymentRefundedPayload,
    saga: SagaView,
    fresh: Fresh,
)
    requires
        can_be_counted(saga),
    ensures
        ({
            let handled = reaction(
                delivery,
                envelope,
                OutcomeView::PaymentRefunded(payload),
                Some(saga),
                fresh,
            );
            let writes = writes_of(handled)->0;
            let last = saga.order.status is Cancelling && !(saga.release_required && !saga.release_done);
            &&& handled is Ok
            &&& applied_once(handled->Ok_0, delivery, envelope)
            &&& writes_of(handled) is Some
            &&& last ==> {
                &&& order_moved(
                    saga.order,
                    writes.saga.order,
                    OrderStatus::Cancelled,
                    1,
                    delivery,
                )
                &&& writes.saga == (SagaView {
                    order: writes.saga.order,
                    refund_done: true,
                    ..saga
                })
                &&& writes.transitions.len() == 1
                &&& step_told(
                    writes.transitions[0],
                    saga.order.id,
                    OrderStatus::Cancelling,
                    OrderStatus::Cancelled,
                    saga.order.version + 1,
                    "required compensations confirmed"@,
                    envelope,
                    fresh.first_transition,
                    delivery,
                )
                &&& writes.outbox.len() == 1
                &&& answers(
                    writes.outbox[0],
                    envelope,
                    "orders.order_cancelled"@,
                    "orders"@,
                    "orders.events.v1"@,
                    "order"@,
                    saga.order.id,
                    saga.order.version + 1,
                    saga.order.id,
                    fresh.first_event,
                    delivery.now,
                )
                &&& writes.outbox[0].envelope.payload == EventPayloadView::OrderCancelled(
                    OrderCancelledView { order_id: saga.order.id, reason_code: "COMPENSATED"@ },
                )
            }
            &&& !(last) ==> {
                &&& writes.saga == (SagaView { refund_done: true, ..saga })
                &&& writes.transitions.len() == 0
                &&& writes.outbox.len() == 0
            }
        }),
{
    reveal_with_fuel(committed, 3);
}

/// A release that was given up tells an operator why, and sends an order that
/// is being cancelled to review.
pub proof fn given_up_releases_go_to_review(
    delivery: DeliveryView,
    envelope: RawView,
    payload: ReleaseFailedView,
    saga: SagaView,
    fresh: Fresh,
)
    requires
        can_be_counted(saga),
    ensures
        ({
            let handled = reaction(
                delivery,
                envelope,
                OutcomeView::ReleaseFailed(payload),
                Some(saga),
                fresh,
            );
            let effects = handled->Ok_0.effects;
            let writes = writes_of(handled)->0;
            &&& handled is Ok
            &&& handled->Ok_0.outcome is Applied
            &&& effects.len() == 2
            &&& commits_all(effects[1], delivery, envelope)
            &&& effects[0] matches EffectView::PublishDlq(letter) && letter.error_code
                == "COMPENSATION_EXHAUSTED"@ && letter.error_detail == payload.reason_code
                && letter.envelope == Some(envelope)
            &&& writes_of(handled) is Some
            &&& writes.outbox.len() == 0
            &&& saga.order.status is Cancelling ==> {
                &&& order_moved(
                    saga.order,
                    writes.saga.order,
                    OrderStatus::ManualReview,
                    1,
                    delivery,
                )
                &&& writes.saga == (SagaView { order: writes.saga.order, ..saga })
                &&& writes.transitions.len() == 1
                &&& step_told(
                    writes.transitions[0],
                    saga.order.id,
                    OrderStatus::Cancelling,
                    OrderStatus::ManualReview,
                    saga.order.version + 1,
                    payload.reason_code,
                    envelope,
                    fresh.first_transition,
                    delivery,
                )
            }
            &&& !(saga.order.status is Cancelling) ==> {
                &&& writes.saga == saga
                &&& writes.transitions.len() == 0
                &&& writes.outbox.len() == 0
            }
        }),
{
    reveal_with_fuel(committed, 3);
    let effects = reaction(
        delivery,
        envelope,
        OutcomeView::ReleaseFailed(payload),
        Some(saga),
        fresh,
    )->Ok_0.effects;
    let rest = effects.drop_first();
    assert(rest.first() == effects[1]);
}

/// A refund that was given up tells an operator why, and sends an order that
/// is being cancelled to review.
pub proof fn given_up_refunds_go_to_review(
    delivery: DeliveryView,
    envelope: RawView,
    payload: RefundFailedView,
    saga: SagaView,
    fresh: Fresh,
)
    requires
        can_be_counted(saga),
    ensures
        ({
            let handled = reaction(
                delivery,
                envelope,
                OutcomeView::RefundFailed(payload),
                Some(saga),
                fresh,
            );
            let effects = handled->Ok_0.effects;
            let writes = writes_of(handled)->0;
            &&& handled is Ok
            &&& handled->Ok_0.outcome is Applied
            &&& effects.len() == 2
            &&& commits_all(effects[1], delivery, envelope)
            &&& effects[0] matches EffectView::PublishDlq(letter) && letter.error_code
                == "COMPENSATION_EXHAUSTED"@ && letter.error_detail == payload.reason_code
                && letter.envelope == Some(envelope)
            &&& writes_of(handled) is Some
            &&& writes.outbox.len() == 0
            &&& saga.order.status is Cancelling ==> {
                &&& order_moved(
                    saga.order,
                    writes.saga.order,
                    OrderStatus::ManualReview,
                    1,
                    delivery,
                )
                &&& writes.saga == (SagaView { order: writes.saga.order, ..saga })
                &&& writes.transitions.len() == 1
                &&& step_told(
                    writes.transitions[0],
                    saga.order.id,
                    OrderStatus::Cancelling,
                    OrderStatus::ManualReview,
                    saga.order.version + 1,
                    payload.reason_code,
                    envelope,
                    fresh.first_transition,
                    delivery,
                )
            }
            &&& !(saga.order.status is Cancelling) ==> {
                &&& writes.saga == saga
                &&& writes.transitions.len() == 0
                &&& writes.outbox.len() == 0
            }
        }),
{
    reveal_with_fuel(committed, 3);
    let effects = reaction(
        delivery,
        envelope,
        OutcomeView::RefundFailed(payload),
        Some(saga),
        fresh,
    )->Ok_0.effects;
    let rest = effects.drop_first();
    assert(rest.first() == effects[1]);
}

/// An outcome that cannot be tied to an order with what it needs is put aside
/// with a dead letter that names the order, and nothing is committed.
pub proof fn outcomes_without_an_order_are_put_aside(
    delivery: DeliveryView,
    envelope: RawView,
    payload: OutcomeView,
    saga: Option<SagaView>,
    fresh: Fresh,
)
    requires
        saga is None || (payload is PaymentFailed && saga->0.reservation_id is None) || (
        payload is FulfilmentFailed && (saga->0.reservation_id is None
            || saga->0.payment_id is None)),
    ensures
        ({
            let handled = reaction(delivery, envelope, payload, saga, fresh);
            let effects = handled->Ok_0.effects;
            let letter = effects.last()->PublishDlq_0;
            let unknown = envelope.event_type + " (aggregate "@ + uuid_text(envelope.aggregate_id)
                + ") referenced an order this consumer has no row for"@;
            &&& handled is Ok
            &&& handled->Ok_0.outcome is Poison
            &&& effects.len() >= 2
            &&& effects[effects.len() - 2] is Rollback
            &&& forall|i: int| 0 <= i < effects.len() ==> !(#[trigger] effects[i] is Commit)
            &&& effects.last() is PublishDlq
            &&& letter.envelope == Some(envelope)
            &&& letter.error_code == if payload is PaymentFailed {
                "MISSING_RESERVATION_ID"@
            } else {
                "UNKNOWN_ORDER"@
            }
            &&& letter.error_detail == match payload {
                OutcomeView::ReservationSucceeded(p) => "reservation_succeeded for unknown order "@
                    + uuid_text(p.order_id),
                OutcomeView::PaymentAuthorized(p) => "payment_authorized for unknown order "@
                    + uuid_text(p.order_id),
                OutcomeView::PaymentFailed(p) => "payment_failed for order "@ + uuid_text(
                    p.order_id,
                ) + " with no recorded reservation_id"@,
                OutcomeView::FulfilmentFailed(p) =>
                    "fulfilment_failed for unknown or incomplete order "@ + uuid_text(p.order_id),
                _ => unknown,
            }
        }),
{
}

/// Each event type names its own outcome, and no other text names one.
pub proof fn event_types_name_outcomes(event_type: Seq<char>)
    ensures
        kind_named(event_type) == Some(OutcomeKind::ReservationSucceeded) <==> event_type
            == "inventory.reservation_succeeded"@,
        kind_named(event_type) == Some(OutcomeKind::ReservationFailed) <==> event_type
            == "inventory.reservation_failed"@,
        kind_named(event_type) == Some(OutcomeKind::InventoryReleased) <==> event_type
            == "inventory.inventory_released"@,
        kind_named(event_type) == Some(OutcomeKind::ReleaseFailed) <==> event_type
            == "inventory.release_failed"@,
        kind_named(event_type) == Some(OutcomeKind::PaymentAuthorized) <==> event_type
            == "payments.payment_authorized"@,
        kind_named(event_type) == Some(OutcomeKind::PaymentFailed) <==> event_type
            == "payments.payment_failed"@,
        kind_named(event_type) == Some(OutcomeKind::PaymentRefunded) <==> event_type
            == "payments.payment_refunded"@,
        kind_named(event_type) == Some(OutcomeKind::RefundFailed) <==> event_type
            == "payments.refund_failed"@,
        kind_named(event_type) == Some(OutcomeKind::FulfilmentCreated) <==> event_type
            == "fulfilment.fulfilment_created"@,
        kind_named(event_type) == Some(OutcomeKind::FulfilmentFailed) <==> event_type
            == "fulfilment.fulfilment_failed"@,
{
    reveal_strlit("inventory.reservation_succeeded");
    reveal_strlit("inventory.reservation_failed");
    reveal_strlit("inventory.inventory_released");
    reveal_strlit("inventory.release_failed");
    reveal_strlit("payments.payment_authorized");
    reveal_strlit("payments.payment_failed");
    reveal_strlit("payments.payment_refunded");
    reveal_strlit("payments.refund_failed");
    reveal_strlit("fulfilment.fulfilment_created");
    reveal_strlit("fulfilment.fulfilment_failed");
    assert("inventory.reservation_succeeded"@.len() == 31);
    assert("inventory.reservation_failed"@.len() == 28);
    assert("inventory.inventory_released"@[10] == 'i');
    assert("inventory.reservation_failed"@[10] == 'r');
    assert("inventory.inventory_released"@.len() == 28);
    assert("inventory.release_failed"@.len() == 24);
    assert("payments.payment_authorized"@.len() == 27);
    assert("payments.payment_failed"@.len() == 23);
    assert("payments.payment_refunded"@.len() == 25);
    assert("payments.refund_failed"@.len() == 22);
    assert("fulfilment.fulfilment_created"@.len() == 29);
    assert("fulfilment.fulfilment_failed"@.len() == 28);
    assert("fulfilment.fulfilment_failed"@[0] == 'f');
    assert("inventory.reservation_failed"@[0] == 'i');
    assert("inventory.inventory_released"@[0] == 'i');
}

/// An outcome whose record can be read, which is new and next in line, is
/// answered by the order that it names, with the header that it bears.
pub proof fn outcomes_in_line_reach_their_order(
    delivery: DeliveryView,
    header: EnvelopeView<()>,
    payload: OutcomeView,
    facts: InboxFactsView,
    saga: Option<SagaView>,
    fresh: Fresh,
    envelope: RawView,
)
    requires
        kind_named(header.event_type) is Some,
        in_line(delivery, header, facts, envelope),
    ensures
        handling(delivery, Ok(header), Ok(payload), facts, saga, fresh) == reaction(
            delivery,
            envelope,
            payload,
            saga,
            fresh,
        ),
{
    assert(delivery.envelope(header) == envelope);
}

/// A reaction has room exactly while the versions of the order and of its
/// commands can be counted on.
pub proof fn reactions_have_room_while_versions_can_be_counted(saga: SagaView)
    ensures
        saga.has_room() <==> can_be_counted(saga),
{
}

/// An outcome whose payload cannot be read is put aside with a dead letter;
/// nothing is written.
pub proof fn unreadable_outcomes_are_put_aside(
    delivery: DeliveryView,
    header: EnvelopeView<()>,
    error: Seq<char>,
    facts: InboxFactsView,
    saga: Option<SagaView>,
    fresh: Fresh,
    envelope: RawView,
)
    requires
        kind_named(header.event_type) is Some,
        in_line(delivery, header, facts, envelope),
    ensures
        ({
            let handled = handling(delivery, Ok(header), Err(error), facts, saga, fresh);
            let effects = handled->Ok_0.effects;
            &&& handled is Ok
            &&& handled->Ok_0.outcome is Poison
            &&& effects.len() == 2
            &&& effects[0] is Rollback
            &&& effects[1] matches EffectView::PublishDlq(letter) && letter.error_code
                == "MALFORMED_PAYLOAD"@ && letter.envelope == Some(envelope) && letter.error_detail
                == "payload did not match "@ + shape_of(header.event_type) + " shape: "@ + error
        }),
{
    event_types_name_outcomes(header.event_type);
    assert(delivery.envelope(header) == envelope);
}

/// The name of the shape that the payload of an outcome has.
pub open spec fn shape_of(event_type: Seq<char>) -> Seq<char> {
    if event_type == "inventory.reservation_succeeded"@ {
        "reservation_succeeded"@
    } else if event_type == "inventory.reservation_failed"@ {
        "reservation_failed"@
    } else if event_type == "inventory.inventory_released"@ {
        "inventory_released"@
    } else if event_type == "inventory.release_failed"@ {
        "release_failed"@
    } else if event_type == "payments.payment_authorized"@ {
        "payment_authorized"@
    } else if event_type == "payments.payment_failed"@ {
        "payment_failed"@
    } else if event_type == "payments.payment_refunded"@ {
        "payment_refunded"@
    } else if event_type == "payments.refund_failed"@ {
        "refund_failed"@
    } else if event_type == "fulfilment.fulfilment_created"@ {
        "fulfilment_created"@
    } else {
        "fulfilment_failed"@
    }
}

/// The event type is one of an outcome that the orders service answers.
pub open spec fn is_outcome(event_type: Seq<char>) -> bool {
    ||| event_type == "inventory.reservation_succeeded"@
    ||| event_type == "inventory.reservation_failed"@
    ||| event_type == "inventory.inventory_released"@
    ||| event_type == "inventory.release_failed"@
    ||| event_type == "payments.payment_authorized"@
    ||| event_type == "payments.payment_failed"@
    ||| event_type == "payments.payment_refunded"@
    ||| event_type == "payments.refund_failed"@
    ||| event_type == "fulfilment.fulfilment_created"@
    ||| event_type == "fulfilment.fulfilment_failed"@
}

/// A readable record of another event type, or of another version than the
/// first, is given up: nothing is written.
pub proof fn other_events_are_given_up(
    delivery: DeliveryView,
    header: EnvelopeView<()>,
    payload: Result<OutcomeView, Seq<char>>,
    facts: InboxFactsView,
    saga: Option<SagaView>,
    fresh: Fresh,
)
    requires
        delivery.record.value is Some,
        json_member(delivery.record.value->0, "payload"@) is Some,
        !is_outcome(header.event_type) || header.schema_version != 1,
    ensures
        ({
            let handled = handling(delivery, Ok(header), payload, facts, saga, fresh);
            let effects = handled->Ok_0.effects;
            &&& handled is Ok
            &&& handled->Ok_0.outcome is Poison
            &&& effects.len() == 1
            &&& effects[0] matches EffectView::PublishDlq(letter) && letter.error_code
                == "UNSUPPORTED_SCHEMA"@ && letter.envelope == Some(delivery.envelope(header))
                && letter.error_detail == if is_outcome(header.event_type) {
                "unknown type/version pair "@ + header.event_type + "/"@ + decimal(
                    header.schema_version as nat,
                )
            } else {
                "unknown event type "@ + header.event_type
            }
        }),
{
    event_types_name_outcomes(header.event_type);
}

/// A payload fits its header where the event type is the one of its kind.
pub proof fn payloads_fit_their_event_type(header: EnvelopeView<()>, payload: OutcomeView)
    requires
        is_outcome(header.event_type),
    ensures
        payload_fits(Ok(header), Ok(payload)) <==> header.event_type == match payload {
            OutcomeView::ReservationSucceeded(_) => "inventory.reservation_succeeded"@,
            OutcomeView::ReservationFailed(_) => "inventory.reservation_failed"@,
            OutcomeView::InventoryReleased(_) => "inventory.inventory_released"@,
            OutcomeView::ReleaseFailed(_) => "inventory.release_failed"@,
            OutcomeView::PaymentAuthorized(_) => "payments.payment_authorized"@,
            OutcomeView::PaymentFailed(_) => "payments.payment_failed"@,
            OutcomeView::PaymentRefunded(_) => "payments.payment_refunded"@,
            OutcomeView::RefundFailed(_) => "payments.refund_failed"@,
            OutcomeView::FulfilmentCreated(_) => "fulfilment.fulfilment_created"@,
            OutcomeView::FulfilmentFailed(_) => "fulfilment.fulfilment_failed"@,
        },
{
    event_types_name_outcomes(header.event_type);
}

/// A record that is handled now is handled as owed at some moment of the
/// calendar and with fresh identifiers.
pub proof fn outcomes_are_handled_with_fresh_identifiers(
    source_topic: &str,
    record: &ConsumedRecord,
    header: &Result<Envelope<()>, String>,
    payload: &Result<Outcome, String>,
    facts: &InboxFacts,
    saga: Option<OrderSaga>,
    r: Result<Handled<OrderWrites>, HandleError>,
)
    requires
        call_ensures(handle_record, (source_topic, record, header, payload, facts, saga), r),
    ensures
        exists|fresh: Fresh, now: Timestamp|
            {
                let owed = #[trigger] handling(
                    DeliveryView {
                        consumer: "orders-reservation-outcome-consumer"@,
                        source_topic: source_topic@,
                        record: record@,
                        now,
                    },
                    result_view(*header),
                    payload_view(*payload),
                    facts@,
                    opt_view(saga),
                    fresh,
                );
                &&& r is Ok <==> owed is Ok
                &&& r is Ok ==> r->Ok_0@ == owed->Ok_0
                &&& is_version_7(fresh.first_transition)
                &&& is_version_7(fresh.second_transition)
                &&& is_version_7(fresh.first_event)
                &&& is_version_7(fresh.second_event)
                &&& is_version_7(fresh.payment)
            },
{
}

/// What is written for an outcome of the inventory service is what the order
/// is owed for it.
pub proof fn inventory_outcomes_are_carried_out(
    delivery: DeliveryView,
    saga: OrderSaga,
    trigger: &RawEnvelope,
    succeeded: &ReservationSucceededPayload,
    failed: &ReservationFailedPayload,
    released: InventoryReleasedPayload,
    fresh: &Fresh,
    r: OrderWrites,
)
    ensures
        call_ensures(
            react_to_reservation_succeeded,
            (saga, trigger, succeeded, fresh, delivery.now),
            r,
        ) ==> writes_of(
            reaction(
                delivery,
                trigger@,
                OutcomeView::ReservationSucceeded(succeeded@),
                Some(saga@),
                *fresh,
            ),
        ) == Some(r@),
        call_ensures(
            react_to_reservation_failed,
            (saga, trigger, failed, fresh, delivery.now),
            r,
        ) ==> writes_of(
            reaction(
                delivery,
                trigger@,
                OutcomeView::ReservationFailed(failed@),
                Some(saga@),
                *fresh,
            ),
        ) == Some(r@),
        call_ensures(react_to_inventory_released, (saga, trigger, fresh, delivery.now), r)
            ==> writes_of(
            reaction(
                delivery,
                trigger@,
                OutcomeView::InventoryReleased(released),
                Some(saga@),
                *fresh,
            ),
        ) == Some(r@),
{
    reveal_with_fuel(committed, 2);
}

/// What is written for an outcome of the payments service is what the order
/// is owed for it; where an authorized payment finds no reservation to go on
/// with, nothing is written.
pub proof fn payment_outcomes_are_carried_out(
    delivery: DeliveryView,
    saga: OrderSaga,
    trigger: &RawEnvelope,
    authorized: &PaymentAuthorizedPayload,
    failed: &PaymentFailedPayload,
    refunded: PaymentRefundedPayload,
    fresh: &Fresh,
    r: OrderWrites,
    tried: Result<OrderWrites, HandleError>,
)
    ensures
        call_ensures(
            react_to_payment_authorized,
            (saga, trigger, authorized, fresh, delivery.now),
            tried,
        ) ==> {
            let owed = reaction(
                delivery,
                trigger@,
                OutcomeView::PaymentAuthorized(authorized@),
                Some(saga@),
                *fresh,
            );
            &&& tried is Err <==> saga.order.status is InventoryReserved && saga.reservation_id
                is None
            &&& tried is Err <==> owed is Err
            &&& tried is Ok ==> writes_of(owed) == Some(tried->Ok_0@)
        },
        saga.reservation_id matches Some(reservation_id) && call_ensures(
            react_to_payment_failed,
            (saga, reservation_id, trigger, failed, fresh, delivery.now),
            r,
        ) ==> writes_of(
            reaction(
                delivery,
                trigger@,
                OutcomeView::PaymentFailed(failed@),
                Some(saga@),
                *fresh,
            ),
        ) == Some(r@),
        call_ensures(react_to_payment_refunded, (saga, trigger, fresh, delivery.now), r)
            ==> writes_of(
            reaction(
                delivery,
                trigger@,
                OutcomeView::PaymentRefunded(refunded),
                Some(saga@),
                *fresh,
            ),
        ) == Some(r@),
{
    reveal_with_fuel(committed, 2);
}

/// What is written for an outcome of the fulfilment service is what the order
/// is owed for it; so is what is written where a compensation was given up.
pub proof fn fulfilment_outcomes_are_carried_out(
    delivery: DeliveryView,
    saga: OrderSaga,
    trigger: &RawEnvelope,
    created: &FulfilmentCreatedPayload,
    failed: &FulfilmentFailedPayload,
    reason: &str,
    given_up: RefundFailedView,
    fresh: &Fresh,
    r: OrderWrites,
)
    requires
        given_up.reason_code == reason@,
    ensures
        call_ensures(
            react_to_fulfilment_created,
            (saga, trigger, created, fresh, delivery.now),
            r,
        ) ==> writes_of(
            reaction(
                delivery,
                trigger@,
                OutcomeView::FulfilmentCreated(*created),
                Some(saga@),
                *fresh,
            ),
        ) == Some(r@),
        saga.reservation_id matches Some(reservation_id) && saga.payment_id matches Some(payment_id)
            && call_ensures(
            react_to_fulfilment_failed,
            (saga, reservation_id, payment_id, trigger, failed, fresh, delivery.now),
            r,
        ) ==> writes_of(
            reaction(
                delivery,
                trigger@,
                OutcomeView::FulfilmentFailed(failed@),
                Some(saga@),
                *fresh,
            ),
        ) == Some(r@),
        call_ensures(
            react_to_compensation_failed,
            (saga, reason, trigger, fresh, delivery.now),
            r,
        ) ==> writes_of(
            reaction(
                delivery,
                trigger@,
                OutcomeView::RefundFailed(given_up),
                Some(saga@),
                *fresh,
            ),
        ) == Some(r@),
{
    reveal_with_fuel(committed, 3);
    let effects = reaction(
        delivery,
        trigger@,
        OutcomeView::RefundFailed(given_up),
        Some(saga@),
        *fresh,
    )->Ok_0.effects;
    let rest = effects.drop_first();
    assert(rest.first() == effects[1]);
}

/// After a failed fulfilment the refund names the order's own payment and the
/// release its own reservation, both with the reason of the failure.
pub proof fn compensations_name_their_own(
    saga: OrderSaga,
    reservation_id: u128,
    payment_id: u128,
    trigger: &RawEnvelope,
    payload: &FulfilmentFailedPayload,
    fresh: &Fresh,
    now: Timestamp,
    r: OrderWrites,
)
    requires
        call_ensures(
            react_to_fulfilment_failed,
            (saga, reservation_id, payment_id, trigger, payload, fresh, now),
            r,
        ),
        on_its_way(saga.order.status),
    ensures
        r@.outbox.len() == 2,
        r@.outbox[0].envelope.payload == EventPayloadView::ReleaseInventory(
            ReleaseInventoryView {
                order_id: saga.order.id,
                reservation_id,
                reason: payload.reason_code@,
            },
        ),
        r@.outbox[1].envelope.payload == EventPayloadView::RefundPayment(
            RefundPaymentView {
                order_id: saga.order.id,
                payment_id,
                reason: payload.reason_code@,
            },
        ),
{
}

/// A record is handled for the orders consumer, at the moment and with the
/// tables that are given.
pub proof fn outcomes_are_handled_as_owed(
    source_topic: &str,
    record: &ConsumedRecord,
    header: &Result<Envelope<()>, String>,
    payload: &Result<Outcome, String>,
    facts: &InboxFacts,
    saga: Option<OrderSaga>,
    fresh: &Fresh,
    now: Timestamp,
    r: Result<Handled<OrderWrites>, HandleError>,
)
    requires
        call_ensures(handle_one, (source_topic, record, header, payload, facts, saga, fresh, now), r),
    ensures
        ({
            let owed = handling(
                DeliveryView {
                    consumer: "orders-reservation-outcome-consumer"@,
                    source_topic: source_topic@,
                    record: record@,
                    now,
                },
                result_view(*header),
                payload_view(*payload),
                facts@,
                opt_view(saga),
                *fresh,
            );
            &&& r is Ok <==> owed is Ok
            &&& r is Ok ==> r->Ok_0@ == owed->Ok_0
            &&& r is Err ==> r->Err_0 == owed->Err_0
        }),
{
}

/// Every outcome whose payload fits its header is handled, whatever the order
/// is and wherever it stands, while its versions can be counted on.
pub proof fn every_outcome_can_be_handled(
    source_topic: &str,
    record: &ConsumedRecord,
    header: &Result<Envelope<()>, String>,
    payload: &Result<Outcome, String>,
    facts: &InboxFacts,
    saga: Option<OrderSaga>,
    fresh: &Fresh,
    now: Timestamp,
)
    requires
        saga is None || can_be_counted(saga->0@),
        *payload is Err || *header is Err || payload_fits(
            result_view(*header),
            payload_view(*payload),
        ),
    ensures
        call_requires(handle_one, (source_topic, record, header, payload, facts, saga, fresh, now)),
        call_requires(handle_record, (source_topic, record, header, payload, facts, saga)),
{
}

/// Every reaction can be taken while the versions of the order and of its
/// commands can be counted on.
pub proof fn every_reaction_can_be_taken(
    saga: OrderSaga,
    reservation_id: u128,
    payment_id: u128,
    trigger: &RawEnvelope,
    succeeded: &ReservationSucceededPayload,
    rejected: &ReservationFailedPayload,
    authorized: &PaymentAuthorizedPayload,
    declined: &PaymentFailedPayload,
    created: &FulfilmentCreatedPayload,
    failed: &FulfilmentFailedPayload,
    fresh: &Fresh,
    now: Timestamp,
)
    requires
        can_be_counted(saga@),
    ensures
        call_requires(react_to_reservation_succeeded, (saga, trigger, succeeded, fresh, now)),
        call_requires(react_to_reservation_failed, (saga, trigger, rejected, fresh, now)),
        call_requires(react_to_inventory_released, (saga, trigger, fresh, now)),
        call_requires(react_to_payment_refunded, (saga, trigger, fresh, now)),
        call_requires(react_to_payment_authorized, (saga, trigger, authorized, fresh, now)),
        call_requires(
            react_to_payment_failed,
            (saga, reservation_id, trigger, declined, fresh, now),
        ),
        call_requires(react_to_fulfilment_created, (saga, trigger, created, fresh, now)),
        call_requires(
            react_to_fulfilment_failed,
            (saga, reservation_id, payment_id, trigger, failed, fresh, now),
        ),
{
}

}
