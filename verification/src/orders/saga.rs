//! An order on its journey, and how it reacts to each outcome: forward along
//! the way to completion, or back through the compensations that its progress
//! calls for.

use vstd::prelude::*;

use crate::consuming::{RawEnvelope, RawView};
use crate::contracts::fulfilment::{
    FulfilmentCreatedPayload, FulfilmentFailedPayload, FulfilmentFailedView,
};
use crate::contracts::inventory::{
    ReservationFailedPayload, ReservationFailedView, ReservationSucceededPayload,
    ReservationSucceededView,
};
use crate::contracts::payments::{
    PaymentAuthorizedPayload, PaymentAuthorizedView, PaymentFailedPayload, PaymentFailedView,
};
use crate::domain_common::is_version_7;
use crate::ids::fresh_id;
use crate::model::views;
use crate::orders::domain::{is_legal_transition, legal, OrderStatus};
use crate::orders::messages::{
    authorize_payment_event, build_authorize_payment_event, build_cancelled_event,
    build_completed_event, build_create_fulfilment_event, build_refund_payment_event,
    build_release_inventory_event, cancelled_event, completed_event, create_fulfilment_event,
    refund_payment_event, release_inventory_event,
};
use crate::orders::repository::{
    step, step_record, stepped, OrderRow, OrderView, TransitionRow, TransitionView,
};
use crate::persistence::outbox::{NewOutboxEvent, OutboxView};
use crate::time::Timestamp;

verus! {

/// An order with what its journey has gathered so far: the identifiers that
/// the other services gave, the compensations that are required and done, and
/// the number of commands sent to each of them.
#[derive(Debug)]
pub struct OrderSaga {
    pub order: OrderRow,
    pub reservation_id: Option<u128>,
    pub payment_id: Option<u128>,
    pub fulfilment_id: Option<u128>,
    pub release_required: bool,
    pub release_done: bool,
    pub refund_required: bool,
    pub refund_done: bool,
    pub inventory_commands: i64,
    pub payments_commands: i64,
    pub fulfilment_commands: i64,
}

impl Clone for OrderSaga {
    fn clone(&self) -> (r: OrderSaga)
        ensures
            r == *self,
    {
        OrderSaga {
            order: self.order.clone(),
            reservation_id: self.reservation_id,
            payment_id: self.payment_id,
            fulfilment_id: self.fulfilment_id,
            release_required: self.release_required,
            release_done: self.release_done,
            refund_required: self.refund_required,
            refund_done: self.refund_done,
            inventory_commands: self.inventory_commands,
            payments_commands: self.payments_commands,
            fulfilment_commands: self.fulfilment_commands,
        }
    }
}

/// What an [`OrderSaga`] says.
pub struct SagaView {
    pub order: OrderView,
    pub reservation_id: Option<u128>,
    pub payment_id: Option<u128>,
    pub fulfilment_id: Option<u128>,
    pub release_required: bool,
    pub release_done: bool,
    pub refund_required: bool,
    pub refund_done: bool,
    pub inventory_commands: i64,
    pub payments_commands: i64,
    pub fulfilment_commands: i64,
}

impl View for OrderSaga {
    type V = SagaView;

    open spec fn view(&self) -> SagaView {
        SagaView {
            order: self.order@,
            reservation_id: self.reservation_id,
            payment_id: self.payment_id,
            fulfilment_id: self.fulfilment_id,
            release_required: self.release_required,
            release_done: self.release_done,
            refund_required: self.refund_required,
            refund_done: self.refund_done,
            inventory_commands: self.inventory_commands,
            payments_commands: self.payments_commands,
            fulfilment_commands: self.fulfilment_commands,
        }
    }
}

impl OrderSaga {
    /// Whether the counters have room for one more reaction.
    pub fn has_room(&self) -> (r: bool)
        ensures
            r == self@.has_room(),
    {
        self.order.version < i64::MAX - 1 && self.inventory_commands < i64::MAX
            && self.payments_commands < i64::MAX && self.fulfilment_commands < i64::MAX
    }
}

impl SagaView {
    /// The counters have room for one more reaction.
    pub open spec fn has_room(self) -> bool {
        &&& self.order.version < i64::MAX - 1
        &&& self.inventory_commands < i64::MAX
        &&& self.payments_commands < i64::MAX
        &&& self.fulfilment_commands < i64::MAX
    }

    /// The order is one step further.
    pub open spec fn moved(self, to: OrderStatus, now: Timestamp) -> SagaView {
        SagaView { order: stepped(self.order, to, now), ..self }
    }
}

/// What a reaction writes: the order after it, the steps that it took, and
/// the messages that it sends.
#[derive(Debug)]
pub struct OrderWrites {
    pub saga: OrderSaga,
    pub transitions: Vec<TransitionRow>,
    pub outbox: Vec<NewOutboxEvent>,
}

/// What [`OrderWrites`] say.
pub struct WritesView {
    pub saga: SagaView,
    pub transitions: Seq<TransitionView>,
    pub outbox: Seq<OutboxView>,
}

impl View for OrderWrites {
    type V = WritesView;

    open spec fn view(&self) -> WritesView {
        WritesView {
            saga: self.saga@,
            transitions: views(self.transitions@),
            outbox: views(self.outbox@),
        }
    }
}

/// Identifiers for what a reaction creates.
#[derive(Debug, Clone, Copy, PartialEq, Eq, Structural)]
pub struct Fresh {
    pub first_transition: u128,
    pub second_transition: u128,
    pub first_event: u128,
    pub second_event: u128,
    pub payment: u128,
}

impl Fresh {
    /// The identifiers are fresh ones.
    pub open spec fn drawn(self) -> bool {
        &&& is_version_7(self.first_transition)
        &&& is_version_7(self.second_transition)
        &&& is_version_7(self.first_event)
        &&& is_version_7(self.second_event)
        &&& is_version_7(self.payment)
    }

    /// Draws fresh identifiers.
    pub fn draw() -> (r: Fresh)
        ensures
            r.drawn(),
    {
        Fresh {
            first_transition: fresh_id(),
            second_transition: fresh_id(),
            first_event: fresh_id(),
            second_event: fresh_id(),
            payment: fresh_id(),
        }
    }
}

/// What is written when the order may not take the step: the order as it
/// stands, with nothing sent.
pub open spec fn held(saga: SagaView) -> WritesView {
    WritesView { saga, transitions: Seq::empty(), outbox: Seq::empty() }
}

/// Stock is set aside: the order moves on and asks for the payment.
pub open spec fn on_reservation_succeeded(
    saga: SagaView,
    trigger: RawView,
    payload: ReservationSucceededView,
    fresh: Fresh,
    now: Timestamp,
) -> WritesView {
    let asked = SagaView { payments_commands: (saga.payments_commands + 1) as i64, ..saga };
    let to = OrderStatus::InventoryReserved;
    if legal(saga.order.status, to) {
        WritesView {
            saga: SagaView {
                reservation_id: Some(payload.reservation_id),
                ..asked.moved(to, now)
            },
            transitions: seq![
                step_record(
                    saga.order,
                    to,
                    Some("inventory reservation succeeded"@),
                    Some(trigger.event_id),
                    fresh.first_transition,
                    now,
                ),
            ],
            outbox: seq![
                authorize_payment_event(
                    trigger,
                    saga.order,
                    asked.payments_commands,
                    fresh.payment,
                    fresh.first_event,
                    now,
                ),
            ],
        }
    } else {
        held(saga)
    }
}

/// Stock cannot be set aside: nothing was reserved or paid, so the order is
/// cancelled at once.
pub open spec fn on_reservation_failed(
    saga: SagaView,
    trigger: RawView,
    payload: ReservationFailedView,
    fresh: Fresh,
    now: Timestamp,
) -> WritesView {
    let cancelling = saga.moved(OrderStatus::Cancelling, now);
    if legal(saga.order.status, OrderStatus::Cancelling) {
        WritesView {
            saga: cancelling.moved(OrderStatus::Cancelled, now),
            transitions: seq![
                step_record(
                    saga.order,
                    OrderStatus::Cancelling,
                    Some(payload.reason_code),
                    Some(trigger.event_id),
                    fresh.first_transition,
                    now,
                ),
                step_record(
                    cancelling.order,
                    OrderStatus::Cancelled,
                    Some("inventory reservation rejected; nothing to compensate"@),
                    Some(trigger.event_id),
                    fresh.second_transition,
                    now,
                ),
            ],
            outbox: Seq::empty(),
        }
    } else {
        held(saga)
    }
}

/// A compensation is confirmed: the order is cancelled, unless it still waits
/// for another.
pub open spec fn on_compensation_done(
    saga: SagaView,
    waiting: bool,
    trigger: RawView,
    fresh: Fresh,
    now: Timestamp,
) -> WritesView {
    let to = OrderStatus::Cancelled;
    if !waiting && legal(saga.order.status, to) {
        let cancelled = saga.moved(to, now);
        WritesView {
            saga: cancelled,
            transitions: seq![
                step_record(
                    saga.order,
                    to,
                    Some("required compensations confirmed"@),
                    Some(trigger.event_id),
                    fresh.first_transition,
                    now,
                ),
            ],
            outbox: seq![
                cancelled_event(
                    trigger,
                    saga.order.id,
                    cancelled.order.version,
                    "COMPENSATED"@,
                    fresh.first_event,
                    now,
                ),
            ],
        }
    } else {
        held(saga)
    }
}

/// Stock is given back.
pub open spec fn on_inventory_released(
    saga: SagaView,
    trigger: RawView,
    fresh: Fresh,
    now: Timestamp,
) -> WritesView {
    on_compensation_done(
        SagaView { release_done: true, ..saga },
        saga.refund_required && !saga.refund_done,
        trigger,
        fresh,
        now,
    )
}

/// The payment is refunded.
pub open spec fn on_payment_refunded(
    saga: SagaView,
    trigger: RawView,
    fresh: Fresh,
    now: Timestamp,
) -> WritesView {
    on_compensation_done(
        SagaView { refund_done: true, ..saga },
        saga.release_required && !saga.release_done,
        trigger,
        fresh,
        now,
    )
}

/// The payment is authorized: the order moves on twice and asks for the
/// fulfilment. There is no answer where the reservation is unknown.
pub open spec fn on_payment_authorized(
    saga: SagaView,
    trigger: RawView,
    payload: PaymentAuthorizedView,
    fresh: Fresh,
    now: Timestamp,
) -> Result<WritesView, HandleError> {
    let paid = SagaView { payment_id: Some(payload.payment_id), ..saga };
    let authorized = paid.moved(OrderStatus::PaymentAuthorized, now);
    if !legal(saga.order.status, OrderStatus::PaymentAuthorized) {
        Ok(held(paid))
    } else {
        match saga.reservation_id {
            None => Err(HandleError::MissingReservation),
            Some(reservation_id) => {
                let asked = SagaView {
                    fulfilment_commands: (saga.fulfilment_commands + 1) as i64,
                    ..authorized
                };
                Ok(
                    (WritesView {
                        saga: asked.moved(OrderStatus::ReadyForFulfilment, now),
                        transitions: seq![
                            step_record(
                                saga.order,
                                OrderStatus::PaymentAuthorized,
                                Some("payment authorized"@),
                                Some(trigger.event_id),
                                fresh.first_transition,
                                now,
                            ),
                            step_record(
                                authorized.order,
                                OrderStatus::ReadyForFulfilment,
                                Some("inventory and payment confirmed"@),
                                Some(trigger.event_id),
                                fresh.second_transition,
                                now,
                            ),
                        ],
                        outbox: seq![
                            create_fulfilment_event(
                                trigger,
                                saga.order.id,
                                reservation_id,
                                payload.payment_id,
                                asked.fulfilment_commands,
                                fresh.first_event,
                                now,
                            ),
                        ],
                    }),
                )
            },
        }
    }
}

/// The payment is refused: the order is being cancelled, and waits for the
/// stock that it asks to be released.
pub open spec fn on_payment_failed(
    saga: SagaView,
    reservation_id: u128,
    trigger: RawView,
    payload: PaymentFailedView,
    fresh: Fresh,
    now: Timestamp,
) -> WritesView {
    let asked = SagaView { inventory_commands: (saga.inventory_commands + 1) as i64, ..saga };
    let to = OrderStatus::Cancelling;
    if legal(saga.order.status, to) {
        WritesView {
            saga: SagaView { release_required: true, ..asked.moved(to, now) },
            transitions: seq![
                step_record(
                    saga.order,
                    to,
                    Some(payload.reason_code),
                    Some(trigger.event_id),
                    fresh.first_transition,
                    now,
                ),
            ],
            outbox: seq![
                release_inventory_event(
                    trigger,
                    saga.order.id,
                    reservation_id,
                    asked.inventory_commands,
                    payload.reason_code,
                    fresh.first_event,
                    now,
                ),
            ],
        }
    } else {
        held(saga)
    }
}

/// The order is fulfilled: it is complete.
pub open spec fn on_fulfilment_created(
    saga: SagaView,
    trigger: RawView,
    payload: FulfilmentCreatedPayload,
    fresh: Fresh,
    now: Timestamp,
) -> WritesView {
    let known = SagaView { fulfilment_id: Some(payload.fulfilment_id), ..saga };
    let to = OrderStatus::Completed;
    if legal(saga.order.status, to) {
        let completed = known.moved(to, now);
        WritesView {
            saga: completed,
            transitions: seq![
                step_record(
                    saga.order,
                    to,
                    Some("fulfilment created"@),
                    Some(trigger.event_id),
                    fresh.first_transition,
                    now,
                ),
            ],
            outbox: seq![
                completed_event(
                    trigger,
                    saga.order.id,
                    payload.fulfilment_id,
                    completed.order.version,
                    fresh.first_event,
                    now,
                ),
            ],
        }
    } else {
        held(known)
    }
}

/// The fulfilment failed: the order is being cancelled, and both the stock
/// and the payment have to be given back.
pub open spec fn on_fulfilment_failed(
    saga: SagaView,
    reservation_id: u128,
    payment_id: u128,
    trigger: RawView,
    payload: FulfilmentFailedView,
    fresh: Fresh,
    now: Timestamp,
) -> WritesView {
    let failed = SagaView { release_required: true, refund_required: true, ..saga };
    let asked = SagaView {
        inventory_commands: (saga.inventory_commands + 1) as i64,
        payments_commands: (saga.payments_commands + 1) as i64,
        ..failed
    };
    let to = OrderStatus::Cancelling;
    if legal(saga.order.status, to) {
        WritesView {
            saga: asked.moved(to, now),
            transitions: seq![
                step_record(
                    saga.order,
                    to,
                    Some(payload.reason_code),
                    Some(trigger.event_id),
                    fresh.first_transition,
                    now,
                ),
            ],
            outbox: seq![
                release_inventory_event(
                    trigger,
                    saga.order.id,
                    reservation_id,
                    asked.inventory_commands,
                    payload.reason_code,
                    fresh.first_event,
                    now,
                ),
                refund_payment_event(
                    trigger,
                    saga.order.id,
                    payment_id,
                    asked.payments_commands,
                    payload.reason_code,
                    fresh.second_event,
                    now,
                ),
            ],
        }
    } else {
        held(failed)
    }
}

/// A compensation was given up: the order waits for an operator.
pub open spec fn on_compensation_failed(
    saga: SagaView,
    reason: Seq<char>,
    trigger: RawView,
    fresh: Fresh,
    now: Timestamp,
) -> WritesView {
    let to = OrderStatus::ManualReview;
    if legal(saga.order.status, to) {
        WritesView {
            saga: saga.moved(to, now),
            transitions: seq![
                step_record(
                    saga.order,
                    to,
                    Some(reason),
                    Some(trigger.event_id),
                    fresh.first_transition,
                    now,
                ),
            ],
            outbox: Seq::empty(),
        }
    } else {
        held(saga)
    }
}

/// Why a record cannot be settled, so that the batch stops at it.
#[derive(Debug, Clone, Copy, PartialEq, Eq, Structural)]
pub enum HandleError {
    /// The order holds stock but does not say under which reservation.
    MissingReservation,
}

/// What is written for a step that may or may not be taken.
fn settle(saga: OrderSaga, transitions: Vec<TransitionRow>, outbox: Vec<NewOutboxEvent>) -> (r:
    OrderWrites)
    ensures
        r@ == (WritesView {
            saga: saga@,
            transitions: views(transitions@),
            outbox: views(outbox@),
        }),
{
    OrderWrites { saga, transitions, outbox }
}

/// Leaves the order where it stands.
fn hold(saga: OrderSaga) -> (r: OrderWrites)
    ensures
        r@ == held(saga@),
{
    let transitions: Vec<TransitionRow> = Vec::new();
    let outbox: Vec<NewOutboxEvent> = Vec::new();
    assert(views(transitions@) =~= Seq::<TransitionView>::empty());
    assert(views(outbox@) =~= Seq::<OutboxView>::empty());
    settle(saga, transitions, outbox)
}

/// Moves the order one step.
fn advance(
    saga: OrderSaga,
    to: OrderStatus,
    reason: &str,
    trigger: u128,
    id: u128,
    now: Timestamp,
) -> (r: (OrderSaga, TransitionRow))
    requires
        saga.order.version < i64::MAX,
    ensures
        r.0@ == saga@.moved(to, now),
        r.1@ == step_record(saga@.order, to, Some(reason@), Some(trigger), id, now),
{
    let (order, record) = step(saga.order, to, Some(reason.to_owned()), Some(trigger), id, now);
    (
        OrderSaga {
            order,
            reservation_id: saga.reservation_id,
            payment_id: saga.payment_id,
            fulfilment_id: saga.fulfilment_id,
            release_required: saga.release_required,
            release_done: saga.release_done,
            refund_required: saga.refund_required,
            refund_done: saga.refund_done,
            inventory_commands: saga.inventory_commands,
            payments_commands: saga.payments_commands,
            fulfilment_commands: saga.fulfilment_commands,
        },
        record,
    )
}

/// One step and one message.
fn with_message(saga: OrderSaga, record: TransitionRow, message: NewOutboxEvent) -> (r: OrderWrites)
    ensures
        r@ == (WritesView { saga: saga@, transitions: seq![record@], outbox: seq![message@] }),
{
    let ghost steps = seq![record@];
    let ghost messages = seq![message@];
    let mut transitions: Vec<TransitionRow> = Vec::new();
    transitions.push(record);
    let mut outbox: Vec<NewOutboxEvent> = Vec::new();
    outbox.push(message);
    assert(views(transitions@) =~= steps);
    assert(views(outbox@) =~= messages);
    settle(saga, transitions, outbox)
}

/// Moves on and asks for the payment.
pub fn react_to_reservation_succeeded(
    saga: OrderSaga,
    trigger: &RawEnvelope,
    payload: &ReservationSucceededPayload,
    fresh: &Fresh,
    now: Timestamp,
) -> (r: OrderWrites)
    requires
        saga@.has_room(),
    ensures
        r@ == on_reservation_succeeded(saga@, trigger@, payload@, *fresh, now),
{
    let mut saga = saga;
    if !is_legal_transition(saga.order.status, OrderStatus::InventoryReserved) {
        return hold(saga);
    }
    saga.payments_commands = saga.payments_commands + 1;
    let message: NewOutboxEvent = build_authorize_payment_event(
        trigger,
        &saga.order,
        saga.payments_commands,
        fresh.payment,
        fresh.first_event,
        now,
    );
    let (mut saga, record) = advance(
        saga,
        OrderStatus::InventoryReserved,
        "inventory reservation succeeded",
        trigger.event_id,
        fresh.first_transition,
        now,
    );
    saga.reservation_id = Some(payload.reservation_id);
    with_message(saga, record, message)
}

/// Cancels at once.
pub fn react_to_reservation_failed(
    saga: OrderSaga,
    trigger: &RawEnvelope,
    payload: &ReservationFailedPayload,
    fresh: &Fresh,
    now: Timestamp,
) -> (r: OrderWrites)
    requires
        saga@.has_room(),
    ensures
        r@ == on_reservation_failed(saga@, trigger@, payload@, *fresh, now),
{
    if !is_legal_transition(saga.order.status, OrderStatus::Cancelling) {
        return hold(saga);
    }
    let (saga, first) = advance(
        saga,
        OrderStatus::Cancelling,
        payload.reason_code.as_str(),
        trigger.event_id,
        fresh.first_transition,
        now,
    );
    let (saga, second) = advance(
        saga,
        OrderStatus::Cancelled,
        "inventory reservation rejected; nothing to compensate",
        trigger.event_id,
        fresh.second_transition,
        now,
    );
    let ghost steps = seq![first@, second@];
    let mut transitions: Vec<TransitionRow> = Vec::new();
    transitions.push(first);
    transitions.push(second);
    let outbox: Vec<NewOutboxEvent> = Vec::new();
    assert(views(transitions@) =~= steps);
    assert(views(outbox@) =~= Seq::<OutboxView>::empty());
    settle(saga, transitions, outbox)
}

/// Cancels, unless another compensation is awaited.
pub fn react_to_compensation_done(
    saga: OrderSaga,
    waiting: bool,
    trigger: &RawEnvelope,
    fresh: &Fresh,
    now: Timestamp,
) -> (r: OrderWrites)
    requires
        saga@.has_room(),
    ensures
        r@ == on_compensation_done(saga@, waiting, trigger@, *fresh, now),
{
    if waiting || !is_legal_transition(saga.order.status, OrderStatus::Cancelled) {
        return hold(saga);
    }
    let (saga, record) = advance(
        saga,
        OrderStatus::Cancelled,
        "required compensations confirmed",
        trigger.event_id,
        fresh.first_transition,
        now,
    );
    let message: NewOutboxEvent = build_cancelled_event(
        trigger,
        saga.order.id,
        saga.order.version,
        "COMPENSATED",
        fresh.first_event,
        now,
    );
    with_message(saga, record, message)
}

/// Takes note that the stock is given back.
pub fn react_to_inventory_released(
    saga: OrderSaga,
    trigger: &RawEnvelope,
    fresh: &Fresh,
    now: Timestamp,
) -> (r: OrderWrites)
    requires
        saga@.has_room(),
    ensures
        r@ == on_inventory_released(saga@, trigger@, *fresh, now),
{
    let mut saga = saga;
    saga.release_done = true;
    let waiting: bool = saga.refund_required && !saga.refund_done;
    react_to_compensation_done(saga, waiting, trigger, fresh, now)
}

/// Takes note that the payment is refunded.
pub fn react_to_payment_refunded(
    saga: OrderSaga,
    trigger: &RawEnvelope,
    fresh: &Fresh,
    now: Timestamp,
) -> (r: OrderWrites)
    requires
        saga@.has_room(),
    ensures
        r@ == on_payment_refunded(saga@, trigger@, *fresh, now),
{
    let mut saga = saga;
    saga.refund_done = true;
    let waiting: bool = saga.release_required && !saga.release_done;
    react_to_compensation_done(saga, waiting, trigger, fresh, now)
}

/// Moves on twice and asks for the fulfilment.
pub fn react_to_payment_authorized(
    saga: OrderSaga,
    trigger: &RawEnvelope,
    payload: &PaymentAuthorizedPayload,
    fresh: &Fresh,
    now: Timestamp,
) -> (r: Result<OrderWrites, HandleError>)
    requires
        saga@.has_room(),
    ensures
        match (r, on_payment_authorized(saga@, trigger@, payload@, *fresh, now)) {
            (Ok(writes), Ok(owed)) => writes@ == owed,
            (Err(e), Err(error)) => e == error,
            _ => false,
        },
{
    let mut saga = saga;
    saga.payment_id = Some(payload.payment_id);
    if !is_legal_transition(saga.order.status, OrderStatus::PaymentAuthorized) {
        return Ok(hold(saga));
    }
    let reservation_id: u128 = match saga.reservation_id {
        Some(reservation_id) => reservation_id,
        None => {
            return Err(HandleError::MissingReservation);
        },
    };
    let (mut saga, first) = advance(
        saga,
        OrderStatus::PaymentAuthorized,
        "payment authorized",
        trigger.event_id,
        fresh.first_transition,
        now,
    );
    saga.fulfilment_commands = saga.fulfilment_commands + 1;
    let message: NewOutboxEvent = build_create_fulfilment_event(
        trigger,
        saga.order.id,
        reservation_id,
        payload.payment_id,
        saga.fulfilment_commands,
        fresh.first_event,
        now,
    );
    let (saga, second) = advance(
        saga,
        OrderStatus::ReadyForFulfilment,
        "inventory and payment confirmed",
        trigger.event_id,
        fresh.second_transition,
        now,
    );
    let ghost steps = seq![first@, second@];
    let ghost messages = seq![message@];
    let mut transitions: Vec<TransitionRow> = Vec::new();
    transitions.push(first);
    transitions.push(second);
    let mut outbox: Vec<NewOutboxEvent> = Vec::new();
    outbox.push(message);
    assert(views(transitions@) =~= steps);
    assert(views(outbox@) =~= messages);
    Ok(settle(saga, transitions, outbox))
}

/// Begins to cancel, and asks for the stock back and waits for it.
pub fn react_to_payment_failed(
    saga: OrderSaga,
    reservation_id: u128,
    trigger: &RawEnvelope,
    payload: &PaymentFailedPayload,
    fresh: &Fresh,
    now: Timestamp,
) -> (r: OrderWrites)
    requires
        saga@.has_room(),
    ensures
        r@ == on_payment_failed(saga@, reservation_id, trigger@, payload@, *fresh, now),
{
    let mut saga = saga;
    if !is_legal_transition(saga.order.status, OrderStatus::Cancelling) {
        return hold(saga);
    }
    saga.release_required = true;
    saga.inventory_commands = saga.inventory_commands + 1;
    let message: NewOutboxEvent = build_release_inventory_event(
        trigger,
        saga.order.id,
        reservation_id,
        saga.inventory_commands,
        payload.reason_code.as_str(),
        fresh.first_event,
        now,
    );
    let (saga, record) = advance(
        saga,
        OrderStatus::Cancelling,
        payload.reason_code.as_str(),
        trigger.event_id,
        fresh.first_transition,
        now,
    );
    with_message(saga, record, message)
}

/// Completes the order.
pub fn react_to_fulfilment_created(
    saga: OrderSaga,
    trigger: &RawEnvelope,
    payload: &FulfilmentCreatedPayload,
    fresh: &Fresh,
    now: Timestamp,
) -> (r: OrderWrites)
    requires
        saga@.has_room(),
    ensures
        r@ == on_fulfilment_created(saga@, trigger@, *payload, *fresh, now),
{
    let mut saga = saga;
    saga.fulfilment_id = Some(payload.fulfilment_id);
    if !is_legal_transition(saga.order.status, OrderStatus::Completed) {
        return hold(saga);
    }
    let (saga, record) = advance(
        saga,
        OrderStatus::Completed,
        "fulfilment created",
        trigger.event_id,
        fresh.first_transition,
        now,
    );
    let message: NewOutboxEvent = build_completed_event(
        trigger,
        saga.order.id,
        payload.fulfilment_id,
        saga.order.version,
        fresh.first_event,
        now,
    );
    with_message(saga, record, message)
}

/// Begins to cancel and asks for the stock and the payment back.
pub fn react_to_fulfilment_failed(
    saga: OrderSaga,
    reservation_id: u128,
    payment_id: u128,
    trigger: &RawEnvelope,
    payload: &FulfilmentFailedPayload,
    fresh: &Fresh,
    now: Timestamp,
) -> (r: OrderWrites)
    requires
        saga@.has_room(),
    ensures
        r@ == on_fulfilment_failed(
            saga@,
            reservation_id,
            payment_id,
            trigger@,
            payload@,
            *fresh,
            now,
        ),
{
    let mut saga = saga;
    saga.release_required = true;
    saga.refund_required = true;
    if !is_legal_transition(saga.order.status, OrderStatus::Cancelling) {
        return hold(saga);
    }
    saga.inventory_commands = saga.inventory_commands + 1;
    saga.payments_commands = saga.payments_commands + 1;
    let release: NewOutboxEvent = build_release_inventory_event(
        trigger,
        saga.order.id,
        reservation_id,
        saga.inventory_commands,
        payload.reason_code.as_str(),
        fresh.first_event,
        now,
    );
    let refund: NewOutboxEvent = build_refund_payment_event(
        trigger,
        saga.order.id,
        payment_id,
        saga.payments_commands,
        payload.reason_code.as_str(),
        fresh.second_event,
        now,
    );
    let (saga, record) = advance(
        saga,
        OrderStatus::Cancelling,
        payload.reason_code.as_str(),
        trigger.event_id,
        fresh.first_transition,
        now,
    );
    let ghost steps = seq![record@];
    let ghost messages = seq![release@, refund@];
    let mut transitions: Vec<TransitionRow> = Vec::new();
    transitions.push(record);
    let mut outbox: Vec<NewOutboxEvent> = Vec::new();
    outbox.push(release);
    outbox.push(refund);
    assert(views(transitions@) =~= steps);
    assert(views(outbox@) =~= messages);
    settle(saga, transitions, outbox)
}

/// Hands the order to an operator.
pub fn react_to_compensation_failed(
    saga: OrderSaga,
    reason: &str,
    trigger: &RawEnvelope,
    fresh: &Fresh,
    now: Timestamp,
) -> (r: OrderWrites)
    requires
        saga@.has_room(),
    ensures
        r@ == on_compensation_failed(saga@, reason@, trigger@, *fresh, now),
{
    if !is_legal_transition(saga.order.status, OrderStatus::ManualReview) {
        return hold(saga);
    }
    let (saga, record) = advance(
        saga,
        OrderStatus::ManualReview,
        reason,
        trigger.event_id,
        fresh.first_transition,
        now,
    );
    let ghost steps = seq![record@];
    let mut transitions: Vec<TransitionRow> = Vec::new();
    transitions.push(record);
    let outbox: Vec<NewOutboxEvent> = Vec::new();
    assert(views(transitions@) =~= steps);
    assert(views(outbox@) =~= Seq::<OutboxView>::empty());
    settle(saga, transitions, outbox)
}

}
