//! How the orders service handles the outcomes that the other services
//! report.

use vstd::prelude::*;
use vstd::string::*;

use crate::consuming::{
    both, copy_envelope, result_view, Delivery, DeliveryView, Effect, EffectView, Handled,
    HandledView, RawEnvelope, RawView,
};
use crate::contracts::fulfilment::{
    FulfilmentCreatedPayload, FulfilmentFailedPayload, FulfilmentFailedView,
    FULFILMENT_CREATED_EVENT_TYPE, FULFILMENT_CREATED_SCHEMA_VERSION, FULFILMENT_FAILED_EVENT_TYPE,
    FULFILMENT_FAILED_SCHEMA_VERSION,
};
use crate::contracts::inventory::{
    InventoryReleasedPayload, ReleaseFailedPayload, ReleaseFailedView, ReservationFailedPayload,
    ReservationFailedView, ReservationSucceededPayload, ReservationSucceededView,
    INVENTORY_RELEASED_EVENT_TYPE, INVENTORY_RELEASED_SCHEMA_VERSION, RELEASE_FAILED_EVENT_TYPE,
    RELEASE_FAILED_SCHEMA_VERSION, RESERVATION_FAILED_EVENT_TYPE,
    RESERVATION_FAILED_SCHEMA_VERSION, RESERVATION_SUCCEEDED_EVENT_TYPE,
    RESERVATION_SUCCEEDED_SCHEMA_VERSION,
};
use crate::contracts::payments::{
    PaymentAuthorizedPayload, PaymentAuthorizedView, PaymentFailedPayload, PaymentFailedView,
    PaymentRefundedPayload, RefundFailedPayload, RefundFailedView,
    PAYMENT_AUTHORIZED_EVENT_TYPE, PAYMENT_AUTHORIZED_SCHEMA_VERSION, PAYMENT_FAILED_EVENT_TYPE,
    PAYMENT_FAILED_SCHEMA_VERSION, PAYMENT_REFUNDED_EVENT_TYPE, PAYMENT_REFUNDED_SCHEMA_VERSION,
    REFUND_FAILED_EVENT_TYPE, REFUND_FAILED_SCHEMA_VERSION,
};
use crate::contracts::{Envelope, EnvelopeView};
use crate::ids::id_text;
use crate::messaging::ConsumedRecord;
use crate::model::{opt_view, views};
use crate::orders::saga::{
    on_compensation_failed, on_fulfilment_created, on_fulfilment_failed, on_inventory_released,
    on_payment_authorized, on_payment_failed, on_payment_refunded, on_reservation_failed,
    on_reservation_succeeded, react_to_compensation_failed, react_to_fulfilment_created,
    react_to_fulfilment_failed, react_to_inventory_released, react_to_payment_authorized,
    react_to_payment_failed, react_to_payment_refunded, react_to_reservation_failed,
    react_to_reservation_succeeded, Fresh, HandleError, OrderSaga, OrderWrites, SagaView,
    WritesView,
};
use crate::persistence::inbox::{InboxFacts, InboxFactsView};
use crate::text::{text_eq, uuid_text};
use crate::time::{first_instant, last_instant, utc_now, Timestamp};

pub use crate::consuming::{HandleOutcome, ProcessSummary, SOURCE_PARTITION};

verus! {

pub const CONSUMER_NAME: &'static str = "orders-reservation-outcome-consumer";

pub const FAULT_AFTER_DB_COMMIT_BEFORE_OFFSET_COMMIT: &'static str =
    "orders.outcome_consumer.after_db_commit_before_offset_commit";

/// The kinds of outcome that an order reacts to.
#[derive(Debug, Clone, Copy, PartialEq, Eq, Structural)]
pub enum OutcomeKind {
    ReservationSucceeded,
    ReservationFailed,
    InventoryReleased,
    ReleaseFailed,
    PaymentAuthorized,
    PaymentFailed,
    PaymentRefunded,
    RefundFailed,
    FulfilmentCreated,
    FulfilmentFailed,
}

/// The kind of outcome that an event type names.
pub open spec fn kind_named(event_type: Seq<char>) -> Option<OutcomeKind> {
    if event_type == RESERVATION_SUCCEEDED_EVENT_TYPE@ {
        Some(OutcomeKind::ReservationSucceeded)
    } else if event_type == RESERVATION_FAILED_EVENT_TYPE@ {
        Some(OutcomeKind::ReservationFailed)
    } else if event_type == INVENTORY_RELEASED_EVENT_TYPE@ {
        Some(OutcomeKind::InventoryReleased)
    } else if event_type == RELEASE_FAILED_EVENT_TYPE@ {
        Some(OutcomeKind::ReleaseFailed)
    } else if event_type == PAYMENT_AUTHORIZED_EVENT_TYPE@ {
        Some(OutcomeKind::PaymentAuthorized)
    } else if event_type == PAYMENT_FAILED_EVENT_TYPE@ {
        Some(OutcomeKind::PaymentFailed)
    } else if event_type == PAYMENT_REFUNDED_EVENT_TYPE@ {
        Some(OutcomeKind::PaymentRefunded)
    } else if event_type == REFUND_FAILED_EVENT_TYPE@ {
        Some(OutcomeKind::RefundFailed)
    } else if event_type == FULFILMENT_CREATED_EVENT_TYPE@ {
        Some(OutcomeKind::FulfilmentCreated)
    } else if event_type == FULFILMENT_FAILED_EVENT_TYPE@ {
        Some(OutcomeKind::FulfilmentFailed)
    } else {
        None
    }
}

/// The kind of outcome that an event type names.
pub fn outcome_kind(event_type: &str) -> (r: Option<OutcomeKind>)
    ensures
        r == kind_named(event_type@),
{
    if text_eq(event_type, RESERVATION_SUCCEEDED_EVENT_TYPE) {
        Some(OutcomeKind::ReservationSucceeded)
    } else if text_eq(event_type, RESERVATION_FAILED_EVENT_TYPE) {
        Some(OutcomeKind::ReservationFailed)
    } else if text_eq(event_type, INVENTORY_RELEASED_EVENT_TYPE) {
        Some(OutcomeKind::InventoryReleased)
    } else if text_eq(event_type, RELEASE_FAILED_EVENT_TYPE) {
        Some(OutcomeKind::ReleaseFailed)
    } else if text_eq(event_type, PAYMENT_AUTHORIZED_EVENT_TYPE) {
        Some(OutcomeKind::PaymentAuthorized)
    } else if text_eq(event_type, PAYMENT_FAILED_EVENT_TYPE) {
        Some(OutcomeKind::PaymentFailed)
    } else if text_eq(event_type, PAYMENT_REFUNDED_EVENT_TYPE) {
        Some(OutcomeKind::PaymentRefunded)
    } else if text_eq(event_type, REFUND_FAILED_EVENT_TYPE) {
        Some(OutcomeKind::RefundFailed)
    } else if text_eq(event_type, FULFILMENT_CREATED_EVENT_TYPE) {
        Some(OutcomeKind::FulfilmentCreated)
    } else if text_eq(event_type, FULFILMENT_FAILED_EVENT_TYPE) {
        Some(OutcomeKind::FulfilmentFailed)
    } else {
        None
    }
}

impl OutcomeKind {
    /// The version in which this kind is understood.
    pub open spec fn schema(self) -> u32 {
        match self {
            OutcomeKind::ReservationSucceeded => RESERVATION_SUCCEEDED_SCHEMA_VERSION,
            OutcomeKind::ReservationFailed => RESERVATION_FAILED_SCHEMA_VERSION,
            OutcomeKind::InventoryReleased => INVENTORY_RELEASED_SCHEMA_VERSION,
            OutcomeKind::ReleaseFailed => RELEASE_FAILED_SCHEMA_VERSION,
            OutcomeKind::PaymentAuthorized => PAYMENT_AUTHORIZED_SCHEMA_VERSION,
            OutcomeKind::PaymentFailed => PAYMENT_FAILED_SCHEMA_VERSION,
            OutcomeKind::PaymentRefunded => PAYMENT_REFUNDED_SCHEMA_VERSION,
            OutcomeKind::RefundFailed => REFUND_FAILED_SCHEMA_VERSION,
            OutcomeKind::FulfilmentCreated => FULFILMENT_CREATED_SCHEMA_VERSION,
            OutcomeKind::FulfilmentFailed => FULFILMENT_FAILED_SCHEMA_VERSION,
        }
    }

    /// The version in which this kind is understood.
    pub fn schema_version(self) -> (r: u32)
        ensures
            r == self.schema(),
    {
        match self {
            OutcomeKind::ReservationSucceeded => RESERVATION_SUCCEEDED_SCHEMA_VERSION,
            OutcomeKind::ReservationFailed => RESERVATION_FAILED_SCHEMA_VERSION,
            OutcomeKind::InventoryReleased => INVENTORY_RELEASED_SCHEMA_VERSION,
            OutcomeKind::ReleaseFailed => RELEASE_FAILED_SCHEMA_VERSION,
            OutcomeKind::PaymentAuthorized => PAYMENT_AUTHORIZED_SCHEMA_VERSION,
            OutcomeKind::PaymentFailed => PAYMENT_FAILED_SCHEMA_VERSION,
            OutcomeKind::PaymentRefunded => PAYMENT_REFUNDED_SCHEMA_VERSION,
            OutcomeKind::RefundFailed => REFUND_FAILED_SCHEMA_VERSION,
            OutcomeKind::FulfilmentCreated => FULFILMENT_CREATED_SCHEMA_VERSION,
            OutcomeKind::FulfilmentFailed => FULFILMENT_FAILED_SCHEMA_VERSION,
        }
    }

    /// The name of the payload's shape.
    pub open spec fn shape(self) -> Seq<char> {
        match self {
            OutcomeKind::ReservationSucceeded => "reservation_succeeded"@,
            OutcomeKind::ReservationFailed => "reservation_failed"@,
            OutcomeKind::InventoryReleased => "inventory_released"@,
            OutcomeKind::ReleaseFailed => "release_failed"@,
            OutcomeKind::PaymentAuthorized => "payment_authorized"@,
            OutcomeKind::PaymentFailed => "payment_failed"@,
            OutcomeKind::PaymentRefunded => "payment_refunded"@,
            OutcomeKind::RefundFailed => "refund_failed"@,
            OutcomeKind::FulfilmentCreated => "fulfilment_created"@,
            OutcomeKind::FulfilmentFailed => "fulfilment_failed"@,
        }
    }

    /// The name of the payload's shape.
    pub fn shape_name(self) -> (r: &'static str)
        ensures
            r@ == self.shape(),
    {
        match self {
            OutcomeKind::ReservationSucceeded => "reservation_succeeded",
            OutcomeKind::ReservationFailed => "reservation_failed",
            OutcomeKind::InventoryReleased => "inventory_released",
            OutcomeKind::ReleaseFailed => "release_failed",
            OutcomeKind::PaymentAuthorized => "payment_authorized",
            OutcomeKind::PaymentFailed => "payment_failed",
            OutcomeKind::PaymentRefunded => "payment_refunded",
            OutcomeKind::RefundFailed => "refund_failed",
            OutcomeKind::FulfilmentCreated => "fulfilment_created",
            OutcomeKind::FulfilmentFailed => "fulfilment_failed",
        }
    }
}

/// What an outcome says, by its kind.
#[derive(Debug)]
pub enum Outcome {
    ReservationSucceeded(ReservationSucceededPayload),
    ReservationFailed(ReservationFailedPayload),
    InventoryReleased(InventoryReleasedPayload),
    ReleaseFailed(ReleaseFailedPayload),
    PaymentAuthorized(PaymentAuthorizedPayload),
    PaymentFailed(PaymentFailedPayload),
    PaymentRefunded(PaymentRefundedPayload),
    RefundFailed(RefundFailedPayload),
    FulfilmentCreated(FulfilmentCreatedPayload),
    FulfilmentFailed(FulfilmentFailedPayload),
}

/// What an [`Outcome`] says.
pub enum OutcomeView {
    ReservationSucceeded(ReservationSucceededView),
    ReservationFailed(ReservationFailedView),
    InventoryReleased(InventoryReleasedPayload),
    ReleaseFailed(ReleaseFailedView),
    PaymentAuthorized(PaymentAuthorizedView),
    PaymentFailed(PaymentFailedView),
    PaymentRefunded(PaymentRefundedPayload),
    RefundFailed(RefundFailedView),
    FulfilmentCreated(FulfilmentCreatedPayload),
    FulfilmentFailed(FulfilmentFailedView),
}

impl View for Outcome {
    type V = OutcomeView;

    open spec fn view(&self) -> OutcomeView {
        match *self {
            Outcome::ReservationSucceeded(p) => OutcomeView::ReservationSucceeded(p@),
            Outcome::ReservationFailed(p) => OutcomeView::ReservationFailed(p@),
            Outcome::InventoryReleased(p) => OutcomeView::InventoryReleased(p),
            Outcome::ReleaseFailed(p) => OutcomeView::ReleaseFailed(p@),
            Outcome::PaymentAuthorized(p) => OutcomeView::PaymentAuthorized(p@),
            Outcome::PaymentFailed(p) => OutcomeView::PaymentFailed(p@),
            Outcome::PaymentRefunded(p) => OutcomeView::PaymentRefunded(p),
            Outcome::RefundFailed(p) => OutcomeView::RefundFailed(p@),
            Outcome::FulfilmentCreated(p) => OutcomeView::FulfilmentCreated(p),
            Outcome::FulfilmentFailed(p) => OutcomeView::FulfilmentFailed(p@),
        }
    }
}

/// The kind of an outcome.
pub open spec fn kind_of(outcome: OutcomeView) -> OutcomeKind {
    match outcome {
        OutcomeView::ReservationSucceeded(_) => OutcomeKind::ReservationSucceeded,
        OutcomeView::ReservationFailed(_) => OutcomeKind::ReservationFailed,
        OutcomeView::InventoryReleased(_) => OutcomeKind::InventoryReleased,
        OutcomeView::ReleaseFailed(_) => OutcomeKind::ReleaseFailed,
        OutcomeView::PaymentAuthorized(_) => OutcomeKind::PaymentAuthorized,
        OutcomeView::PaymentFailed(_) => OutcomeKind::PaymentFailed,
        OutcomeView::PaymentRefunded(_) => OutcomeKind::PaymentRefunded,
        OutcomeView::RefundFailed(_) => OutcomeKind::RefundFailed,
        OutcomeView::FulfilmentCreated(_) => OutcomeKind::FulfilmentCreated,
        OutcomeView::FulfilmentFailed(_) => OutcomeKind::FulfilmentFailed,
    }
}

/// The dead letter's detail for an order that is not there.
pub open spec fn no_order_detail(envelope: RawView) -> Seq<char> {
    envelope.event_type + " (aggregate "@ + uuid_text(envelope.aggregate_id)
        + ") referenced an order this consumer has no row for"@
}

/// How an order, or its absence, answers an outcome.
pub open spec fn reaction(
    delivery: DeliveryView,
    envelope: RawView,
    payload: OutcomeView,
    saga: Option<SagaView>,
    fresh: Fresh,
) -> Result<HandledView<WritesView>, HandleError> {
    let now = delivery.now;
    match payload {
        OutcomeView::ReservationSucceeded(p) => Ok(
            match saga {
                Some(s) => delivery.applied(
                    envelope,
                    on_reservation_succeeded(s, envelope, p, fresh, now),
                ),
                None => delivery.rejected(
                    envelope,
                    "UNKNOWN_ORDER"@,
                    "reservation_succeeded for unknown order "@ + uuid_text(p.order_id),
                ),
            },
        ),
        OutcomeView::ReservationFailed(p) => Ok(
            match saga {
                Some(s) => delivery.applied(
                    envelope,
                    on_reservation_failed(s, envelope, p, fresh, now),
                ),
                None => delivery.rejected(envelope, "UNKNOWN_ORDER"@, no_order_detail(envelope)),
            },
        ),
        OutcomeView::InventoryReleased(p) => Ok(
            match saga {
                Some(s) => delivery.applied(envelope, on_inventory_released(s, envelope, fresh, now)),
                None => delivery.rejected(envelope, "UNKNOWN_ORDER"@, no_order_detail(envelope)),
            },
        ),
        OutcomeView::PaymentAuthorized(p) => match saga {
            Some(s) => match on_payment_authorized(s, envelope, p, fresh, now) {
                Ok(writes) => Ok(delivery.applied(envelope, writes)),
                Err(e) => Err(e),
            },
            None => Ok(
                delivery.rejected(
                    envelope,
                    "UNKNOWN_ORDER"@,
                    "payment_authorized for unknown order "@ + uuid_text(p.order_id),
                ),
            ),
        },
        OutcomeView::PaymentFailed(p) => Ok(
            match saga {
                Some(SagaView { reservation_id: Some(reservation_id), .. }) => delivery.applied(
                    envelope,
                    on_payment_failed(saga->0, reservation_id, envelope, p, fresh, now),
                ),
                _ => delivery.rejected(
                    envelope,
                    "MISSING_RESERVATION_ID"@,
                    "payment_failed for order "@ + uuid_text(p.order_id)
                        + " with no recorded reservation_id"@,
                ),
            },
        ),
        OutcomeView::FulfilmentCreated(p) => Ok(
            match saga {
                Some(s) => delivery.applied(
                    envelope,
                    on_fulfilment_created(s, envelope, p, fresh, now),
                ),
                None => delivery.rejected(envelope, "UNKNOWN_ORDER"@, no_order_detail(envelope)),
            },
        ),
        OutcomeView::FulfilmentFailed(p) => Ok(
            match saga {
                Some(
                    SagaView { reservation_id: Some(reservation_id), payment_id: Some(payment_id), .. },
                ) => delivery.applied(
                    envelope,
                    on_fulfilment_failed(
                        saga->0,
                        reservation_id,
                        payment_id,
                        envelope,
                        p,
                        fresh,
                        now,
                    ),
                ),
                _ => delivery.rejected(
                    envelope,
                    "UNKNOWN_ORDER"@,
                    "fulfilment_failed for unknown or incomplete order "@ + uuid_text(p.order_id),
                ),
            },
        ),
        OutcomeView::PaymentRefunded(p) => Ok(
            match saga {
                Some(s) => delivery.applied(envelope, on_payment_refunded(s, envelope, fresh, now)),
                None => delivery.rejected(envelope, "UNKNOWN_ORDER"@, no_order_detail(envelope)),
            },
        ),
        OutcomeView::ReleaseFailed(p) => Ok(
            exhausted(delivery, envelope, p.reason_code, saga, fresh),
        ),
        OutcomeView::RefundFailed(p) => Ok(
            exhausted(delivery, envelope, p.reason_code, saga, fresh),
        ),
    }
}

/// A compensation was given up: an operator is told first, then the order
/// moves to review.
pub open spec fn exhausted(
    delivery: DeliveryView,
    envelope: RawView,
    reason: Seq<char>,
    saga: Option<SagaView>,
    fresh: Fresh,
) -> HandledView<WritesView> {
    let signal = delivery.letter(Some(envelope), "COMPENSATION_EXHAUSTED"@, reason);
    match saga {
        Some(s) => HandledView {
            outcome: HandleOutcome::Applied,
            effects: seq![
                signal,
                delivery.commit(
                    envelope,
                    on_compensation_failed(s, reason, envelope, fresh, delivery.now),
                ),
            ],
        },
        None => HandledView {
            outcome: HandleOutcome::Poison,
            effects: seq![
                signal,
                EffectView::Rollback,
                delivery.letter(Some(envelope), "UNKNOWN_ORDER"@, no_order_detail(envelope)),
            ],
        },
    }
}

/// The version in which the record is understood, where its event type names
/// an outcome.
pub open spec fn expected_schema(header: Result<EnvelopeView<()>, Seq<char>>) -> Option<u32> {
    match header {
        Ok(h) => match kind_named(h.event_type) {
            Some(kind) => Some(kind.schema()),
            None => None,
        },
        Err(_) => None,
    }
}

/// The version in which the outcome that a header names is understood.
pub fn expected_version(header: &Result<Envelope<()>, String>) -> (r: Option<u32>)
    ensures
        r == expected_schema(result_view(*header)),
{
    match header {
        Ok(h) => match outcome_kind(h.event_type.as_str()) {
            Some(kind) => Some(kind.schema_version()),
            None => None,
        },
        Err(_) => None,
    }
}

/// How the orders service handles one record, given what its tables say.
pub open spec fn handling(
    delivery: DeliveryView,
    header: Result<EnvelopeView<()>, Seq<char>>,
    payload: Result<OutcomeView, Seq<char>>,
    facts: InboxFactsView,
    saga: Option<SagaView>,
    fresh: Fresh,
) -> Result<HandledView<WritesView>, HandleError> {
    match delivery.screened::<WritesView>(header, expected_schema(header), false, facts) {
        Err(verdict) => Ok(verdict),
        Ok(envelope) => match payload {
            Err(error) => Ok(
                delivery.rejected(
                    envelope,
                    "MALFORMED_PAYLOAD"@,
                    "payload did not match "@ + kind_named(envelope.event_type)->0.shape()
                        + " shape: "@ + error,
                ),
            ),
            Ok(p) => reaction(delivery, envelope, p, saga, fresh),
        },
    }
}

/// The payload, where it was read, has the shape that the event type names.
pub open spec fn payload_fits(
    header: Result<EnvelopeView<()>, Seq<char>>,
    payload: Result<OutcomeView, Seq<char>>,
) -> bool {
    header matches Ok(h) ==> kind_named(h.event_type) is Some ==> (payload matches Ok(p)
        ==> kind_named(h.event_type) == Some(kind_of(p)))
}

/// The view of the result of reading a payload.
pub open spec fn payload_view(payload: Result<Outcome, String>) -> Result<
    OutcomeView,
    Seq<char>,
> {
    match payload {
        Ok(p) => Ok(p@),
        Err(error) => Err(error@),
    }
}

fn write_no_order_detail(envelope: &RawEnvelope) -> (r: String)
    ensures
        r@ == no_order_detail(envelope@),
{
    let mut detail: String = envelope.event_type.clone();
    detail.append(" (aggregate ");
    detail.append(id_text(envelope.aggregate_id).as_str());
    detail.append(") referenced an order this consumer has no row for");
    detail
}

/// The detail of a refusal that ends in an order's identifier.
fn naming(prefix: &str, order_id: u128) -> (r: String)
    ensures
        r@ == prefix@ + uuid_text(order_id),
{
    let mut detail: String = prefix.to_owned();
    detail.append(id_text(order_id).as_str());
    detail
}

fn signal_exhausted(
    delivery: &Delivery<'_>,
    envelope: RawEnvelope,
    reason: &str,
    saga: Option<OrderSaga>,
    fresh: &Fresh,
) -> (r: Handled<OrderWrites>)
    requires
        saga matches Some(s) ==> s@.has_room(),
    ensures
        r@ == exhausted(delivery@, envelope@, reason@, opt_view(saga), *fresh),
{
    let signal: Effect<OrderWrites> = delivery.write_letter(
        Some(copy_envelope(&envelope)),
        "COMPENSATION_EXHAUSTED",
        reason.to_owned(),
    );
    match saga {
        Some(saga) => {
            let writes: OrderWrites = react_to_compensation_failed(
                saga,
                reason,
                &envelope,
                fresh,
                delivery.now,
            );
            both(HandleOutcome::Applied, signal, delivery.write_commit(&envelope, writes))
        },
        None => {
            let detail: String = write_no_order_detail(&envelope);
            let letter: Effect<OrderWrites> = delivery.write_letter(
                Some(envelope),
                "UNKNOWN_ORDER",
                detail,
            );
            let ghost seen = seq![signal@, EffectView::<WritesView>::Rollback, letter@];
            let mut effects: Vec<Effect<OrderWrites>> = Vec::new();
            effects.push(signal);
            effects.push(Effect::Rollback);
            effects.push(letter);
            assert(views(effects@) =~= seen);
            Handled { outcome: HandleOutcome::Poison, effects }
        },
    }
}

fn no_order(delivery: &Delivery<'_>, envelope: RawEnvelope) -> (r: Handled<OrderWrites>)
    ensures
        r@ == delivery@.rejected::<WritesView>(
            envelope@,
            "UNKNOWN_ORDER"@,
            no_order_detail(envelope@),
        ),
{
    let detail: String = write_no_order_detail(&envelope);
    delivery.reject(envelope, "UNKNOWN_ORDER", detail)
}

/// Answers an outcome.
fn react(
    delivery: &Delivery<'_>,
    envelope: RawEnvelope,
    payload: &Outcome,
    saga: Option<OrderSaga>,
    fresh: &Fresh,
) -> (r: Result<Handled<OrderWrites>, HandleError>)
    requires
        saga matches Some(s) ==> s@.has_room(),
    ensures
        match (r, reaction(delivery@, envelope@, payload@, opt_view(saga), *fresh)) {
            (Ok(handled), Ok(owed)) => handled@ == owed,
            (Err(e), Err(error)) => e == error,
            _ => false,
        },
{
    let now: Timestamp = delivery.now;
    match payload {
        Outcome::ReservationSucceeded(p) => Ok(
            match saga {
                Some(s) => {
                    let writes = react_to_reservation_succeeded(s, &envelope, p, fresh, now);
                    delivery.apply(&envelope, writes)
                },
                None => delivery.reject(
                    envelope,
                    "UNKNOWN_ORDER",
                    naming("reservation_succeeded for unknown order ", p.order_id),
                ),
            },
        ),
        Outcome::ReservationFailed(p) => Ok(
            match saga {
                Some(s) => {
                    let writes = react_to_reservation_failed(s, &envelope, p, fresh, now);
                    delivery.apply(&envelope, writes)
                },
                None => no_order(delivery, envelope),
            },
        ),
        Outcome::InventoryReleased(p) => Ok(
            match saga {
                Some(s) => {
                    let writes = react_to_inventory_released(s, &envelope, fresh, now);
                    delivery.apply(&envelope, writes)
                },
                None => no_order(delivery, envelope),
            },
        ),
        Outcome::PaymentAuthorized(p) => match saga {
            Some(s) => match react_to_payment_authorized(s, &envelope, p, fresh, now) {
                Ok(writes) => Ok(delivery.apply(&envelope, writes)),
                Err(e) => Err(e),
            },
            None => Ok(
                delivery.reject(
                    envelope,
                    "UNKNOWN_ORDER",
                    naming("payment_authorized for unknown order ", p.order_id),
                ),
            ),
        },
        Outcome::PaymentFailed(p) => {
            match saga {
                Some(s) => {
                    if let Some(reservation_id) = s.reservation_id {
                        let writes = react_to_payment_failed(
                            s,
                            reservation_id,
                            &envelope,
                            p,
                            fresh,
                            now,
                        );
                        return Ok(delivery.apply(&envelope, writes));
                    }
                },
                None => {},
            }
            let mut detail: String = naming("payment_failed for order ", p.order_id);
            detail.append(" with no recorded reservation_id");
            Ok(delivery.reject(envelope, "MISSING_RESERVATION_ID", detail))
        },
        Outcome::FulfilmentCreated(p) => Ok(
            match saga {
                Some(s) => {
                    let writes = react_to_fulfilment_created(s, &envelope, p, fresh, now);
                    delivery.apply(&envelope, writes)
                },
                None => no_order(delivery, envelope),
            },
        ),
        Outcome::FulfilmentFailed(p) => {
            match saga {
                Some(s) => {
                    if let (Some(reservation_id), Some(payment_id)) = (s.reservation_id, s.payment_id) {
                        let writes = react_to_fulfilment_failed(
                            s,
                            reservation_id,
                            payment_id,
                            &envelope,
                            p,
                            fresh,
                            now,
                        );
                        return Ok(delivery.apply(&envelope, writes));
                    }
                },
                None => {},
            }
            Ok(
                delivery.reject(
                    envelope,
                    "UNKNOWN_ORDER",
                    naming("fulfilment_failed for unknown or incomplete order ", p.order_id),
                ),
            )
        },
        Outcome::PaymentRefunded(p) => Ok(
            match saga {
                Some(s) => {
                    let writes = react_to_payment_refunded(s, &envelope, fresh, now);
                    delivery.apply(&envelope, writes)
                },
                None => no_order(delivery, envelope),
            },
        ),
        Outcome::ReleaseFailed(p) => Ok(
            signal_exhausted(delivery, envelope, p.reason_code.as_str(), saga, fresh),
        ),
        Outcome::RefundFailed(p) => Ok(
            signal_exhausted(delivery, envelope, p.reason_code.as_str(), saga, fresh),
        ),
    }
}

/// Handles one record: what its header and payload read, what the inbox says
/// of it, and the order that it names come in; what became of the record and
/// what is to be done for it come out.
pub fn handle_one(
    source_topic: &str,
    record: &ConsumedRecord,
    header: &Result<Envelope<()>, String>,
    payload: &Result<Outcome, String>,
    facts: &InboxFacts,
    saga: Option<OrderSaga>,
    fresh: &Fresh,
    now: Timestamp,
) -> (r: Result<Handled<OrderWrites>, HandleError>)
    requires
        payload_fits(result_view(*header), payload_view(*payload)),
        saga matches Some(s) ==> s@.has_room(),
    ensures
        match (
            r,
            handling(
                DeliveryView {
                    consumer: CONSUMER_NAME@,
                    source_topic: source_topic@,
                    record: record@,
                    now,
                },
                result_view(*header),
                payload_view(*payload),
                facts@,
                opt_view(saga),
                *fresh,
            ),
        ) {
            (Ok(handled), Ok(owed)) => handled@ == owed,
            (Err(e), Err(error)) => e == error,
            _ => false,
        },
{
    let delivery = Delivery { consumer: CONSUMER_NAME, source_topic, record, now };
    let kind: Option<OutcomeKind> = match header {
        Ok(h) => outcome_kind(h.event_type.as_str()),
        Err(_) => None,
    };
    let envelope: RawEnvelope = match delivery.screen(
        header,
        expected_version(header),
        false,
        facts,
    ) {
        Ok(envelope) => envelope,
        Err(handled) => {
            return Ok(handled);
        },
    };
    match payload {
        Err(error) => {
            let mut detail: String = "payload did not match ".to_owned();
            match kind {
                Some(k) => detail.append(k.shape_name()),
                None => {},
            }
            detail.append(" shape: ");
            detail.append(error.as_str());
            Ok(delivery.reject(envelope, "MALFORMED_PAYLOAD", detail))
        },
        Ok(p) => react(&delivery, envelope, p, saga, fresh),
    }
}

/// Handles one record at the present moment, with fresh identifiers for what
/// it creates.
pub fn handle_record(
    source_topic: &str,
    record: &ConsumedRecord,
    header: &Result<Envelope<()>, String>,
    payload: &Result<Outcome, String>,
    facts: &InboxFacts,
    saga: Option<OrderSaga>,
) -> (r: Result<Handled<OrderWrites>, HandleError>)
    requires
        payload_fits(result_view(*header), payload_view(*payload)),
        saga matches Some(s) ==> s@.has_room(),
    ensures
        exists|fresh: Fresh, now: Timestamp|
            {
                &&& settled_as(
                    r,
                    #[trigger] handling(
                        DeliveryView {
                            consumer: CONSUMER_NAME@,
                            source_topic: source_topic@,
                            record: record@,
                            now,
                        },
                        result_view(*header),
                        payload_view(*payload),
                        facts@,
                        opt_view(saga),
                        fresh,
                    ),
                )
                &&& fresh.drawn()
                &&& now.valid()
                &&& first_instant() <= now.instant() <= last_instant()
            },
{
    let fresh: Fresh = Fresh::draw();
    let now: Timestamp = utc_now();
    handle_one(source_topic, record, header, payload, facts, saga, &fresh, now)
}

/// The result is the one that is owed.
pub open spec fn settled_as(
    r: Result<Handled<OrderWrites>, HandleError>,
    owed: Result<HandledView<WritesView>, HandleError>,
) -> bool {
    match (r, owed) {
        (Ok(handled), Ok(view)) => handled@ == view,
        (Err(e), Err(error)) => e == error,
        _ => false,
    }
}

}
