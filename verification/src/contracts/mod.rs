//! The messages that the services exchange.

use vstd::prelude::*;

use crate::contracts::fulfilment::{
    CreateFulfilmentPayload, FulfilmentCreatedPayload, FulfilmentFailedPayload,
    FulfilmentFailedView,
};
use crate::contracts::inventory::{
    InventoryReleasedPayload, ReleaseInventoryPayload,
    ReleaseInventoryView, ReservationFailedPayload, ReservationFailedView,
    ReservationSucceededPayload, ReservationSucceededView, ReserveInventoryPayload,
    ReserveInventoryView,
};
use crate::contracts::orders::{
    OrderCancelledPayload, OrderCancelledView, OrderCompletedPayload, OrderCreatedPayload,
    OrderCreatedView,
};
use crate::contracts::payments::{
    AuthorizePaymentPayload, AuthorizePaymentView, PaymentAuthorizedPayload, PaymentAuthorizedView,
    PaymentFailedPayload, PaymentFailedView, PaymentRefundedPayload, RefundFailedPayload,
    RefundFailedView, RefundPaymentPayload, RefundPaymentView,
};
use crate::model::opt_view;
use crate::time::Timestamp;

pub mod fulfilment;
pub mod inventory;
pub mod orders;
pub mod payments;

verus! {

/// The common frame of every message: identity, type and version, origin,
/// the aggregate it speaks of, and the chain it belongs to.
#[derive(Debug)]
pub struct Envelope<P> {
    pub event_id: u128,
    pub event_type: String,
    pub schema_version: u32,
    pub occurred_at: Timestamp,
    pub producer: String,
    pub aggregate_type: String,
    pub aggregate_id: u128,
    pub aggregate_version: i64,
    pub correlation_id: u128,
    pub causation_id: u128,
    pub traceparent: Option<String>,
    pub payload: P,
}

/// What an [`Envelope`] says.
pub struct EnvelopeView<P> {
    pub event_id: u128,
    pub event_type: Seq<char>,
    pub schema_version: u32,
    pub occurred_at: Timestamp,
    pub producer: Seq<char>,
    pub aggregate_type: Seq<char>,
    pub aggregate_id: u128,
    pub aggregate_version: i64,
    pub correlation_id: u128,
    pub causation_id: u128,
    pub traceparent: Option<Seq<char>>,
    pub payload: P,
}

impl<P: View> View for Envelope<P> {
    type V = EnvelopeView<P::V>;

    open spec fn view(&self) -> EnvelopeView<P::V> {
        EnvelopeView {
            event_id: self.event_id,
            event_type: self.event_type@,
            schema_version: self.schema_version,
            occurred_at: self.occurred_at,
            producer: self.producer@,
            aggregate_type: self.aggregate_type@,
            aggregate_id: self.aggregate_id,
            aggregate_version: self.aggregate_version,
            correlation_id: self.correlation_id,
            causation_id: self.causation_id,
            traceparent: opt_view(self.traceparent),
            payload: self.payload@,
        }
    }
}

/// The payload of a message that a service sends, by its type.
#[derive(Debug)]
pub enum EventPayload {
    OrderCreated(OrderCreatedPayload),
    OrderCompleted(OrderCompletedPayload),
    OrderCancelled(OrderCancelledPayload),
    ReserveInventory(ReserveInventoryPayload),
    ReleaseInventory(ReleaseInventoryPayload),
    ReservationSucceeded(ReservationSucceededPayload),
    ReservationFailed(ReservationFailedPayload),
    InventoryReleased(InventoryReleasedPayload),
    AuthorizePayment(AuthorizePaymentPayload),
    RefundPayment(RefundPaymentPayload),
    PaymentAuthorized(PaymentAuthorizedPayload),
    PaymentFailed(PaymentFailedPayload),
    PaymentRefunded(PaymentRefundedPayload),
    RefundFailed(RefundFailedPayload),
    CreateFulfilment(CreateFulfilmentPayload),
    FulfilmentCreated(FulfilmentCreatedPayload),
    FulfilmentFailed(FulfilmentFailedPayload),
}

/// What an [`EventPayload`] says.
pub enum EventPayloadView {
    OrderCreated(OrderCreatedView),
    OrderCompleted(OrderCompletedPayload),
    OrderCancelled(OrderCancelledView),
    ReserveInventory(ReserveInventoryView),
    ReleaseInventory(ReleaseInventoryView),
    ReservationSucceeded(ReservationSucceededView),
    ReservationFailed(ReservationFailedView),
    InventoryReleased(InventoryReleasedPayload),
    AuthorizePayment(AuthorizePaymentView),
    RefundPayment(RefundPaymentView),
    PaymentAuthorized(PaymentAuthorizedView),
    PaymentFailed(PaymentFailedView),
    PaymentRefunded(PaymentRefundedPayload),
    RefundFailed(RefundFailedView),
    CreateFulfilment(CreateFulfilmentPayload),
    FulfilmentCreated(FulfilmentCreatedPayload),
    FulfilmentFailed(FulfilmentFailedView),
}

impl View for EventPayload {
    type V = EventPayloadView;

    open spec fn view(&self) -> EventPayloadView {
        match *self {
            EventPayload::OrderCreated(p) => EventPayloadView::OrderCreated(p@),
            EventPayload::OrderCompleted(p) => EventPayloadView::OrderCompleted(p),
            EventPayload::OrderCancelled(p) => EventPayloadView::OrderCancelled(p@),
            EventPayload::ReserveInventory(p) => EventPayloadView::ReserveInventory(p@),
            EventPayload::ReleaseInventory(p) => EventPayloadView::ReleaseInventory(p@),
            EventPayload::ReservationSucceeded(p) => EventPayloadView::ReservationSucceeded(p@),
            EventPayload::ReservationFailed(p) => EventPayloadView::ReservationFailed(p@),
            EventPayload::InventoryReleased(p) => EventPayloadView::InventoryReleased(p),
            EventPayload::AuthorizePayment(p) => EventPayloadView::AuthorizePayment(p@),
            EventPayload::RefundPayment(p) => EventPayloadView::RefundPayment(p@),
            EventPayload::PaymentAuthorized(p) => EventPayloadView::PaymentAuthorized(p@),
            EventPayload::PaymentFailed(p) => EventPayloadView::PaymentFailed(p@),
            EventPayload::PaymentRefunded(p) => EventPayloadView::PaymentRefunded(p),
            EventPayload::RefundFailed(p) => EventPayloadView::RefundFailed(p@),
            EventPayload::CreateFulfilment(p) => EventPayloadView::CreateFulfilment(p),
            EventPayload::FulfilmentCreated(p) => EventPayloadView::FulfilmentCreated(p),
            EventPayload::FulfilmentFailed(p) => EventPayloadView::FulfilmentFailed(p@),
        }
    }
}

}
