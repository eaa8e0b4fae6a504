//! Events of the orders service.

use vstd::prelude::*;

use crate::model::views;

verus! {

pub const ORDER_CREATED_EVENT_TYPE: &'static str = "orders.order_created";
pub const ORDER_CREATED_SCHEMA_VERSION: u32 = 1;
pub const ORDER_CREATED_TOPIC: &'static str = "orders.events.v1";
pub const ORDERS_PRODUCER_NAME: &'static str = "orders";
pub const ORDER_AGGREGATE_TYPE: &'static str = "order";

pub const ORDER_COMPLETED_EVENT_TYPE: &'static str = "orders.order_completed";
pub const ORDER_COMPLETED_SCHEMA_VERSION: u32 = 1;

pub const ORDER_CANCELLED_EVENT_TYPE: &'static str = "orders.order_cancelled";
pub const ORDER_CANCELLED_SCHEMA_VERSION: u32 = 1;

/// One line of a created order.
#[derive(Debug)]
pub struct OrderCreatedItem {
    pub sku: String,
    pub quantity: i64,
}

/// What [`OrderCreatedItem`] says.
pub struct OrderCreatedItemView {
    pub sku: Seq<char>,
    pub quantity: i64,
}

impl View for OrderCreatedItem {
    type V = OrderCreatedItemView;

    open spec fn view(&self) -> OrderCreatedItemView {
        OrderCreatedItemView {
            sku: self.sku@,
            quantity: self.quantity,
        }
    }
}

/// The total of a created order.
#[derive(Debug)]
pub struct OrderCreatedAmount {
    pub currency: String,
    pub minor_units: i64,
}

/// What [`OrderCreatedAmount`] says.
pub struct OrderCreatedAmountView {
    pub currency: Seq<char>,
    pub minor_units: i64,
}

impl View for OrderCreatedAmount {
    type V = OrderCreatedAmountView;

    open spec fn view(&self) -> OrderCreatedAmountView {
        OrderCreatedAmountView {
            currency: self.currency@,
            minor_units: self.minor_units,
        }
    }
}

/// An order was accepted.
#[derive(Debug)]
pub struct OrderCreatedPayload {
    pub order_id: u128,
    pub items: Vec<OrderCreatedItem>,
    pub amount: OrderCreatedAmount,
}

/// What [`OrderCreatedPayload`] says.
pub struct OrderCreatedView {
    pub order_id: u128,
    pub items: Seq<OrderCreatedItemView>,
    pub amount: OrderCreatedAmountView,
}

impl View for OrderCreatedPayload {
    type V = OrderCreatedView;

    open spec fn view(&self) -> OrderCreatedView {
        OrderCreatedView {
            order_id: self.order_id,
            items: views(self.items@),
            amount: self.amount@,
        }
    }
}

/// An order was fulfilled.
#[derive(Debug, Clone, Copy, PartialEq, Eq, Structural)]
pub struct OrderCompletedPayload {
    pub order_id: u128,
    pub fulfilment_id: u128,
}

/// An order was cancelled.
#[derive(Debug)]
pub struct OrderCancelledPayload {
    pub order_id: u128,
    pub reason_code: String,
}

/// What [`OrderCancelledPayload`] says.
pub struct OrderCancelledView {
    pub order_id: u128,
    pub reason_code: Seq<char>,
}

impl View for OrderCancelledPayload {
    type V = OrderCancelledView;

    open spec fn view(&self) -> OrderCancelledView {
        OrderCancelledView {
            order_id: self.order_id,
            reason_code: self.reason_code@,
        }
    }
}

}
