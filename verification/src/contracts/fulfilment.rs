//! Commands to and events of the fulfilment service.

use vstd::prelude::*;

verus! {

pub const FULFILMENT_COMMANDS_TOPIC: &'static str = "fulfilment.commands.v1";
pub const FULFILMENT_EVENTS_TOPIC: &'static str = "fulfilment.events.v1";
pub const FULFILMENT_PRODUCER_NAME: &'static str = "fulfilment";

pub const CREATE_FULFILMENT_COMMAND_TYPE: &'static str = "fulfilment.create_fulfilment";
pub const CREATE_FULFILMENT_SCHEMA_VERSION: u32 = 1;

pub const FULFILMENT_CREATED_EVENT_TYPE: &'static str = "fulfilment.fulfilment_created";
pub const FULFILMENT_CREATED_SCHEMA_VERSION: u32 = 1;

pub const FULFILMENT_FAILED_EVENT_TYPE: &'static str = "fulfilment.fulfilment_failed";
pub const FULFILMENT_FAILED_SCHEMA_VERSION: u32 = 1;

pub const CREATE_FULFILMENT_AGGREGATE_TYPE: &'static str = "order";
pub const FULFILMENT_AGGREGATE_TYPE: &'static str = "fulfilment";

/// Command: fulfil an order.
#[derive(Debug, Clone, Copy, PartialEq, Eq, Structural)]
pub struct CreateFulfilmentPayload {
    pub order_id: u128,
    pub reservation_id: u128,
    pub payment_id: u128,
}

/// A fulfilment was created.
#[derive(Debug, Clone, Copy, PartialEq, Eq, Structural)]
pub struct FulfilmentCreatedPayload {
    pub order_id: u128,
    pub fulfilment_id: u128,
}

/// A fulfilment was refused or given up.
#[derive(Debug)]
pub struct FulfilmentFailedPayload {
    pub order_id: u128,
    pub fulfilment_id: u128,
    pub reason_code: String,
}

/// What [`FulfilmentFailedPayload`] says.
pub struct FulfilmentFailedView {
    pub order_id: u128,
    pub fulfilment_id: u128,
    pub reason_code: Seq<char>,
}

impl View for FulfilmentFailedPayload {
    type V = FulfilmentFailedView;

    open spec fn view(&self) -> FulfilmentFailedView {
        FulfilmentFailedView {
            order_id: self.order_id,
            fulfilment_id: self.fulfilment_id,
            reason_code: self.reason_code@,
        }
    }
}

}
