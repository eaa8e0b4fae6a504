//! Commands to and events of the inventory service.

use vstd::prelude::*;

use crate::model::views;

verus! {

pub const INVENTORY_COMMANDS_TOPIC: &'static str = "inventory.commands.v1";
pub const INVENTORY_EVENTS_TOPIC: &'static str = "inventory.events.v1";
pub const INVENTORY_PRODUCER_NAME: &'static str = "inventory";

pub const RESERVE_INVENTORY_COMMAND_TYPE: &'static str = "inventory.reserve_inventory";
pub const RESERVE_INVENTORY_SCHEMA_VERSION: u32 = 1;

pub const RELEASE_INVENTORY_COMMAND_TYPE: &'static str = "inventory.release_inventory";
pub const RELEASE_INVENTORY_SCHEMA_VERSION: u32 = 1;

pub const RESERVATION_SUCCEEDED_EVENT_TYPE: &'static str = "inventory.reservation_succeeded";
pub const RESERVATION_SUCCEEDED_SCHEMA_VERSION: u32 = 1;

pub const RESERVATION_FAILED_EVENT_TYPE: &'static str = "inventory.reservation_failed";
pub const RESERVATION_FAILED_SCHEMA_VERSION: u32 = 1;

pub const INVENTORY_RELEASED_EVENT_TYPE: &'static str = "inventory.inventory_released";
pub const INVENTORY_RELEASED_SCHEMA_VERSION: u32 = 1;

pub const RELEASE_FAILED_EVENT_TYPE: &'static str = "inventory.release_failed";
pub const RELEASE_FAILED_SCHEMA_VERSION: u32 = 1;

pub const RESERVE_INVENTORY_AGGREGATE_TYPE: &'static str = "order";
pub const RELEASE_INVENTORY_AGGREGATE_TYPE: &'static str = "order";
pub const RESERVATION_AGGREGATE_TYPE: &'static str = "inventory_reservation";

/// One line of a reservation.
#[derive(Debug)]
pub struct ReserveInventoryItem {
    pub sku: String,
    pub quantity: i64,
}

/// What [`ReserveInventoryItem`] says.
pub struct ReserveInventoryItemView {
    pub sku: Seq<char>,
    pub quantity: i64,
}

impl View for ReserveInventoryItem {
    type V = ReserveInventoryItemView;

    open spec fn view(&self) -> ReserveInventoryItemView {
        ReserveInventoryItemView {
            sku: self.sku@,
            quantity: self.quantity,
        }
    }
}

/// Command: set stock aside for an order.
#[derive(Debug)]
pub struct ReserveInventoryPayload {
    pub order_id: u128,
    pub items: Vec<ReserveInventoryItem>,
    pub expected_order_version: i64,
}

/// What [`ReserveInventoryPayload`] says.
pub struct ReserveInventoryView {
    pub order_id: u128,
    pub items: Seq<ReserveInventoryItemView>,
    pub expected_order_version: i64,
}

impl View for ReserveInventoryPayload {
    type V = ReserveInventoryView;

    open spec fn view(&self) -> ReserveInventoryView {
        ReserveInventoryView {
            order_id: self.order_id,
            items: views(self.items@),
            expected_order_version: self.expected_order_version,
        }
    }
}

/// Command: give the stock of a reservation back.
#[derive(Debug)]
pub struct ReleaseInventoryPayload {
    pub order_id: u128,
    pub reservation_id: u128,
    pub reason: String,
}

/// What [`ReleaseInventoryPayload`] says.
pub struct ReleaseInventoryView {
    pub order_id: u128,
    pub reservation_id: u128,
    pub reason: Seq<char>,
}

impl View for ReleaseInventoryPayload {
    type V = ReleaseInventoryView;

    open spec fn view(&self) -> ReleaseInventoryView {
        ReleaseInventoryView {
            order_id: self.order_id,
            reservation_id: self.reservation_id,
            reason: self.reason@,
        }
    }
}

/// Stock was set aside.
#[derive(Debug)]
pub struct ReservationSucceededPayload {
    pub order_id: u128,
    pub reservation_id: u128,
    pub items: Vec<ReserveInventoryItem>,
}

/// What [`ReservationSucceededPayload`] says.
pub struct ReservationSucceededView {
    pub order_id: u128,
    pub reservation_id: u128,
    pub items: Seq<ReserveInventoryItemView>,
}

impl View for ReservationSucceededPayload {
    type V = ReservationSucceededView;

    open spec fn view(&self) -> ReservationSucceededView {
        ReservationSucceededView {
            order_id: self.order_id,
            reservation_id: self.reservation_id,
            items: views(self.items@),
        }
    }
}

/// Stock could not be set aside.
#[derive(Debug)]
pub struct ReservationFailedPayload {
    pub order_id: u128,
    pub reason_code: String,
    pub items: Vec<ReserveInventoryItem>,
}

/// What [`ReservationFailedPayload`] says.
pub struct ReservationFailedView {
    pub order_id: u128,
    pub reason_code: Seq<char>,
    pub items: Seq<ReserveInventoryItemView>,
}

impl View for ReservationFailedPayload {
    type V = ReservationFailedView;

    open spec fn view(&self) -> ReservationFailedView {
        ReservationFailedView {
            order_id: self.order_id,
            reason_code: self.reason_code@,
            items: views(self.items@),
        }
    }
}

/// The stock of a reservation was given back.
#[derive(Debug, Clone, Copy, PartialEq, Eq, Structural)]
pub struct InventoryReleasedPayload {
    pub order_id: u128,
    pub reservation_id: u128,
}

/// The stock of a reservation could not be given back.
#[derive(Debug)]
pub struct ReleaseFailedPayload {
    pub order_id: u128,
    pub reservation_id: u128,
    pub reason_code: String,
}

/// What [`ReleaseFailedPayload`] says.
pub struct ReleaseFailedView {
    pub order_id: u128,
    pub reservation_id: u128,
    pub reason_code: Seq<char>,
}

impl View for ReleaseFailedPayload {
    type V = ReleaseFailedView;

    open spec fn view(&self) -> ReleaseFailedView {
        ReleaseFailedView {
            order_id: self.order_id,
            reservation_id: self.reservation_id,
            reason_code: self.reason_code@,
        }
    }
}

}
