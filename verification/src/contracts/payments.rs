//! Commands to and events of the payments service.

use vstd::prelude::*;

verus! {

pub const PAYMENTS_COMMANDS_TOPIC: &'static str = "payments.commands.v1";
pub const PAYMENTS_EVENTS_TOPIC: &'static str = "payments.events.v1";
pub const PAYMENTS_PRODUCER_NAME: &'static str = "payments";

pub const AUTHORIZE_PAYMENT_COMMAND_TYPE: &'static str = "payments.authorize_payment";
pub const AUTHORIZE_PAYMENT_SCHEMA_VERSION: u32 = 1;

pub const PAYMENT_AUTHORIZED_EVENT_TYPE: &'static str = "payments.payment_authorized";
pub const PAYMENT_AUTHORIZED_SCHEMA_VERSION: u32 = 1;

pub const PAYMENT_FAILED_EVENT_TYPE: &'static str = "payments.payment_failed";
pub const PAYMENT_FAILED_SCHEMA_VERSION: u32 = 1;

pub const REFUND_PAYMENT_COMMAND_TYPE: &'static str = "payments.refund_payment";
pub const REFUND_PAYMENT_SCHEMA_VERSION: u32 = 1;

pub const PAYMENT_REFUNDED_EVENT_TYPE: &'static str = "payments.payment_refunded";
pub const PAYMENT_REFUNDED_SCHEMA_VERSION: u32 = 1;

pub const REFUND_FAILED_EVENT_TYPE: &'static str = "payments.refund_failed";
pub const REFUND_FAILED_SCHEMA_VERSION: u32 = 1;

pub const PAYMENT_COMMAND_AGGREGATE_TYPE: &'static str = "order";
pub const PAYMENT_AGGREGATE_TYPE: &'static str = "payment";

/// An amount to pay.
#[derive(Debug)]
pub struct PaymentAmount {
    pub currency: String,
    pub minor_units: i64,
}

/// What [`PaymentAmount`] says.
pub struct PaymentAmountView {
    pub currency: Seq<char>,
    pub minor_units: i64,
}

impl View for PaymentAmount {
    type V = PaymentAmountView;

    open spec fn view(&self) -> PaymentAmountView {
        PaymentAmountView {
            currency: self.currency@,
            minor_units: self.minor_units,
        }
    }
}

/// Command: authorize the payment of an order.
#[derive(Debug)]
pub struct AuthorizePaymentPayload {
    pub order_id: u128,
    pub payment_id: u128,
    pub amount: PaymentAmount,
}

/// What [`AuthorizePaymentPayload`] says.
pub struct AuthorizePaymentView {
    pub order_id: u128,
    pub payment_id: u128,
    pub amount: PaymentAmountView,
}

impl View for AuthorizePaymentPayload {
    type V = AuthorizePaymentView;

    open spec fn view(&self) -> AuthorizePaymentView {
        AuthorizePaymentView {
            order_id: self.order_id,
            payment_id: self.payment_id,
            amount: self.amount@,
        }
    }
}

/// A payment was authorized.
#[derive(Debug)]
pub struct PaymentAuthorizedPayload {
    pub order_id: u128,
    pub payment_id: u128,
    pub provider_reference: String,
}

/// What [`PaymentAuthorizedPayload`] says.
pub struct PaymentAuthorizedView {
    pub order_id: u128,
    pub payment_id: u128,
    pub provider_reference: Seq<char>,
}

impl View for PaymentAuthorizedPayload {
    type V = PaymentAuthorizedView;

    open spec fn view(&self) -> PaymentAuthorizedView {
        PaymentAuthorizedView {
            order_id: self.order_id,
            payment_id: self.payment_id,
            provider_reference: self.provider_reference@,
        }
    }
}

/// A payment was not authorized.
#[derive(Debug)]
pub struct PaymentFailedPayload {
    pub order_id: u128,
    pub payment_id: u128,
    pub reason_code: String,
}

/// What [`PaymentFailedPayload`] says.
pub struct PaymentFailedView {
    pub order_id: u128,
    pub payment_id: u128,
    pub reason_code: Seq<char>,
}

impl View for PaymentFailedPayload {
    type V = PaymentFailedView;

    open spec fn view(&self) -> PaymentFailedView {
        PaymentFailedView {
            order_id: self.order_id,
            payment_id: self.payment_id,
            reason_code: self.reason_code@,
        }
    }
}

/// Command: refund a payment.
#[derive(Debug)]
pub struct RefundPaymentPayload {
    pub order_id: u128,
    pub payment_id: u128,
    pub reason: String,
}

/// What [`RefundPaymentPayload`] says.
pub struct RefundPaymentView {
    pub order_id: u128,
    pub payment_id: u128,
    pub reason: Seq<char>,
}

impl View for RefundPaymentPayload {
    type V = RefundPaymentView;

    open spec fn view(&self) -> RefundPaymentView {
        RefundPaymentView {
            order_id: self.order_id,
            payment_id: self.payment_id,
            reason: self.reason@,
        }
    }
}

/// A payment was refunded.
#[derive(Debug, Clone, Copy, PartialEq, Eq, Structural)]
pub struct PaymentRefundedPayload {
    pub order_id: u128,
    pub payment_id: u128,
}

/// A payment could not be refunded.
#[derive(Debug)]
pub struct RefundFailedPayload {
    pub order_id: u128,
    pub payment_id: u128,
    pub reason_code: String,
}

/// What [`RefundFailedPayload`] says.
pub struct RefundFailedView {
    pub order_id: u128,
    pub payment_id: u128,
    pub reason_code: Seq<char>,
}

impl View for RefundFailedPayload {
    type V = RefundFailedView;

    open spec fn view(&self) -> RefundFailedView {
        RefundFailedView {
            order_id: self.order_id,
            payment_id: self.payment_id,
            reason_code: self.reason_code@,
        }
    }
}

}
