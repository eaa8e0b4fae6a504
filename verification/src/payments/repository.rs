//! The rows of payments and of the operations asked of the provider.

use vstd::prelude::*;

use crate::model::{copy_opt_text, opt_view};
use crate::payments::domain::{OperationStatus, OperationType, PaymentStatus};
use crate::time::Timestamp;

verus! {

/// A payment. There is at most one for an order.
#[derive(Debug)]
pub struct PaymentRow {
    pub id: u128,
    pub order_id: u128,
    pub currency: String,
    pub amount_minor: i64,
    pub status: PaymentStatus,
    pub provider_reference: Option<String>,
    pub version: i64,
    pub failure_code: Option<String>,
    pub created_at: Timestamp,
    pub updated_at: Timestamp,
}

impl Clone for PaymentRow {
    fn clone(&self) -> (r: PaymentRow)
        ensures
            r == *self,
    {
        PaymentRow {
            id: self.id,
            order_id: self.order_id,
            currency: self.currency.clone(),
            amount_minor: self.amount_minor,
            status: self.status,
            provider_reference: copy_opt_text(&self.provider_reference),
            version: self.version,
            failure_code: copy_opt_text(&self.failure_code),
            created_at: self.created_at,
            updated_at: self.updated_at,
        }
    }
}

/// What a [`PaymentRow`] says.
pub struct PaymentView {
    pub id: u128,
    pub order_id: u128,
    pub currency: Seq<char>,
    pub amount_minor: i64,
    pub status: PaymentStatus,
    pub provider_reference: Option<Seq<char>>,
    pub version: i64,
    pub failure_code: Option<Seq<char>>,
    pub created_at: Timestamp,
    pub updated_at: Timestamp,
}

impl View for PaymentRow {
    type V = PaymentView;

    open spec fn view(&self) -> PaymentView {
        PaymentView {
            id: self.id,
            order_id: self.order_id,
            currency: self.currency@,
            amount_minor: self.amount_minor,
            status: self.status,
            provider_reference: opt_view(self.provider_reference),
            version: self.version,
            failure_code: opt_view(self.failure_code),
            created_at: self.created_at,
            updated_at: self.updated_at,
        }
    }
}

/// An authorized payment.
pub open spec fn authorized_payment(
    payment_id: u128,
    order_id: u128,
    currency: Seq<char>,
    amount_minor: i64,
    provider_reference: Seq<char>,
    now: Timestamp,
) -> PaymentView {
    PaymentView {
        id: payment_id,
        order_id,
        currency,
        amount_minor,
        status: PaymentStatus::Authorized,
        provider_reference: Some(provider_reference),
        version: 1,
        failure_code: None,
        created_at: now,
        updated_at: now,
    }
}

/// Records an authorized payment.
pub fn record_authorized(
    payment_id: u128,
    order_id: u128,
    currency: &str,
    amount_minor: i64,
    provider_reference: &str,
    now: Timestamp,
) -> (r: PaymentRow)
    ensures
        r@ == authorized_payment(
            payment_id,
            order_id,
            currency@,
            amount_minor,
            provider_reference@,
            now,
        ),
{
    PaymentRow {
        id: payment_id,
        order_id,
        currency: currency.to_owned(),
        amount_minor,
        status: PaymentStatus::Authorized,
        provider_reference: Some(provider_reference.to_owned()),
        version: 1,
        failure_code: None,
        created_at: now,
        updated_at: now,
    }
}

/// A declined payment.
pub open spec fn declined_payment(
    payment_id: u128,
    order_id: u128,
    currency: Seq<char>,
    amount_minor: i64,
    failure_code: Seq<char>,
    now: Timestamp,
) -> PaymentView {
    PaymentView {
        id: payment_id,
        order_id,
        currency,
        amount_minor,
        status: PaymentStatus::Failed,
        provider_reference: None,
        version: 1,
        failure_code: Some(failure_code),
        created_at: now,
        updated_at: now,
    }
}

/// Records a declined payment.
pub fn record_declined(
    payment_id: u128,
    order_id: u128,
    currency: &str,
    amount_minor: i64,
    failure_code: &str,
    now: Timestamp,
) -> (r: PaymentRow)
    ensures
        r@ == declined_payment(
            payment_id,
            order_id,
            currency@,
            amount_minor,
            failure_code@,
            now,
        ),
{
    PaymentRow {
        id: payment_id,
        order_id,
        currency: currency.to_owned(),
        amount_minor,
        status: PaymentStatus::Failed,
        provider_reference: None,
        version: 1,
        failure_code: Some(failure_code.to_owned()),
        created_at: now,
        updated_at: now,
    }
}

/// The payment after a refund; a refunded one stays as it is.
pub open spec fn refunded_payment(payment: PaymentView, now: Timestamp) -> PaymentView {
    if payment.status is Refunded {
        payment
    } else {
        PaymentView {
            status: PaymentStatus::Refunded,
            version: (payment.version + 1) as i64,
            updated_at: now,
            ..payment
        }
    }
}

/// Records a refund.
pub fn record_refunded(payment: PaymentRow, now: Timestamp) -> (r: PaymentRow)
    requires
        payment.version < i64::MAX,
    ensures
        r@ == refunded_payment(payment@, now),
{
    if payment.status == PaymentStatus::Refunded {
        return payment;
    }
    let mut payment = payment;
    payment.status = PaymentStatus::Refunded;
    payment.version = payment.version + 1;
    payment.updated_at = now;
    payment
}

/// What was asked of the provider under one key.
#[derive(Debug)]
pub struct OperationRow {
    pub id: u128,
    pub payment_id: u128,
    pub operation_type: OperationType,
    pub idempotency_key: String,
    pub status: OperationStatus,
    pub attempts: i32,
    pub created_at: Timestamp,
    pub updated_at: Timestamp,
}

impl Clone for OperationRow {
    fn clone(&self) -> (r: OperationRow)
        ensures
            r == *self,
    {
        OperationRow {
            id: self.id,
            payment_id: self.payment_id,
            operation_type: self.operation_type,
            idempotency_key: self.idempotency_key.clone(),
            status: self.status,
            attempts: self.attempts,
            created_at: self.created_at,
            updated_at: self.updated_at,
        }
    }
}

/// What an [`OperationRow`] says.
pub struct OperationView {
    pub id: u128,
    pub payment_id: u128,
    pub operation_type: OperationType,
    pub idempotency_key: Seq<char>,
    pub status: OperationStatus,
    pub attempts: i32,
    pub created_at: Timestamp,
    pub updated_at: Timestamp,
}

impl View for OperationRow {
    type V = OperationView;

    open spec fn view(&self) -> OperationView {
        OperationView {
            id: self.id,
            payment_id: self.payment_id,
            operation_type: self.operation_type,
            idempotency_key: self.idempotency_key@,
            status: self.status,
            attempts: self.attempts,
            created_at: self.created_at,
            updated_at: self.updated_at,
        }
    }
}

/// The record of an operation: under a new key a new row, under a known one
/// the same row with the new status and the attempts added up.
pub open spec fn operation_recorded(
    existing: Option<OperationView>,
    id: u128,
    payment_id: u128,
    operation_type: OperationType,
    idempotency_key: Seq<char>,
    status: OperationStatus,
    attempts: i32,
    now: Timestamp,
) -> OperationView {
    match existing {
        Some(row) => OperationView {
            status,
            attempts: (row.attempts + attempts) as i32,
            updated_at: now,
            ..row
        },
        None => OperationView {
            id,
            payment_id,
            operation_type,
            idempotency_key,
            status,
            attempts,
            created_at: now,
            updated_at: now,
        },
    }
}

/// Records an operation.
pub fn record_operation(
    existing: Option<OperationRow>,
    id: u128,
    payment_id: u128,
    operation_type: OperationType,
    idempotency_key: &str,
    status: OperationStatus,
    attempts: i32,
    now: Timestamp,
) -> (r: OperationRow)
    requires
        existing matches Some(row) ==> i32::MIN <= row.attempts + attempts <= i32::MAX,
    ensures
        r@ == operation_recorded(
            opt_view(existing),
            id,
            payment_id,
            operation_type,
            idempotency_key@,
            status,
            attempts,
            now,
        ),
{
    match existing {
        Some(row) => {
            let mut row = row;
            row.status = status;
            row.attempts = row.attempts + attempts;
            row.updated_at = now;
            row
        },
        None => OperationRow {
            id,
            payment_id,
            operation_type,
            idempotency_key: idempotency_key.to_owned(),
            status,
            attempts,
            created_at: now,
            updated_at: now,
        },
    }
}

}
