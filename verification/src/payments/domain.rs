//! Payments and the keys of their operations.

use vstd::prelude::*;

use crate::ids::id_text;
use crate::text::{join, text_eq, uuid_text, uuid_text_is_injective};

verus! {

/// Where a payment stands.
#[derive(Debug, Clone, Copy, PartialEq, Eq, Structural)]
pub enum PaymentStatus {
    Pending,
    Authorized,
    Failed,
    RefundPending,
    Refunded,
}

impl PaymentStatus {
    /// The name of the value.
    pub open spec fn name(self) -> Seq<char> {
        match self {
            PaymentStatus::Pending => "PENDING"@,
            PaymentStatus::Authorized => "AUTHORIZED"@,
            PaymentStatus::Failed => "FAILED"@,
            PaymentStatus::RefundPending => "REFUND_PENDING"@,
            PaymentStatus::Refunded => "REFUNDED"@,
        }
    }

    /// The name of the value.
    pub fn text(self) -> (r: String)
        ensures
            r@ == self.name(),
    {
        let name = match self {
            PaymentStatus::Pending => "PENDING",
            PaymentStatus::Authorized => "AUTHORIZED",
            PaymentStatus::Failed => "FAILED",
            PaymentStatus::RefundPending => "REFUND_PENDING",
            PaymentStatus::Refunded => "REFUNDED",
        };
        name.to_owned()
    }

    /// The value with the given name.
    pub fn parse(text: &str) -> (r: Option<PaymentStatus>)
        ensures
            match r {
                Some(value) => text@ == value.name(),
                None => forall|value: PaymentStatus| text@ != #[trigger] value.name(),
            },
    {
        if text_eq(text, "PENDING") {
            Some(PaymentStatus::Pending)
        } else if text_eq(text, "AUTHORIZED") {
            Some(PaymentStatus::Authorized)
        } else if text_eq(text, "FAILED") {
            Some(PaymentStatus::Failed)
        } else if text_eq(text, "REFUND_PENDING") {
            Some(PaymentStatus::RefundPending)
        } else if text_eq(text, "REFUNDED") {
            Some(PaymentStatus::Refunded)
        } else {
            None
        }
    }
}

/// What the provider is asked to do.
#[derive(Debug, Clone, Copy, PartialEq, Eq, Structural)]
pub enum OperationType {
    Authorize,
    Refund,
}

impl OperationType {
    /// The name of the value.
    pub open spec fn name(self) -> Seq<char> {
        match self {
            OperationType::Authorize => "AUTHORIZE"@,
            OperationType::Refund => "REFUND"@,
        }
    }

    /// The name of the value.
    pub fn text(self) -> (r: String)
        ensures
            r@ == self.name(),
    {
        let name = match self {
            OperationType::Authorize => "AUTHORIZE",
            OperationType::Refund => "REFUND",
        };
        name.to_owned()
    }

    /// The value with the given name.
    pub fn parse(text: &str) -> (r: Option<OperationType>)
        ensures
            match r {
                Some(value) => text@ == value.name(),
                None => forall|value: OperationType| text@ != #[trigger] value.name(),
            },
    {
        if text_eq(text, "AUTHORIZE") {
            Some(OperationType::Authorize)
        } else if text_eq(text, "REFUND") {
            Some(OperationType::Refund)
        } else {
            None
        }
    }
}

/// How an operation ended.
#[derive(Debug, Clone, Copy, PartialEq, Eq, Structural)]
pub enum OperationStatus {
    Succeeded,
    Failed,
}

impl OperationStatus {
    /// The name of the value.
    pub open spec fn name(self) -> Seq<char> {
        match self {
            OperationStatus::Succeeded => "SUCCEEDED"@,
            OperationStatus::Failed => "FAILED"@,
        }
    }

    /// The name of the value.
    pub fn text(self) -> (r: String)
        ensures
            r@ == self.name(),
    {
        let name = match self {
            OperationStatus::Succeeded => "SUCCEEDED",
            OperationStatus::Failed => "FAILED",
        };
        name.to_owned()
    }

    /// The value with the given name.
    pub fn parse(text: &str) -> (r: Option<OperationStatus>)
        ensures
            match r {
                Some(value) => text@ == value.name(),
                None => forall|value: OperationStatus| text@ != #[trigger] value.name(),
            },
    {
        if text_eq(text, "SUCCEEDED") {
            Some(OperationStatus::Succeeded)
        } else if text_eq(text, "FAILED") {
            Some(OperationStatus::Failed)
        } else {
            None
        }
    }
}

/// The key of an order's authorization.
pub open spec fn authorize_key(order_id: u128) -> Seq<char> {
    "authorize:"@ + uuid_text(order_id)
}

/// The key of an order's refund.
pub open spec fn refund_key(order_id: u128) -> Seq<char> {
    "refund:"@ + uuid_text(order_id)
}

/// The key of an order's authorization.
pub fn authorize_idempotency_key(order_id: u128) -> (r: String)
    ensures
        r@ == authorize_key(order_id),
{
    join("authorize:", id_text(order_id).as_str())
}

/// The key of an order's refund.
pub fn refund_idempotency_key(order_id: u128) -> (r: String)
    ensures
        r@ == refund_key(order_id),
{
    join("refund:", id_text(order_id).as_str())
}

/// Keys tell orders apart, and an authorization from a refund.
pub proof fn operation_keys_are_distinct(a: u128, b: u128)
    ensures
        authorize_key(a) == authorize_key(b) ==> a == b,
        refund_key(a) == refund_key(b) ==> a == b,
        authorize_key(a) != refund_key(b),
{
    reveal_strlit("authorize:");
    reveal_strlit("refund:");
    let prefix = "authorize:"@;
    let other = "refund:"@;
    if authorize_key(a) == authorize_key(b) {
        assert(uuid_text(a) =~= authorize_key(a).subrange(
            prefix.len() as int,
            authorize_key(a).len() as int,
        ));
        assert(uuid_text(b) =~= authorize_key(b).subrange(
            prefix.len() as int,
            authorize_key(b).len() as int,
        ));
        uuid_text_is_injective(a, b);
    }
    if refund_key(a) == refund_key(b) {
        assert(uuid_text(a) =~= refund_key(a).subrange(
            other.len() as int,
            refund_key(a).len() as int,
        ));
        assert(uuid_text(b) =~= refund_key(b).subrange(
            other.len() as int,
            refund_key(b).len() as int,
        ));
        uuid_text_is_injective(a, b);
    }
    assert(authorize_key(a)[0] == 'a');
    assert(refund_key(b)[0] == 'r');
}

/// Every status and every kind of operation has a name of its own.
pub proof fn payment_values_have_names(
    status: PaymentStatus,
    operation: OperationType,
    result: OperationStatus,
)
    ensures
        status is Pending ==> status.name() == "PENDING"@,
        status is Authorized ==> status.name() == "AUTHORIZED"@,
        status is Failed ==> status.name() == "FAILED"@,
        status is RefundPending ==> status.name() == "REFUND_PENDING"@,
        status is Refunded ==> status.name() == "REFUNDED"@,
        operation is Authorize ==> operation.name() == "AUTHORIZE"@,
        operation is Refund ==> operation.name() == "REFUND"@,
        result is Succeeded ==> result.name() == "SUCCEEDED"@,
        result is Failed ==> result.name() == "FAILED"@,
{
}

}
