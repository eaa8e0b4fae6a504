//! Fulfilments.

use vstd::prelude::*;

use crate::text::text_eq;

verus! {

/// Where a fulfilment stands.
#[derive(Debug, Clone, Copy, PartialEq, Eq, Structural)]
pub enum FulfilmentStatus {
    Pending,
    Created,
    Failed,
    Cancelled,
}

impl FulfilmentStatus {
    /// The name of the value.
    pub open spec fn name(self) -> Seq<char> {
        match self {
            FulfilmentStatus::Pending => "PENDING"@,
            FulfilmentStatus::Created => "CREATED"@,
            FulfilmentStatus::Failed => "FAILED"@,
            FulfilmentStatus::Cancelled => "CANCELLED"@,
        }
    }

    /// The name of the value.
    pub fn text(self) -> (r: String)
        ensures
            r@ == self.name(),
    {
        let name = match self {
            FulfilmentStatus::Pending => "PENDING",
            FulfilmentStatus::Created => "CREATED",
            FulfilmentStatus::Failed => "FAILED",
            FulfilmentStatus::Cancelled => "CANCELLED",
        };
        name.to_owned()
    }

    /// The value with the given name.
    pub fn parse(text: &str) -> (r: Option<FulfilmentStatus>)
        ensures
            match r {
                Some(value) => text@ == value.name(),
                None => forall|value: FulfilmentStatus| text@ != #[trigger] value.name(),
            },
    {
        if text_eq(text, "PENDING") {
            Some(FulfilmentStatus::Pending)
        } else if text_eq(text, "CREATED") {
            Some(FulfilmentStatus::Created)
        } else if text_eq(text, "FAILED") {
            Some(FulfilmentStatus::Failed)
        } else if text_eq(text, "CANCELLED") {
            Some(FulfilmentStatus::Cancelled)
        } else {
            None
        }
    }
}

/// Every status has a name of its own.
pub proof fn fulfilment_statuses_have_names(status: FulfilmentStatus)
    ensures
        status is Pending ==> status.name() == "PENDING"@,
        status is Created ==> status.name() == "CREATED"@,
        status is Failed ==> status.name() == "FAILED"@,
        status is Cancelled ==> status.name() == "CANCELLED"@,
{
}

}
