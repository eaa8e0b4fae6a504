//! The rows of fulfilments. There is at most one for an order.

use vstd::prelude::*;

use crate::domain_common::is_version_7;
use crate::fulfilment::domain::FulfilmentStatus;
use crate::ids::fresh_id;
use crate::model::{copy_opt_text, opt_view};
use crate::time::Timestamp;

verus! {

/// A fulfilment.
#[derive(Debug)]
pub struct FulfilmentRow {
    pub id: u128,
    pub order_id: u128,
    pub reservation_id: u128,
    pub payment_id: u128,
    pub status: FulfilmentStatus,
    pub failure_code: Option<String>,
    pub version: i64,
    pub created_at: Timestamp,
    pub updated_at: Timestamp,
}

impl Clone for FulfilmentRow {
    fn clone(&self) -> (r: FulfilmentRow)
        ensures
            r == *self,
    {
        FulfilmentRow {
            id: self.id,
            order_id: self.order_id,
            reservation_id: self.reservation_id,
            payment_id: self.payment_id,
            status: self.status,
            failure_code: copy_opt_text(&self.failure_code),
            version: self.version,
            created_at: self.created_at,
            updated_at: self.updated_at,
        }
    }
}

/// What a [`FulfilmentRow`] says.
pub struct FulfilmentView {
    pub id: u128,
    pub order_id: u128,
    pub reservation_id: u128,
    pub payment_id: u128,
    pub status: FulfilmentStatus,
    pub failure_code: Option<Seq<char>>,
    pub version: i64,
    pub created_at: Timestamp,
    pub updated_at: Timestamp,
}

impl View for FulfilmentRow {
    type V = FulfilmentView;

    open spec fn view(&self) -> FulfilmentView {
        FulfilmentView {
            id: self.id,
            order_id: self.order_id,
            reservation_id: self.reservation_id,
            payment_id: self.payment_id,
            status: self.status,
            failure_code: opt_view(self.failure_code),
            version: self.version,
            created_at: self.created_at,
            updated_at: self.updated_at,
        }
    }
}

/// The decision on an order's fulfilment.
#[derive(Debug)]
pub struct RecordOutcome {
    pub fulfilment_id: u128,
    pub status: FulfilmentStatus,
    pub failure_code: Option<String>,
    /// Whether this request decided, rather than repeat a decision.
    pub created: bool,
}

/// What a [`RecordOutcome`] says.
pub struct RecordView {
    pub fulfilment_id: u128,
    pub status: FulfilmentStatus,
    pub failure_code: Option<Seq<char>>,
    pub created: bool,
}

impl View for RecordOutcome {
    type V = RecordView;

    open spec fn view(&self) -> RecordView {
        RecordView {
            fulfilment_id: self.fulfilment_id,
            status: self.status,
            failure_code: opt_view(self.failure_code),
            created: self.created,
        }
    }
}

/// A fulfilment that is decided now.
pub open spec fn new_fulfilment(
    id: u128,
    order_id: u128,
    reservation_id: u128,
    payment_id: u128,
    status: FulfilmentStatus,
    failure_code: Option<Seq<char>>,
    now: Timestamp,
) -> FulfilmentView {
    FulfilmentView {
        id,
        order_id,
        reservation_id,
        payment_id,
        status,
        failure_code,
        version: 1,
        created_at: now,
        updated_at: now,
    }
}

/// The decision, and the row to store where it is new: a decided fulfilment
/// is repeated, whatever the new decision would be.
pub open spec fn recorded(
    existing: Option<FulfilmentView>,
    id: u128,
    order_id: u128,
    reservation_id: u128,
    payment_id: u128,
    status: FulfilmentStatus,
    failure_code: Option<Seq<char>>,
    now: Timestamp,
) -> (RecordView, Option<FulfilmentView>) {
    match existing {
        Some(row) => (
            RecordView {
                fulfilment_id: row.id,
                status: row.status,
                failure_code: row.failure_code,
                created: false,
            },
            None,
        ),
        None => (
            RecordView { fulfilment_id: id, status, failure_code, created: true },
            Some(
                new_fulfilment(
                    id,
                    order_id,
                    reservation_id,
                    payment_id,
                    status,
                    failure_code,
                    now,
                ),
            ),
        ),
    }
}

/// Records a decision under the given identifier.
pub fn record_decision(
    existing: Option<&FulfilmentRow>,
    id: u128,
    order_id: u128,
    reservation_id: u128,
    payment_id: u128,
    status: FulfilmentStatus,
    failure_code: Option<&str>,
    now: Timestamp,
) -> (r: (RecordOutcome, Option<FulfilmentRow>))
    ensures
        ({
            let owed = recorded(
                opt_view(existing),
                id,
                order_id,
                reservation_id,
                payment_id,
                status,
                opt_view(failure_code),
                now,
            );
            &&& r.0@ == owed.0
            &&& opt_view(r.1) == owed.1
        }),
{
    match existing {
        Some(row) => (
            RecordOutcome {
                fulfilment_id: row.id,
                status: row.status,
                failure_code: copy_opt_text(&row.failure_code),
                created: false,
            },
            None,
        ),
        None => {
            let told: Option<String> = match failure_code {
                Some(code) => Some(code.to_owned()),
                None => None,
            };
            let stored: Option<String> = copy_opt_text(&told);
            (
                RecordOutcome { fulfilment_id: id, status, failure_code: told, created: true },
                Some(
                    FulfilmentRow {
                        id,
                        order_id,
                        reservation_id,
                        payment_id,
                        status,
                        failure_code: stored,
                        version: 1,
                        created_at: now,
                        updated_at: now,
                    },
                ),
            )
        },
    }
}

/// Records a decision under a fresh identifier.
pub fn record_outcome(
    existing: Option<&FulfilmentRow>,
    order_id: u128,
    reservation_id: u128,
    payment_id: u128,
    status: FulfilmentStatus,
    failure_code: Option<&str>,
    now: Timestamp,
) -> (r: (RecordOutcome, Option<FulfilmentRow>))
    ensures
        ({
            let owed = recorded(
                opt_view(existing),
                r.0.fulfilment_id,
                order_id,
                reservation_id,
                payment_id,
                status,
                opt_view(failure_code),
                now,
            );
            &&& r.0@ == owed.0
            &&& opt_view(r.1) == owed.1
            &&& r.0.created ==> is_version_7(r.0.fulfilment_id)
        }),
{
    record_decision(
        existing,
        fresh_id(),
        order_id,
        reservation_id,
        payment_id,
        status,
        failure_code,
        now,
    )
}

/// An order's fulfilment is decided once: whatever comes later is answered
/// with the first decision, and no second row is stored.
pub proof fn fulfilments_are_decided_once(
    id: u128,
    other: u128,
    order_id: u128,
    reservation_id: u128,
    payment_id: u128,
    status: FulfilmentStatus,
    failure_code: Option<Seq<char>>,
    later_status: FulfilmentStatus,
    later_code: Option<Seq<char>>,
    now: Timestamp,
    later: Timestamp,
)
    ensures
        ({
            let first = recorded(
                None,
                id,
                order_id,
                reservation_id,
                payment_id,
                status,
                failure_code,
                now,
            );
            let second = recorded(
                first.1,
                other,
                order_id,
                reservation_id,
                payment_id,
                later_status,
                later_code,
                later,
            );
            &&& first.1 is Some
            &&& second.1 is None
            &&& second.0.fulfilment_id == first.0.fulfilment_id
            &&& second.0.status == first.0.status
            &&& second.0.failure_code == first.0.failure_code
        }),
{
}

}
