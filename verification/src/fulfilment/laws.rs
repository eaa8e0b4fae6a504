//! What the fulfilment service answers: what it records of an order, and what
//! it reports.

use vstd::prelude::*;

use crate::consuming::{
    committed, in_line, result_view, DeliveryView, EffectView, Handled, RawEnvelope, RawView,
};
use crate::contracts::fulfilment::{
    CreateFulfilmentPayload, FulfilmentCreatedPayload, FulfilmentFailedView,
};
use crate::contracts::{Envelope, EnvelopeView, EventPayload, EventPayloadView};
use crate::deliveries::applied_once;
use crate::fulfilment::consumer::{
    attempt, build_created_event, build_failed_event, conclude, conclusion, open_record, opening,
    payload_view, refused, FulfilmentIds, FulfilmentWrites, Opening, OpeningView, Verdict,
};
use crate::fulfilment::domain::FulfilmentStatus;
use crate::fulfilment::repository::{
    record_decision, recorded, FulfilmentRow, FulfilmentView, RecordOutcome,
};
use crate::messaging::ConsumedRecord;
use crate::model::opt_view;
use crate::persistence::inbox::{InboxFacts, InboxFactsView};
use crate::persistence::outbox::{answers, NewOutboxEvent};
use crate::test_support::fault::{fires, FaultInjector};
use crate::text::uuid_text;
use crate::time::Timestamp;

verus! {

/// The first decision on an order's fulfilment is recorded for the order, the
/// reservation and the payment that the command names, as created or as
/// failed with the reason, and the report says the same of that order.
pub proof fn fulfilments_answer_their_command(
    delivery: DeliveryView,
    envelope: RawView,
    payload: CreateFulfilmentPayload,
    verdict: Verdict,
    ids: FulfilmentIds,
)
    ensures
        ({
            let handled = conclusion(delivery, envelope, payload, verdict, None, ids);
            let writes = committed(handled.effects)->0;
            let row = writes.fulfilment->0;
            let reason = if verdict is Exhausted {
                "FULFILMENT_RETRY_BUDGET_EXHAUSTED"@
            } else {
                "FULFILMENT_REJECTED"@
            };
            &&& applied_once(handled, delivery, envelope)
            &&& committed(handled.effects) is Some
            &&& writes.fulfilment is Some
            &&& row.id == ids.fulfilment
            &&& row.order_id == payload.order_id
            &&& row.reservation_id == payload.reservation_id
            &&& row.payment_id == payload.payment_id
            &&& row.version == 1
            &&& row.created_at == delivery.now
            &&& row.updated_at == delivery.now
            &&& verdict is Created ==> row.status is Created && row.failure_code is None
            &&& !(verdict is Created) ==> row.status is Failed && row.failure_code == Some(reason)
            &&& writes.outbox.len() == 1
            &&& answers(
                writes.outbox[0],
                envelope,
                if verdict is Created {
                    "fulfilment.fulfilment_created"@
                } else {
                    "fulfilment.fulfilment_failed"@
                },
                "fulfilment"@,
                "fulfilment.events.v1"@,
                "fulfilment"@,
                ids.fulfilment,
                1,
                payload.order_id,
                ids.event,
                delivery.now,
            )
            &&& verdict is Created ==> writes.outbox[0].envelope.payload
                == EventPayloadView::FulfilmentCreated(
                FulfilmentCreatedPayload {
                    order_id: payload.order_id,
                    fulfilment_id: ids.fulfilment,
                },
            )
            &&& !(verdict is Created) ==> writes.outbox[0].envelope.payload
                == EventPayloadView::FulfilmentFailed(
                FulfilmentFailedView {
                    order_id: payload.order_id,
                    fulfilment_id: ids.fulfilment,
                    reason_code: reason,
                },
            )
        }),
{
    reveal_with_fuel(committed, 2);
}

/// A decision that was taken is told again, under the identifier that it was
/// given then and with its own reason, and nothing is recorded.
pub proof fn decided_fulfilments_are_told_again(
    delivery: DeliveryView,
    envelope: RawView,
    payload: CreateFulfilmentPayload,
    verdict: Verdict,
    row: FulfilmentView,
    ids: FulfilmentIds,
)
    ensures
        ({
            let handled = conclusion(delivery, envelope, payload, verdict, Some(row), ids);
            let writes = committed(handled.effects)->0;
            let reason = if row.failure_code is Some {
                row.failure_code->0
            } else if verdict is Exhausted {
                "FULFILMENT_RETRY_BUDGET_EXHAUSTED"@
            } else {
                "FULFILMENT_REJECTED"@
            };
            &&& applied_once(handled, delivery, envelope)
            &&& committed(handled.effects) is Some
            &&& writes.fulfilment is None
            &&& writes.outbox.len() == 1
            &&& answers(
                writes.outbox[0],
                envelope,
                if row.status is Created {
                    "fulfilment.fulfilment_created"@
                } else {
                    "fulfilment.fulfilment_failed"@
                },
                "fulfilment"@,
                "fulfilment.events.v1"@,
                "fulfilment"@,
                row.id,
                1,
                payload.order_id,
                ids.event,
                delivery.now,
            )
            &&& row.status is Created ==> writes.outbox[0].envelope.payload
                == EventPayloadView::FulfilmentCreated(
                FulfilmentCreatedPayload { order_id: payload.order_id, fulfilment_id: row.id },
            )
            &&& !(row.status is Created) ==> writes.outbox[0].envelope.payload
                == EventPayloadView::FulfilmentFailed(
                FulfilmentFailedView {
                    order_id: payload.order_id,
                    fulfilment_id: row.id,
                    reason_code: reason,
                },
            )
        }),
{
    reveal_with_fuel(committed, 2);
}

/// A first decision is recorded as it was taken, whatever it is.
pub proof fn first_decisions_are_recorded(
    id: u128,
    order_id: u128,
    reservation_id: u128,
    payment_id: u128,
    status: FulfilmentStatus,
    failure_code: Option<Seq<char>>,
    now: Timestamp,
)
    ensures
        ({
            let (told, stored) = recorded(
                None,
                id,
                order_id,
                reservation_id,
                payment_id,
                status,
                failure_code,
                now,
            );
            let row = stored->0;
            &&& told.created
            &&& told.fulfilment_id == id
            &&& told.status == status
            &&& told.failure_code == failure_code
            &&& stored is Some
            &&& row.id == id
            &&& row.order_id == order_id
            &&& row.reservation_id == reservation_id
            &&& row.payment_id == payment_id
            &&& row.status == status
            &&& row.failure_code == failure_code
            &&& row.version == 1
            &&& row.created_at == now
            &&& row.updated_at == now
        }),
{
}

/// A further decision changes nothing: what is told is the row as it stands.
pub proof fn further_decisions_repeat_the_first(
    row: FulfilmentView,
    id: u128,
    order_id: u128,
    reservation_id: u128,
    payment_id: u128,
    status: FulfilmentStatus,
    failure_code: Option<Seq<char>>,
    now: Timestamp,
)
    ensures
        ({
            let (told, stored) = recorded(
                Some(row),
                id,
                order_id,
                reservation_id,
                payment_id,
                status,
                failure_code,
                now,
            );
            &&& stored is None
            &&& !told.created
            &&& told.fulfilment_id == row.id
            &&& told.status == row.status
            &&& told.failure_code == row.failure_code
        }),
{
}

/// A command whose record can be read, which is new and next in line, is
/// tried with the header that it bears; one whose payload cannot be read
/// becomes a dead letter.
pub proof fn commands_in_line_are_tried(
    delivery: DeliveryView,
    header: EnvelopeView<()>,
    payload: Result<CreateFulfilmentPayload, Seq<char>>,
    facts: InboxFactsView,
    envelope: RawView,
)
    requires
        header.event_type == "fulfilment.create_fulfilment"@,
        in_line(delivery, header, facts, envelope),
    ensures
        ({
            let opened = opening(delivery, Ok(header), payload, facts);
            let effects = opened->Settled_0.effects;
            &&& payload is Ok ==> opened == OpeningView::Attempt(envelope)
            &&& payload matches Err(error) ==> {
                &&& opened is Settled
                &&& opened->Settled_0.outcome is Poison
                &&& effects.len() == 2
                &&& effects[0] is Rollback
                &&& effects[1] matches EffectView::PublishDlq(letter) && letter.error_code
                    == "MALFORMED_PAYLOAD"@ && letter.error_detail
                    == "payload did not match create_fulfilment shape: "@ + error
            }
        }),
{
    assert(delivery.envelope(header) == envelope);
}

/// No other event type is tried.
pub proof fn other_events_are_not_tried(
    delivery: DeliveryView,
    header: EnvelopeView<()>,
    payload: Result<CreateFulfilmentPayload, Seq<char>>,
    facts: InboxFactsView,
)
    requires
        header.event_type != "fulfilment.create_fulfilment"@ || header.schema_version != 1,
    ensures
        opening(delivery, Ok(header), payload, facts) is Settled,
        opening(delivery, Ok(header), payload, facts)->Settled_0.outcome is Poison,
{
}

/// A record is opened and settled for the fulfilment consumer, at the moment
/// that is given.
pub proof fn fulfilment_commands_are_handled_as_owed(
    source_topic: &str,
    record: &ConsumedRecord,
    header: &Result<Envelope<()>, String>,
    read: &Result<CreateFulfilmentPayload, String>,
    facts: &InboxFacts,
    opened: Opening,
    envelope: RawEnvelope,
    payload: &CreateFulfilmentPayload,
    verdict: Verdict,
    existing: Option<&FulfilmentRow>,
    ids: &FulfilmentIds,
    now: Timestamp,
    r: Handled<FulfilmentWrites>,
)
    ensures
        ({
            let delivery = DeliveryView {
                consumer: "fulfilment-consumer"@,
                source_topic: source_topic@,
                record: record@,
                now,
            };
            &&& call_ensures(open_record, (source_topic, record, header, read, facts, now), opened)
                ==> opened@ == opening(
                delivery,
                result_view(*header),
                payload_view(*read),
                facts@,
            )
            &&& call_ensures(
                conclude,
                (source_topic, record, envelope, payload, verdict, existing, ids, now),
                r,
            ) ==> r@ == conclusion(
                delivery,
                envelope@,
                *payload,
                verdict,
                opt_view(existing),
                *ids,
            )
        }),
{
}

/// A fulfilment is refused, and an attempt fails, exactly where the fault of
/// that name fires for the order; the fault then tells how long that takes.
pub proof fn attempts_fail_as_set_up(
    faults: &mut FaultInjector,
    order_id: u128,
    r: Result<(), Option<u64>>,
)
    ensures
        ({
            let subject = Some(uuid_text(order_id));
            &&& call_ensures(refused, (faults, order_id), r) ==> {
                let point = "fulfilment.permanent_failure"@;
                &&& r is Err <==> fires(old(faults)@, point, subject)
                &&& r is Err ==> r->Err_0 == old(faults)@[point].delay_ms
                &&& r is Ok ==> final(faults)@ == old(faults)@
            }
            &&& call_ensures(attempt, (faults, order_id), r) ==> {
                let point = "fulfilment.transient_failure"@;
                &&& r is Err <==> fires(old(faults)@, point, subject)
                &&& r is Err ==> r->Err_0 == old(faults)@[point].delay_ms
                &&& r is Ok ==> final(faults)@ == old(faults)@
            }
        }),
{
}

/// The report on a fulfilment names the order and the fulfilment.
pub proof fn fulfilment_reports_name_the_order(
    trigger: &RawEnvelope,
    order_id: u128,
    fulfilment_id: u128,
    reason: &str,
    event_id: u128,
    now: Timestamp,
    r: NewOutboxEvent,
)
    ensures
        call_ensures(
            build_created_event,
            (trigger, order_id, fulfilment_id, event_id, now),
            r,
        ) ==> {
            &&& r.message_key@ == uuid_text(order_id)
            &&& r.aggregate_id == fulfilment_id
            &&& r.envelope.payload matches EventPayload::FulfilmentCreated(told) && told.order_id
                == order_id && told.fulfilment_id == fulfilment_id
        },
        call_ensures(
            build_failed_event,
            (trigger, order_id, fulfilment_id, reason, event_id, now),
            r,
        ) ==> {
            &&& r.message_key@ == uuid_text(order_id)
            &&& r.aggregate_id == fulfilment_id
            &&& r.envelope.payload matches EventPayload::FulfilmentFailed(told) && told.order_id
                == order_id && told.fulfilment_id == fulfilment_id && told.reason_code@ == reason@
        },
{
    if call_ensures(build_created_event, (trigger, order_id, fulfilment_id, event_id, now), r) {
        assert(r@.envelope.payload is FulfilmentCreated);
    }
    if call_ensures(
        build_failed_event,
        (trigger, order_id, fulfilment_id, reason, event_id, now),
        r,
    ) {
        assert(r@.envelope.payload is FulfilmentFailed);
    }
}

/// A decision is recorded under the given identifier, for the order, the
/// reservation and the payment that are named, unless there is one: then that
/// one is told.
pub proof fn decisions_are_recorded_once(
    existing: Option<&FulfilmentRow>,
    id: u128,
    order_id: u128,
    reservation_id: u128,
    payment_id: u128,
    status: FulfilmentStatus,
    failure_code: Option<&str>,
    now: Timestamp,
    r: (RecordOutcome, Option<FulfilmentRow>),
)
    requires
        call_ensures(
            record_decision,
            (existing, id, order_id, reservation_id, payment_id, status, failure_code, now),
            r,
        ),
    ensures
        ({
            let (told, stored) = r;
            &&& told.created <==> existing is None
            &&& stored is Some <==> existing is None
            &&& existing is None ==> {
                &&& told.fulfilment_id == id
                &&& told.status == status
                &&& told.failure_code is Some <==> failure_code is Some
                &&& failure_code is Some ==> told.failure_code->0@ == failure_code->0@
                &&& stored->0.id == id
                &&& stored->0.order_id == order_id
                &&& stored->0.reservation_id == reservation_id
                &&& stored->0.payment_id == payment_id
                &&& stored->0.status == status
                &&& stored->0.version == 1
                &&& stored->0.created_at == now
            }
            &&& existing matches Some(row) ==> {
                &&& told.fulfilment_id == row.id
                &&& told.status == row.status
                &&& told.failure_code is Some <==> row.failure_code is Some
                &&& row.failure_code is Some ==> told.failure_code->0@ == row.failure_code->0@
            }
        }),
{
}

}
