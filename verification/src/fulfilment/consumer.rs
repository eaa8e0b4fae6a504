//! How the fulfilment service handles its command. A record is opened first;
//! where a fulfilment is to be tried, the attempts follow, and their verdict
//! settles the record.

use vstd::prelude::*;
use vstd::string::*;

use crate::consuming::{
    committed, dropped, result_view, taken_events_become_duplicates, Delivery, DeliveryView,
    Handled, HandledView, LedgerView, RawEnvelope, RawView,
};
use crate::contracts::fulfilment::{
    CreateFulfilmentPayload, FulfilmentCreatedPayload, FulfilmentFailedPayload,
    FulfilmentFailedView, CREATE_FULFILMENT_COMMAND_TYPE, CREATE_FULFILMENT_SCHEMA_VERSION,
    FULFILMENT_AGGREGATE_TYPE, FULFILMENT_CREATED_EVENT_TYPE, FULFILMENT_CREATED_SCHEMA_VERSION,
    FULFILMENT_EVENTS_TOPIC, FULFILMENT_FAILED_EVENT_TYPE, FULFILMENT_FAILED_SCHEMA_VERSION,
    FULFILMENT_PRODUCER_NAME,
};
use crate::contracts::{Envelope, EnvelopeView, EventPayload, EventPayloadView};
use crate::domain_common::is_version_7;
use crate::fulfilment::domain::FulfilmentStatus;
use crate::fulfilment::repository::{
    record_decision, recorded, FulfilmentRow, FulfilmentView, RecordView,
};
use crate::ids::{fresh_id, id_text};
use crate::messaging::ConsumedRecord;
use crate::model::{opt_view, views};
use crate::persistence::inbox::{InboxFacts, InboxFactsView};
use crate::persistence::outbox::{
    all_in_chain, build_reply, reply_to, MessageKind, NewOutboxEvent, OutboxView,
};
use crate::test_support::fault::{after_firing, fires, FaultInjector};
use crate::text::{text_eq, uuid_text};
use crate::time::Timestamp;

pub use crate::consuming::{HandleOutcome, ProcessSummary, SOURCE_PARTITION};
pub use crate::retry::RetryConfig;

verus! {

pub const CONSUMER_NAME: &'static str = "fulfilment-consumer";

pub const FAULT_AFTER_DB_COMMIT_BEFORE_OFFSET_COMMIT: &'static str =
    "fulfilment.after_db_commit_before_offset_commit";

pub const FAULT_PERMANENT_FAILURE: &'static str = "fulfilment.permanent_failure";

pub const FAULT_TRANSIENT_FAILURE: &'static str = "fulfilment.transient_failure";

/// What a command writes: the fulfilment, where it is new, and the report.
#[derive(Debug)]
pub struct FulfilmentWrites {
    pub fulfilment: Option<FulfilmentRow>,
    pub outbox: Vec<NewOutboxEvent>,
}

/// What [`FulfilmentWrites`] say.
pub struct FulfilmentWritesView {
    pub fulfilment: Option<FulfilmentView>,
    pub outbox: Seq<OutboxView>,
}

impl View for FulfilmentWrites {
    type V = FulfilmentWritesView;

    open spec fn view(&self) -> FulfilmentWritesView {
        FulfilmentWritesView {
            fulfilment: opt_view(self.fulfilment),
            outbox: views(self.outbox@),
        }
    }
}

/// The `fulfilment_created` event.
pub open spec fn created_event(
    trigger: RawView,
    order_id: u128,
    fulfilment_id: u128,
    event_id: u128,
    now: Timestamp,
) -> OutboxView {
    reply_to(
        trigger,
        MessageKind {
            event_type: FULFILMENT_CREATED_EVENT_TYPE,
            schema_version: FULFILMENT_CREATED_SCHEMA_VERSION,
            producer: FULFILMENT_PRODUCER_NAME,
            aggregate_type: FULFILMENT_AGGREGATE_TYPE,
            topic: FULFILMENT_EVENTS_TOPIC,
        },
        fulfilment_id,
        1,
        order_id,
        event_id,
        now,
        EventPayloadView::FulfilmentCreated(FulfilmentCreatedPayload { order_id, fulfilment_id }),
    )
}

/// Builds the `fulfilment_created` event.
pub fn build_created_event(
    trigger: &RawEnvelope,
    order_id: u128,
    fulfilment_id: u128,
    event_id: u128,
    now: Timestamp,
) -> (r: NewOutboxEvent)
    ensures
        r@ == created_event(trigger@, order_id, fulfilment_id, event_id, now),
{
    build_reply(
        trigger,
        MessageKind {
            event_type: FULFILMENT_CREATED_EVENT_TYPE,
            schema_version: FULFILMENT_CREATED_SCHEMA_VERSION,
            producer: FULFILMENT_PRODUCER_NAME,
            aggregate_type: FULFILMENT_AGGREGATE_TYPE,
            topic: FULFILMENT_EVENTS_TOPIC,
        },
        fulfilment_id,
        1,
        order_id,
        event_id,
        now,
        EventPayload::FulfilmentCreated(FulfilmentCreatedPayload { order_id, fulfilment_id }),
    )
}

/// The `fulfilment_failed` event.
pub open spec fn failed_event(
    trigger: RawView,
    order_id: u128,
    fulfilment_id: u128,
    reason_code: Seq<char>,
    event_id: u128,
    now: Timestamp,
) -> OutboxView {
    reply_to(
        trigger,
        MessageKind {
            event_type: FULFILMENT_FAILED_EVENT_TYPE,
            schema_version: FULFILMENT_FAILED_SCHEMA_VERSION,
            producer: FULFILMENT_PRODUCER_NAME,
            aggregate_type: FULFILMENT_AGGREGATE_TYPE,
            topic: FULFILMENT_EVENTS_TOPIC,
        },
        fulfilment_id,
        1,
        order_id,
        event_id,
        now,
        EventPayloadView::FulfilmentFailed(
            FulfilmentFailedView { order_id, fulfilment_id, reason_code },
        ),
    )
}

/// Builds the `fulfilment_failed` event.
pub fn build_failed_event(
    trigger: &RawEnvelope,
    order_id: u128,
    fulfilment_id: u128,
    reason_code: &str,
    event_id: u128,
    now: Timestamp,
) -> (r: NewOutboxEvent)
    ensures
        r@ == failed_event(trigger@, order_id, fulfilment_id, reason_code@, event_id, now),
{
    build_reply(
        trigger,
        MessageKind {
            event_type: FULFILMENT_FAILED_EVENT_TYPE,
            schema_version: FULFILMENT_FAILED_SCHEMA_VERSION,
            producer: FULFILMENT_PRODUCER_NAME,
            aggregate_type: FULFILMENT_AGGREGATE_TYPE,
            topic: FULFILMENT_EVENTS_TOPIC,
        },
        fulfilment_id,
        1,
        order_id,
        event_id,
        now,
        EventPayload::FulfilmentFailed(
            FulfilmentFailedPayload {
                order_id,
                fulfilment_id,
                reason_code: reason_code.to_owned(),
            },
        ),
    )
}

/// What opening a record comes to.
#[derive(Debug)]
pub enum Opening {
    /// The record is settled without an attempt.
    Settled(Handled<FulfilmentWrites>),
    /// The fulfilment is to be tried.
    Attempt(RawEnvelope),
}

/// What an [`Opening`] says.
pub enum OpeningView {
    Settled(HandledView<FulfilmentWritesView>),
    Attempt(RawView),
}

impl View for Opening {
    type V = OpeningView;

    open spec fn view(&self) -> OpeningView {
        match *self {
            Opening::Settled(handled) => OpeningView::Settled(handled@),
            Opening::Attempt(envelope) => OpeningView::Attempt(envelope@),
        }
    }
}

/// The version in which the command is understood, where the event type names
/// it.
pub open spec fn expected_schema(header: Result<EnvelopeView<()>, Seq<char>>) -> Option<u32> {
    match header {
        Ok(h) if h.event_type == CREATE_FULFILMENT_COMMAND_TYPE@ => Some(
            CREATE_FULFILMENT_SCHEMA_VERSION,
        ),
        _ => None,
    }
}

/// The version in which the command that a header names is understood.
pub fn expected_version(header: &Result<Envelope<()>, String>) -> (r: Option<u32>)
    ensures
        r == expected_schema(result_view(*header)),
{
    match header {
        Ok(h) => if text_eq(h.event_type.as_str(), CREATE_FULFILMENT_COMMAND_TYPE) {
            Some(CREATE_FULFILMENT_SCHEMA_VERSION)
        } else {
            None
        },
        Err(_) => None,
    }
}

/// How the fulfilment service opens one record, given what its inbox says.
pub open spec fn opening(
    delivery: DeliveryView,
    header: Result<EnvelopeView<()>, Seq<char>>,
    payload: Result<CreateFulfilmentPayload, Seq<char>>,
    facts: InboxFactsView,
) -> OpeningView {
    match delivery.screened::<FulfilmentWritesView>(header, expected_schema(header), true, facts) {
        Err(verdict) => OpeningView::Settled(verdict),
        Ok(envelope) => match payload {
            Err(error) => OpeningView::Settled(
                delivery.rejected(
                    envelope,
                    "MALFORMED_PAYLOAD"@,
                    "payload did not match create_fulfilment shape: "@ + error,
                ),
            ),
            Ok(_) => OpeningView::Attempt(envelope),
        },
    }
}

/// The view of the result of reading a payload.
pub open spec fn payload_view(payload: Result<CreateFulfilmentPayload, String>) -> Result<
    CreateFulfilmentPayload,
    Seq<char>,
> {
    match payload {
        Ok(p) => Ok(p),
        Err(error) => Err(error@),
    }
}

/// Opens one record.
pub fn open_record(
    source_topic: &str,
    record: &ConsumedRecord,
    header: &Result<Envelope<()>, String>,
    payload: &Result<CreateFulfilmentPayload, String>,
    facts: &InboxFacts,
    now: Timestamp,
) -> (r: Opening)
    ensures
        r@ == opening(
            DeliveryView {
                consumer: CONSUMER_NAME@,
                source_topic: source_topic@,
                record: record@,
                now,
            },
            result_view(*header),
            payload_view(*payload),
            facts@,
        ),
{
    let delivery = Delivery { consumer: CONSUMER_NAME, source_topic, record, now };
    let envelope: RawEnvelope = match delivery.screen(
        header,
        expected_version(header),
        true,
        facts,
    ) {
        Ok(envelope) => envelope,
        Err(handled) => {
            return Opening::Settled(handled);
        },
    };
    match payload {
        Err(error) => {
            let mut detail: String = "payload did not match create_fulfilment shape: ".to_owned();
            detail.append(error.as_str());
            Opening::Settled(delivery.reject(envelope, "MALFORMED_PAYLOAD", detail))
        },
        Ok(_) => Opening::Attempt(envelope),
    }
}

/// Whether a fulfilment is refused for good, and how long that takes.
pub fn refused(faults: &mut FaultInjector, order_id: u128) -> (r: Result<(), Option<u64>>)
    ensures
        ({
            let point = FAULT_PERMANENT_FAILURE@;
            let subject = Some(uuid_text(order_id));
            match r {
                Ok(()) => !fires(old(faults)@, point, subject) && final(faults)@ == old(faults)@,
                Err(delay) => {
                    &&& fires(old(faults)@, point, subject)
                    &&& delay == old(faults)@[point].delay_ms
                    &&& final(faults)@ == after_firing(old(faults)@, point)
                },
            }
        }),
{
    let subject: String = id_text(order_id);
    match faults.check(FAULT_PERMANENT_FAILURE, Some(subject.as_str())) {
        Ok(()) => Ok(()),
        Err((_, delay_ms)) => Err(delay_ms),
    }
}

/// One attempt at a fulfilment; where it fails, how long that takes.
pub fn attempt(faults: &mut FaultInjector, order_id: u128) -> (r: Result<(), Option<u64>>)
    ensures
        ({
            let point = FAULT_TRANSIENT_FAILURE@;
            let subject = Some(uuid_text(order_id));
            match r {
                Ok(()) => !fires(old(faults)@, point, subject) && final(faults)@ == old(faults)@,
                Err(delay) => {
                    &&& fires(old(faults)@, point, subject)
                    &&& delay == old(faults)@[point].delay_ms
                    &&& final(faults)@ == after_firing(old(faults)@, point)
                },
            }
        }),
{
    let subject: String = id_text(order_id);
    match faults.check(FAULT_TRANSIENT_FAILURE, Some(subject.as_str())) {
        Ok(()) => Ok(()),
        Err((_, delay_ms)) => Err(delay_ms),
    }
}

/// How the attempts ended.
#[derive(Debug, Clone, Copy, PartialEq, Eq, Structural)]
pub enum Verdict {
    /// One of them succeeded.
    Created,
    /// The fulfilment was refused for good.
    Rejected,
    /// The budget is spent.
    Exhausted,
}

impl Verdict {
    /// The status that the verdict leads to.
    pub open spec fn status(self) -> FulfilmentStatus {
        match self {
            Verdict::Created => FulfilmentStatus::Created,
            _ => FulfilmentStatus::Failed,
        }
    }

    /// The code of the failure.
    pub open spec fn code(self) -> Option<Seq<char>> {
        match self {
            Verdict::Created => None,
            Verdict::Rejected => Some("FULFILMENT_REJECTED"@),
            Verdict::Exhausted => Some("FULFILMENT_RETRY_BUDGET_EXHAUSTED"@),
        }
    }
}

/// Identifiers for what a command creates.
#[derive(Debug, Clone, Copy, PartialEq, Eq, Structural)]
pub struct FulfilmentIds {
    pub fulfilment: u128,
    pub event: u128,
}

impl FulfilmentIds {
    /// The identifiers are fresh ones.
    pub open spec fn drawn(self) -> bool {
        is_version_7(self.fulfilment) && is_version_7(self.event)
    }

    /// Draws fresh identifiers.
    pub fn draw() -> (r: FulfilmentIds)
        ensures
            r.drawn(),
    {
        FulfilmentIds { fulfilment: fresh_id(), event: fresh_id() }
    }
}

/// The report of a decision: that the fulfilment is created, or that it
/// failed and why. A failure that names no code is reported under the one of
/// the verdict.
pub open spec fn report(
    envelope: RawView,
    order_id: u128,
    decision: RecordView,
    verdict: Verdict,
    event_id: u128,
    now: Timestamp,
) -> OutboxView {
    match decision.status {
        FulfilmentStatus::Created => created_event(
            envelope,
            order_id,
            decision.fulfilment_id,
            event_id,
            now,
        ),
        _ => failed_event(
            envelope,
            order_id,
            decision.fulfilment_id,
            match (decision.failure_code, verdict) {
                (Some(code), _) => code,
                (None, Verdict::Exhausted) => "FULFILMENT_RETRY_BUDGET_EXHAUSTED"@,
                (None, _) => "FULFILMENT_REJECTED"@,
            },
            event_id,
            now,
        ),
    }
}

/// What a verdict comes to: the decision is stored, unless there is one
/// already, and the decision that stands is reported.
pub open spec fn conclusion(
    delivery: DeliveryView,
    envelope: RawView,
    payload: CreateFulfilmentPayload,
    verdict: Verdict,
    existing: Option<FulfilmentView>,
    ids: FulfilmentIds,
) -> HandledView<FulfilmentWritesView> {
    let now = delivery.now;
    let (outcome, row) = recorded(
        existing,
        ids.fulfilment,
        payload.order_id,
        payload.reservation_id,
        payload.payment_id,
        verdict.status(),
        verdict.code(),
        now,
    );
    let message = report(envelope, payload.order_id, outcome, verdict, ids.event, now);
    delivery.applied(envelope, FulfilmentWritesView { fulfilment: row, outbox: seq![message] })
}

/// Settles a record with the verdict of its attempts.
pub fn conclude(
    source_topic: &str,
    record: &ConsumedRecord,
    envelope: RawEnvelope,
    payload: &CreateFulfilmentPayload,
    verdict: Verdict,
    existing: Option<&FulfilmentRow>,
    ids: &FulfilmentIds,
    now: Timestamp,
) -> (r: Handled<FulfilmentWrites>)
    ensures
        r@ == conclusion(
            DeliveryView {
                consumer: CONSUMER_NAME@,
                source_topic: source_topic@,
                record: record@,
                now,
            },
            envelope@,
            *payload,
            verdict,
            opt_view(existing),
            *ids,
        ),
{
    let delivery = Delivery { consumer: CONSUMER_NAME, source_topic, record, now };
    let (status, code): (FulfilmentStatus, Option<&'static str>) = match verdict {
        Verdict::Created => (FulfilmentStatus::Created, None),
        Verdict::Rejected => (FulfilmentStatus::Failed, Some("FULFILMENT_REJECTED")),
        Verdict::Exhausted => (
            FulfilmentStatus::Failed,
            Some("FULFILMENT_RETRY_BUDGET_EXHAUSTED"),
        ),
    };
    let (outcome, fulfilment) = record_decision(
        existing,
        ids.fulfilment,
        payload.order_id,
        payload.reservation_id,
        payload.payment_id,
        status,
        code,
        now,
    );
    let message: NewOutboxEvent = match outcome.status {
        FulfilmentStatus::Created => build_created_event(
            &envelope,
            payload.order_id,
            outcome.fulfilment_id,
            ids.event,
            now,
        ),
        _ => {
            let reason: String = match &outcome.failure_code {
                Some(code) => code.clone(),
                None => match verdict {
                    Verdict::Exhausted => "FULFILMENT_RETRY_BUDGET_EXHAUSTED".to_owned(),
                    _ => "FULFILMENT_REJECTED".to_owned(),
                },
            };
            build_failed_event(
                &envelope,
                payload.order_id,
                outcome.fulfilment_id,
                reason.as_str(),
                ids.event,
                now,
            )
        },
    };
    let ghost shown = seq![message@];
    let mut outbox: Vec<NewOutboxEvent> = Vec::new();
    outbox.push(message);
    assert(views(outbox@) =~= shown);
    delivery.apply(&envelope, FulfilmentWrites { fulfilment, outbox })
}

/// A fulfilment that is decided stays decided: whatever the verdict of later
/// attempts, nothing is stored and the report repeats the decision that
/// stands.
pub proof fn decided_fulfilments_are_reported_as_decided(
    delivery: DeliveryView,
    envelope: RawView,
    payload: CreateFulfilmentPayload,
    verdict: Verdict,
    row: FulfilmentView,
    ids: FulfilmentIds,
)
    ensures
        ({
            let settled = conclusion(delivery, envelope, payload, verdict, Some(row), ids);
            let written = committed(settled.effects);
            &&& written is Some
            &&& written->0.fulfilment is None
            &&& written->0.outbox.len() == 1
            &&& row.status is Created ==> written->0.outbox[0] == created_event(
                envelope,
                payload.order_id,
                row.id,
                ids.event,
                delivery.now,
            )
            &&& !(row.status is Created) && row.failure_code is Some ==> written->0.outbox[0]
                == failed_event(
                envelope,
                payload.order_id,
                row.id,
                row.failure_code->0,
                ids.event,
                delivery.now,
            )
        }),
{
    reveal_with_fuel(committed, 2);
}

/// The verdict decides an order's first fulfilment: it is stored with the
/// verdict's status and code, and reported so.
pub proof fn new_fulfilments_follow_the_verdict(
    delivery: DeliveryView,
    envelope: RawView,
    payload: CreateFulfilmentPayload,
    verdict: Verdict,
    ids: FulfilmentIds,
)
    ensures
        ({
            let settled = conclusion(delivery, envelope, payload, verdict, None, ids);
            let written = committed(settled.effects);
            &&& written is Some
            &&& written->0.fulfilment matches Some(row) && row.id == ids.fulfilment && row.status
                == verdict.status() && row.failure_code == verdict.code()
            &&& written->0.outbox == seq![
                match verdict.code() {
                    None => created_event(
                        envelope,
                        payload.order_id,
                        ids.fulfilment,
                        ids.event,
                        delivery.now,
                    ),
                    Some(code) => failed_event(
                        envelope,
                        payload.order_id,
                        ids.fulfilment,
                        code,
                        ids.event,
                        delivery.now,
                    ),
                },
            ]
        }),
{
    reveal_with_fuel(committed, 2);
}

/// The report of the service carries the correlation and the trace of its
/// command and names it as its cause; and the command is a duplicate from
/// then on.
pub proof fn settled_commands_report_once(
    delivery: DeliveryView,
    again: DeliveryView,
    header: EnvelopeView<()>,
    payload: CreateFulfilmentPayload,
    later: Result<CreateFulfilmentPayload, Seq<char>>,
    verdict: Verdict,
    existing: Option<FulfilmentView>,
    ledger: LedgerView,
    ids: FulfilmentIds,
)
    requires
        again.consumer == delivery.consumer,
        again.record.value == delivery.record.value,
        delivery.readable(),
        expected_schema(Ok(header)) == Some(header.schema_version),
    ensures
        ({
            let envelope = delivery.envelope(header);
            let settled = conclusion(delivery, envelope, payload, verdict, existing, ids);
            &&& settled.effects.len() == 1
            &&& settled.effects[0] is Commit
            &&& settled.effects[0]->Commit_0.writes is Some
            &&& settled.effects[0]->Commit_0.writes->0.outbox.len() == 1
            &&& all_in_chain(envelope, settled.effects[0]->Commit_0.writes->0.outbox)
            &&& opening(
                again,
                Ok(header),
                later,
                ledger.after_all(settled.effects).facts(envelope),
            ) == OpeningView::Settled(dropped())
        }),
{
    let envelope = delivery.envelope(header);
    let settled = conclusion(delivery, envelope, payload, verdict, existing, ids);
    taken_events_become_duplicates::<FulfilmentWritesView>(
        delivery,
        again,
        header,
        expected_schema(Ok(header)),
        true,
        ledger,
        settled.effects,
        0,
    );
}

}
