//! How the payments service handles its commands. A record is opened first:
//! it is settled at once, or the provider has to be asked. The provider's
//! final answer, or the lack of one, then settles it.

use vstd::prelude::*;
use vstd::string::*;

use crate::consuming::{
    committed, dropped, result_view, stopped_records_write_nothing, taken_events_become_duplicates,
    Delivery, DeliveryView, Handled, HandledView, LedgerView, RawEnvelope, RawView,
};
use crate::contracts::payments::{
    AuthorizePaymentPayload, AuthorizePaymentView, PaymentAuthorizedPayload, PaymentAuthorizedView,
    PaymentFailedPayload, PaymentFailedView, PaymentRefundedPayload, RefundFailedPayload,
    RefundFailedView, RefundPaymentPayload, RefundPaymentView, AUTHORIZE_PAYMENT_COMMAND_TYPE,
    AUTHORIZE_PAYMENT_SCHEMA_VERSION, PAYMENTS_EVENTS_TOPIC, PAYMENTS_PRODUCER_NAME,
    PAYMENT_AGGREGATE_TYPE, PAYMENT_AUTHORIZED_EVENT_TYPE, PAYMENT_AUTHORIZED_SCHEMA_VERSION,
    PAYMENT_FAILED_EVENT_TYPE, PAYMENT_FAILED_SCHEMA_VERSION, PAYMENT_REFUNDED_EVENT_TYPE,
    PAYMENT_REFUNDED_SCHEMA_VERSION, REFUND_FAILED_EVENT_TYPE, REFUND_FAILED_SCHEMA_VERSION,
    REFUND_PAYMENT_COMMAND_TYPE, REFUND_PAYMENT_SCHEMA_VERSION,
};
use crate::contracts::{Envelope, EnvelopeView, EventPayload, EventPayloadView};
use crate::domain_common::is_version_7;
use crate::ids::{fresh_id, id_text};
use crate::messaging::ConsumedRecord;
use crate::model::{opt_view, views};
use crate::payments::domain::{
    authorize_idempotency_key, authorize_key, refund_idempotency_key, refund_key, OperationStatus,
    OperationType, PaymentStatus,
};
use crate::payments::provider::{OutcomeView, ProviderOutcome};
use crate::payments::repository::{
    authorized_payment, declined_payment, operation_recorded, record_authorized, record_declined,
    record_operation, record_refunded, refunded_payment, OperationRow, OperationView, PaymentRow,
    PaymentView,
};
use crate::persistence::inbox::{InboxFacts, InboxFactsView};
use crate::persistence::outbox::{
    all_in_chain, build_reply, reply_to, MessageKind, NewOutboxEvent, OutboxView,
};
use crate::text::{text_eq, uuid_text};
use crate::time::Timestamp;

pub use crate::consuming::{HandleOutcome, ProcessSummary, SOURCE_PARTITION};
pub use crate::retry::RetryConfig;

verus! {

pub const CONSUMER_NAME: &'static str = "payments-consumer";

pub const FAULT_AFTER_DB_COMMIT_BEFORE_OFFSET_COMMIT: &'static str =
    "payments.after_db_commit_before_offset_commit";

/// The commands of the payments service.
#[derive(Debug, Clone, Copy, PartialEq, Eq, Structural)]
pub enum CommandKind {
    AuthorizePayment,
    RefundPayment,
}

/// The command that an event type names.
pub open spec fn command_named(event_type: Seq<char>) -> Option<CommandKind> {
    if event_type == AUTHORIZE_PAYMENT_COMMAND_TYPE@ {
        Some(CommandKind::AuthorizePayment)
    } else if event_type == REFUND_PAYMENT_COMMAND_TYPE@ {
        Some(CommandKind::RefundPayment)
    } else {
        None
    }
}

/// The command that an event type names.
pub fn command_kind(event_type: &str) -> (r: Option<CommandKind>)
    ensures
        r == command_named(event_type@),
{
    if text_eq(event_type, AUTHORIZE_PAYMENT_COMMAND_TYPE) {
        Some(CommandKind::AuthorizePayment)
    } else if text_eq(event_type, REFUND_PAYMENT_COMMAND_TYPE) {
        Some(CommandKind::RefundPayment)
    } else {
        None
    }
}

/// The version in which a command is understood.
pub open spec fn command_schema(kind: CommandKind) -> u32 {
    match kind {
        CommandKind::AuthorizePayment => AUTHORIZE_PAYMENT_SCHEMA_VERSION,
        CommandKind::RefundPayment => REFUND_PAYMENT_SCHEMA_VERSION,
    }
}

/// The version in which the record is understood, where its event type names
/// a command.
pub open spec fn expected_schema(header: Result<EnvelopeView<()>, Seq<char>>) -> Option<u32> {
    match header {
        Ok(h) => match command_named(h.event_type) {
            Some(kind) => Some(command_schema(kind)),
            None => None,
        },
        Err(_) => None,
    }
}

/// The version in which the command that a header names is understood.
pub fn expected_version(header: &Result<Envelope<()>, String>) -> (r: Option<u32>)
    ensures
        r == expected_schema(result_view(*header)),
{
    match header {
        Ok(h) => match command_kind(h.event_type.as_str()) {
            Some(CommandKind::AuthorizePayment) => Some(AUTHORIZE_PAYMENT_SCHEMA_VERSION),
            Some(CommandKind::RefundPayment) => Some(REFUND_PAYMENT_SCHEMA_VERSION),
            None => None,
        },
        Err(_) => None,
    }
}

/// The name of a command's shape.
pub open spec fn command_shape(kind: CommandKind) -> Seq<char> {
    match kind {
        CommandKind::AuthorizePayment => "authorize_payment"@,
        CommandKind::RefundPayment => "refund_payment"@,
    }
}

/// A command of the payments service.
#[derive(Debug)]
pub enum Command {
    Authorize(AuthorizePaymentPayload),
    Refund(RefundPaymentPayload),
}

/// What a [`Command`] says.
pub enum CommandView {
    Authorize(AuthorizePaymentView),
    Refund(RefundPaymentView),
}

impl View for Command {
    type V = CommandView;

    open spec fn view(&self) -> CommandView {
        match *self {
            Command::Authorize(p) => CommandView::Authorize(p@),
            Command::Refund(p) => CommandView::Refund(p@),
        }
    }
}

/// The kind of a command.
pub open spec fn command_of(command: CommandView) -> CommandKind {
    match command {
        CommandView::Authorize(_) => CommandKind::AuthorizePayment,
        CommandView::Refund(_) => CommandKind::RefundPayment,
    }
}

/// What a command writes: the payment, the operation and the report.
#[derive(Debug)]
pub struct PaymentWrites {
    pub payment: Option<PaymentRow>,
    pub operation: Option<OperationRow>,
    pub outbox: Vec<NewOutboxEvent>,
}

/// What [`PaymentWrites`] say.
pub struct PaymentWritesView {
    pub payment: Option<PaymentView>,
    pub operation: Option<OperationView>,
    pub outbox: Seq<OutboxView>,
}

impl View for PaymentWrites {
    type V = PaymentWritesView;

    open spec fn view(&self) -> PaymentWritesView {
        PaymentWritesView {
            payment: opt_view(self.payment),
            operation: opt_view(self.operation),
            outbox: views(self.outbox@),
        }
    }
}

/// Nothing but the inbox entry is written.
pub open spec fn no_writes() -> PaymentWritesView {
    PaymentWritesView { payment: None, operation: None, outbox: Seq::empty() }
}

fn write_nothing() -> (r: PaymentWrites)
    ensures
        r@ == no_writes(),
{
    let outbox: Vec<NewOutboxEvent> = Vec::new();
    assert(views(outbox@) =~= Seq::<OutboxView>::empty());
    PaymentWrites { payment: None, operation: None, outbox }
}

/// The payment, the operation and one message.
fn write_all(payment: Option<PaymentRow>, operation: Option<OperationRow>, message: NewOutboxEvent) -> (r:
    PaymentWrites)
    ensures
        r@ == (PaymentWritesView {
            payment: opt_view(payment),
            operation: opt_view(operation),
            outbox: seq![message@],
        }),
{
    let ghost shown = seq![message@];
    let mut outbox: Vec<NewOutboxEvent> = Vec::new();
    outbox.push(message);
    assert(views(outbox@) =~= shown);
    PaymentWrites { payment, operation, outbox }
}

/// The `payment_authorized` event.
pub open spec fn authorized_event(
    trigger: RawView,
    payload: AuthorizePaymentView,
    provider_reference: Seq<char>,
    event_id: u128,
    now: Timestamp,
) -> OutboxView {
    reply_to(
        trigger,
        MessageKind {
            event_type: PAYMENT_AUTHORIZED_EVENT_TYPE,
            schema_version: PAYMENT_AUTHORIZED_SCHEMA_VERSION,
            producer: PAYMENTS_PRODUCER_NAME,
            aggregate_type: PAYMENT_AGGREGATE_TYPE,
            topic: PAYMENTS_EVENTS_TOPIC,
        },
        payload.payment_id,
        1,
        payload.order_id,
        event_id,
        now,
        EventPayloadView::PaymentAuthorized(
            PaymentAuthorizedView {
                order_id: payload.order_id,
                payment_id: payload.payment_id,
                provider_reference,
            },
        ),
    )
}

/// Builds the `payment_authorized` event.
pub fn build_authorized_event(
    trigger: &RawEnvelope,
    payload: &AuthorizePaymentPayload,
    provider_reference: &str,
    event_id: u128,
    now: Timestamp,
) -> (r: NewOutboxEvent)
    ensures
        r@ == authorized_event(trigger@, payload@, provider_reference@, event_id, now),
{
    build_reply(
        trigger,
        MessageKind {
            event_type: PAYMENT_AUTHORIZED_EVENT_TYPE,
            schema_version: PAYMENT_AUTHORIZED_SCHEMA_VERSION,
            producer: PAYMENTS_PRODUCER_NAME,
            aggregate_type: PAYMENT_AGGREGATE_TYPE,
            topic: PAYMENTS_EVENTS_TOPIC,
        },
        payload.payment_id,
        1,
        payload.order_id,
        event_id,
        now,
        EventPayload::PaymentAuthorized(
            PaymentAuthorizedPayload {
                order_id: payload.order_id,
                payment_id: payload.payment_id,
                provider_reference: provider_reference.to_owned(),
            },
        ),
    )
}

/// The `payment_failed` event.
pub open spec fn failed_event(
    trigger: RawView,
    payload: AuthorizePaymentView,
    reason_code: Seq<char>,
    event_id: u128,
    now: Timestamp,
) -> OutboxView {
    reply_to(
        trigger,
        MessageKind {
            event_type: PAYMENT_FAILED_EVENT_TYPE,
            schema_version: PAYMENT_FAILED_SCHEMA_VERSION,
            producer: PAYMENTS_PRODUCER_NAME,
            aggregate_type: PAYMENT_AGGREGATE_TYPE,
            topic: PAYMENTS_EVENTS_TOPIC,
        },
        payload.payment_id,
        1,
        payload.order_id,
        event_id,
        now,
        EventPayloadView::PaymentFailed(
            PaymentFailedView {
                order_id: payload.order_id,
                payment_id: payload.payment_id,
                reason_code,
            },
        ),
    )
}

/// Builds the `payment_failed` event.
pub fn build_failed_event(
    trigger: &RawEnvelope,
    payload: &AuthorizePaymentPayload,
    reason_code: &str,
    event_id: u128,
    now: Timestamp,
) -> (r: NewOutboxEvent)
    ensures
        r@ == failed_event(trigger@, payload@, reason_code@, event_id, now),
{
    build_reply(
        trigger,
        MessageKind {
            event_type: PAYMENT_FAILED_EVENT_TYPE,
            schema_version: PAYMENT_FAILED_SCHEMA_VERSION,
            producer: PAYMENTS_PRODUCER_NAME,
            aggregate_type: PAYMENT_AGGREGATE_TYPE,
            topic: PAYMENTS_EVENTS_TOPIC,
        },
        payload.payment_id,
        1,
        payload.order_id,
        event_id,
        now,
        EventPayload::PaymentFailed(
            PaymentFailedPayload {
                order_id: payload.order_id,
                payment_id: payload.payment_id,
                reason_code: reason_code.to_owned(),
            },
        ),
    )
}

/// The `payment_refunded` event.
pub open spec fn refunded_event(
    trigger: RawView,
    payload: RefundPaymentView,
    event_id: u128,
    now: Timestamp,
) -> OutboxView {
    reply_to(
        trigger,
        MessageKind {
            event_type: PAYMENT_REFUNDED_EVENT_TYPE,
            schema_version: PAYMENT_REFUNDED_SCHEMA_VERSION,
            producer: PAYMENTS_PRODUCER_NAME,
            aggregate_type: PAYMENT_AGGREGATE_TYPE,
            topic: PAYMENTS_EVENTS_TOPIC,
        },
        payload.payment_id,
        2,
        payload.order_id,
        event_id,
        now,
        EventPayloadView::PaymentRefunded(
            PaymentRefundedPayload { order_id: payload.order_id, payment_id: payload.payment_id },
        ),
    )
}

/// Builds the `payment_refunded` event.
pub fn build_refunded_event(
    trigger: &RawEnvelope,
    payload: &RefundPaymentPayload,
    event_id: u128,
    now: Timestamp,
) -> (r: NewOutboxEvent)
    ensures
        r@ == refunded_event(trigger@, payload@, event_id, now),
{
    build_reply(
        trigger,
        MessageKind {
            event_type: PAYMENT_REFUNDED_EVENT_TYPE,
            schema_version: PAYMENT_REFUNDED_SCHEMA_VERSION,
            producer: PAYMENTS_PRODUCER_NAME,
            aggregate_type: PAYMENT_AGGREGATE_TYPE,
            topic: PAYMENTS_EVENTS_TOPIC,
        },
        payload.payment_id,
        2,
        payload.order_id,
        event_id,
        now,
        EventPayload::PaymentRefunded(
            PaymentRefundedPayload { order_id: payload.order_id, payment_id: payload.payment_id },
        ),
    )
}

/// The `refund_failed` event.
pub open spec fn refund_failed_event(
    trigger: RawView,
    payload: RefundPaymentView,
    event_id: u128,
    now: Timestamp,
) -> OutboxView {
    reply_to(
        trigger,
        MessageKind {
            event_type: REFUND_FAILED_EVENT_TYPE,
            schema_version: REFUND_FAILED_SCHEMA_VERSION,
            producer: PAYMENTS_PRODUCER_NAME,
            aggregate_type: PAYMENT_AGGREGATE_TYPE,
            topic: PAYMENTS_EVENTS_TOPIC,
        },
        payload.payment_id,
        2,
        payload.order_id,
        event_id,
        now,
        EventPayloadView::RefundFailed(
            RefundFailedView {
                order_id: payload.order_id,
                payment_id: payload.payment_id,
                reason_code: "REFUND_RETRY_BUDGET_EXHAUSTED"@,
            },
        ),
    )
}

/// Builds the `refund_failed` event.
pub fn build_refund_failed_event(
    trigger: &RawEnvelope,
    payload: &RefundPaymentPayload,
    event_id: u128,
    now: Timestamp,
) -> (r: NewOutboxEvent)
    ensures
        r@ == refund_failed_event(trigger@, payload@, event_id, now),
{
    build_reply(
        trigger,
        MessageKind {
            event_type: REFUND_FAILED_EVENT_TYPE,
            schema_version: REFUND_FAILED_SCHEMA_VERSION,
            producer: PAYMENTS_PRODUCER_NAME,
            aggregate_type: PAYMENT_AGGREGATE_TYPE,
            topic: PAYMENTS_EVENTS_TOPIC,
        },
        payload.payment_id,
        2,
        payload.order_id,
        event_id,
        now,
        EventPayload::RefundFailed(
            RefundFailedPayload {
                order_id: payload.order_id,
                payment_id: payload.payment_id,
                reason_code: "REFUND_RETRY_BUDGET_EXHAUSTED".to_owned(),
            },
        ),
    )
}

/// The words for a refund of an order that has no payment.
pub open spec fn no_payment_words(order_id: u128) -> Seq<char> {
    "refund_payment for order "@ + uuid_text(order_id) + " with no existing payment row"@
}

fn no_payment_detail(order_id: u128) -> (r: String)
    ensures
        r@ == no_payment_words(order_id),
{
    let mut out: String = "refund_payment for order ".to_owned();
    out.append(id_text(order_id).as_str());
    out.append(" with no existing payment row");
    out
}

/// What opening a record comes to.
#[derive(Debug)]
pub enum Opening {
    /// The record is settled without the provider.
    Settled(Handled<PaymentWrites>),
    /// The provider is to authorize under the key.
    Authorize { envelope: RawEnvelope, idempotency_key: String },
    /// The provider is to refund under the key.
    Refund { envelope: RawEnvelope, idempotency_key: String, provider_reference: String },
}

/// What an [`Opening`] says.
pub enum OpeningView {
    Settled(HandledView<PaymentWritesView>),
    Authorize { envelope: RawView, idempotency_key: Seq<char> },
    Refund { envelope: RawView, idempotency_key: Seq<char>, provider_reference: Seq<char> },
}

impl View for Opening {
    type V = OpeningView;

    open spec fn view(&self) -> OpeningView {
        match *self {
            Opening::Settled(handled) => OpeningView::Settled(handled@),
            Opening::Authorize { envelope, idempotency_key } => (OpeningView::Authorize {
                envelope: envelope@,
                idempotency_key: idempotency_key@,
            }),
            Opening::Refund { envelope, idempotency_key, provider_reference } => (
            OpeningView::Refund {
                envelope: envelope@,
                idempotency_key: idempotency_key@,
                provider_reference: provider_reference@,
            }),
        }
    }
}

/// What a command comes to, given the payment of its order: an order that has
/// one is not charged again, a refunded one is not refunded again, and a
/// refund without a payment is put aside.
pub open spec fn command_opening(
    delivery: DeliveryView,
    envelope: RawView,
    payload: CommandView,
    payment: Option<PaymentView>,
) -> OpeningView {
    match payload {
        CommandView::Authorize(p) => match payment {
            Some(_) => OpeningView::Settled(delivery.applied(envelope, no_writes())),
            None => OpeningView::Authorize {
                envelope,
                idempotency_key: authorize_key(p.order_id),
            },
        },
        CommandView::Refund(p) => match payment {
            None => OpeningView::Settled(
                delivery.rejected(envelope, "UNKNOWN_ORDER"@, no_payment_words(p.order_id)),
            ),
            Some(row) => if row.status is Refunded {
                OpeningView::Settled(delivery.applied(envelope, no_writes()))
            } else {
                OpeningView::Refund {
                    envelope,
                    idempotency_key: refund_key(p.order_id),
                    provider_reference: match row.provider_reference {
                        Some(reference) => reference,
                        None => Seq::empty(),
                    },
                }
            },
        },
    }
}

/// How the payments service opens one record, given what its tables say.
pub open spec fn opening(
    delivery: DeliveryView,
    header: Result<EnvelopeView<()>, Seq<char>>,
    payload: Result<CommandView, Seq<char>>,
    facts: InboxFactsView,
    payment: Option<PaymentView>,
) -> OpeningView {
    match delivery.screened::<PaymentWritesView>(header, expected_schema(header), false, facts) {
        Err(verdict) => OpeningView::Settled(verdict),
        Ok(envelope) => match payload {
            Err(error) => OpeningView::Settled(
                delivery.rejected(
                    envelope,
                    "MALFORMED_PAYLOAD"@,
                    "payload did not match "@ + command_shape(command_named(envelope.event_type)->0)
                        + " shape: "@ + error,
                ),
            ),
            Ok(p) => command_opening(delivery, envelope, p, payment),
        },
    }
}

/// The payload, where it was read, has the shape that the event type names.
pub open spec fn payload_fits(
    header: Result<EnvelopeView<()>, Seq<char>>,
    payload: Result<CommandView, Seq<char>>,
) -> bool {
    header matches Ok(h) ==> command_named(h.event_type) is Some ==> (payload matches Ok(p)
        ==> command_named(h.event_type) == Some(command_of(p)))
}

/// The view of the result of reading a payload.
pub open spec fn payload_view(payload: Result<Command, String>) -> Result<
    CommandView,
    Seq<char>,
> {
    match payload {
        Ok(p) => Ok(p@),
        Err(error) => Err(error@),
    }
}

/// Opens one record: what its header and payload read, what the inbox says of
/// it, and the payment of the order that it names come in.
pub fn open_record(
    source_topic: &str,
    record: &ConsumedRecord,
    header: &Result<Envelope<()>, String>,
    payload: &Result<Command, String>,
    facts: &InboxFacts,
    payment: Option<&PaymentRow>,
    now: Timestamp,
) -> (r: Opening)
    requires
        payload_fits(result_view(*header), payload_view(*payload)),
    ensures
        r@ == opening(
            DeliveryView {
                consumer: CONSUMER_NAME@,
                source_topic: source_topic@,
                record: record@,
                now,
            },
            result_view(*header),
            payload_view(*payload),
            facts@,
            opt_view(payment),
        ),
{
    let delivery = Delivery { consumer: CONSUMER_NAME, source_topic, record, now };
    let kind: Option<CommandKind> = match header {
        Ok(h) => command_kind(h.event_type.as_str()),
        Err(_) => None,
    };
    let envelope: RawEnvelope = match delivery.screen(
        header,
        expected_version(header),
        false,
        facts,
    ) {
        Ok(envelope) => envelope,
        Err(handled) => {
            return Opening::Settled(handled);
        },
    };
    match payload {
        Err(error) => {
            let mut detail: String = "payload did not match ".to_owned();
            match kind {
                Some(CommandKind::AuthorizePayment) => detail.append("authorize_payment"),
                Some(CommandKind::RefundPayment) => detail.append("refund_payment"),
                None => {},
            }
            detail.append(" shape: ");
            detail.append(error.as_str());
            Opening::Settled(delivery.reject(envelope, "MALFORMED_PAYLOAD", detail))
        },
        Ok(Command::Authorize(p)) => match payment {
            Some(_) => Opening::Settled(delivery.apply(&envelope, write_nothing())),
            None => Opening::Authorize {
                envelope,
                idempotency_key: authorize_idempotency_key(p.order_id),
            },
        },
        Ok(Command::Refund(p)) => match payment {
            None => Opening::Settled(
                delivery.reject(envelope, "UNKNOWN_ORDER", no_payment_detail(p.order_id)),
            ),
            Some(row) => {
                if row.status == PaymentStatus::Refunded {
                    return Opening::Settled(delivery.apply(&envelope, write_nothing()));
                }
                let provider_reference: String = match &row.provider_reference {
                    Some(reference) => reference.clone(),
                    None => String::new(),
                };
                Opening::Refund {
                    envelope,
                    idempotency_key: refund_idempotency_key(p.order_id),
                    provider_reference,
                }
            },
        },
    }
}

/// Identifiers for what a command creates.
#[derive(Debug, Clone, Copy, PartialEq, Eq, Structural)]
pub struct PaymentIds {
    pub operation: u128,
    pub event: u128,
}

impl PaymentIds {
    /// The identifiers are fresh ones.
    pub open spec fn drawn(self) -> bool {
        is_version_7(self.operation) && is_version_7(self.event)
    }

    /// Draws fresh identifiers.
    pub fn draw() -> (r: PaymentIds)
        ensures
            r.drawn(),
    {
        PaymentIds { operation: fresh_id(), event: fresh_id() }
    }
}

/// The provider's final answer to an authorization, and the number of
/// attempts that it took.
#[derive(Debug)]
pub struct FinalAnswer {
    pub outcome: ProviderOutcome,
    pub attempts: u32,
}

/// What an authorization comes to: the payment, the operation and the report
/// are written; without an answer the command becomes a dead letter, and its
/// inbox entry is kept.
pub open spec fn authorize_conclusion(
    delivery: DeliveryView,
    envelope: RawView,
    payload: AuthorizePaymentView,
    answer: Option<(OutcomeView, u32)>,
    operation: Option<OperationView>,
    ids: PaymentIds,
) -> HandledView<PaymentWritesView> {
    let now = delivery.now;
    match answer {
        None => delivery.shelved(
            envelope,
            "PROVIDER_RETRY_BUDGET_EXHAUSTED"@,
            "authorize_payment for order "@ + uuid_text(payload.order_id)
                + " exhausted its retry budget against the provider"@,
        ),
        Some((outcome, attempts)) => {
            let (payment, status, message) = match outcome {
                OutcomeView::Authorized { provider_reference } => (
                    authorized_payment(
                        payload.payment_id,
                        payload.order_id,
                        payload.amount.currency,
                        payload.amount.minor_units,
                        provider_reference,
                        now,
                    ),
                    OperationStatus::Succeeded,
                    authorized_event(envelope, payload, provider_reference, ids.event, now),
                ),
                OutcomeView::Declined { reason_code } => (
                    declined_payment(
                        payload.payment_id,
                        payload.order_id,
                        payload.amount.currency,
                        payload.amount.minor_units,
                        reason_code,
                        now,
                    ),
                    OperationStatus::Failed,
                    failed_event(envelope, payload, reason_code, ids.event, now),
                ),
            };
            delivery.applied(
                envelope,
                PaymentWritesView {
                    payment: Some(payment),
                    operation: Some(
                        operation_recorded(
                            operation,
                            ids.operation,
                            payload.payment_id,
                            OperationType::Authorize,
                            authorize_key(payload.order_id),
                            status,
                            attempts as i32,
                            now,
                        ),
                    ),
                    outbox: seq![message],
                },
            )
        },
    }
}

/// The view of a final answer.
pub open spec fn answer_view(answer: Option<FinalAnswer>) -> Option<(OutcomeView, u32)> {
    match answer {
        Some(a) => Some((a.outcome@, a.attempts)),
        None => None,
    }
}

/// Settles an authorization with the provider's final answer, or without one
/// where its budget is spent.
pub fn handle_authorize(
    source_topic: &str,
    record: &ConsumedRecord,
    envelope: RawEnvelope,
    payload: &AuthorizePaymentPayload,
    answer: Option<FinalAnswer>,
    operation: Option<OperationRow>,
    ids: &PaymentIds,
    now: Timestamp,
) -> (r: Handled<PaymentWrites>)
    requires
        answer matches Some(a) ==> a.attempts <= i32::MAX && (operation matches Some(row)
            ==> i32::MIN <= row.attempts + a.attempts <= i32::MAX),
    ensures
        r@ == authorize_conclusion(
            DeliveryView {
                consumer: CONSUMER_NAME@,
                source_topic: source_topic@,
                record: record@,
                now,
            },
            envelope@,
            payload@,
            answer_view(answer),
            opt_view(operation),
            *ids,
        ),
{
    let delivery = Delivery { consumer: CONSUMER_NAME, source_topic, record, now };
    let answer: FinalAnswer = match answer {
        Some(answer) => answer,
        None => {
            let mut detail: String = "authorize_payment for order ".to_owned();
            detail.append(id_text(payload.order_id).as_str());
            detail.append(" exhausted its retry budget against the provider");
            return delivery.shelve(envelope, "PROVIDER_RETRY_BUDGET_EXHAUSTED", detail);
        },
    };
    let key: String = authorize_idempotency_key(payload.order_id);
    let attempts: i32 = answer.attempts as i32;
    match answer.outcome {
        ProviderOutcome::Authorized { provider_reference } => {
            let payment: PaymentRow = record_authorized(
                payload.payment_id,
                payload.order_id,
                payload.amount.currency.as_str(),
                payload.amount.minor_units,
                provider_reference.as_str(),
                now,
            );
            let message: NewOutboxEvent = build_authorized_event(
                &envelope,
                payload,
                provider_reference.as_str(),
                ids.event,
                now,
            );
            let row: OperationRow = record_operation(
                operation,
                ids.operation,
                payload.payment_id,
                OperationType::Authorize,
                key.as_str(),
                OperationStatus::Succeeded,
                attempts,
                now,
            );
            delivery.apply(&envelope, write_all(Some(payment), Some(row), message))
        },
        ProviderOutcome::Declined { reason_code } => {
            let payment: PaymentRow = record_declined(
                payload.payment_id,
                payload.order_id,
                payload.amount.currency.as_str(),
                payload.amount.minor_units,
                reason_code.as_str(),
                now,
            );
            let message: NewOutboxEvent = build_failed_event(
                &envelope,
                payload,
                reason_code.as_str(),
                ids.event,
                now,
            );
            let row: OperationRow = record_operation(
                operation,
                ids.operation,
                payload.payment_id,
                OperationType::Authorize,
                key.as_str(),
                OperationStatus::Failed,
                attempts,
                now,
            );
            delivery.apply(&envelope, write_all(Some(payment), Some(row), message))
        },
    }
}

/// What a refund comes to: a refunded payment, its operation and the report;
/// or, where the provider's budget is spent, only the report that the refund
/// failed.
pub open spec fn refund_conclusion(
    delivery: DeliveryView,
    envelope: RawView,
    payload: RefundPaymentView,
    payment: PaymentView,
    refunded: bool,
    operation: Option<OperationView>,
    ids: PaymentIds,
) -> HandledView<PaymentWritesView> {
    let now = delivery.now;
    if refunded {
        delivery.applied(
            envelope,
            PaymentWritesView {
                payment: Some(refunded_payment(payment, now)),
                operation: Some(
                    operation_recorded(
                        operation,
                        ids.operation,
                        payment.id,
                        OperationType::Refund,
                        refund_key(payload.order_id),
                        OperationStatus::Succeeded,
                        1,
                        now,
                    ),
                ),
                outbox: seq![refunded_event(envelope, payload, ids.event, now)],
            },
        )
    } else {
        delivery.applied(
            envelope,
            PaymentWritesView {
                payment: None,
                operation: None,
                outbox: seq![refund_failed_event(envelope, payload, ids.event, now)],
            },
        )
    }
}

/// Settles a refund, given whether the provider carried it out.
pub fn handle_refund(
    source_topic: &str,
    record: &ConsumedRecord,
    envelope: RawEnvelope,
    payload: &RefundPaymentPayload,
    payment: PaymentRow,
    refunded: bool,
    operation: Option<OperationRow>,
    ids: &PaymentIds,
    now: Timestamp,
) -> (r: Handled<PaymentWrites>)
    requires
        payment.version < i64::MAX,
        operation matches Some(row) ==> row.attempts < i32::MAX,
    ensures
        r@ == refund_conclusion(
            DeliveryView {
                consumer: CONSUMER_NAME@,
                source_topic: source_topic@,
                record: record@,
                now,
            },
            envelope@,
            payload@,
            payment@,
            refunded,
            opt_view(operation),
            *ids,
        ),
{
    let delivery = Delivery { consumer: CONSUMER_NAME, source_topic, record, now };
    if !refunded {
        let message: NewOutboxEvent = build_refund_failed_event(&envelope, payload, ids.event, now);
        return delivery.apply(&envelope, write_all(None, None, message));
    }
    let payment_id: u128 = payment.id;
    let row: PaymentRow = record_refunded(payment, now);
    let key: String = refund_idempotency_key(payload.order_id);
    let recorded: OperationRow = record_operation(
        operation,
        ids.operation,
        payment_id,
        OperationType::Refund,
        key.as_str(),
        OperationStatus::Succeeded,
        1,
        now,
    );
    let message: NewOutboxEvent = build_refunded_event(&envelope, payload, ids.event, now);
    delivery.apply(&envelope, write_all(Some(row), Some(recorded), message))
}

/// An order that has a payment is never charged again: the provider is not
/// asked, and nothing but the inbox entry is written.
pub proof fn orders_are_charged_once(
    delivery: DeliveryView,
    envelope: RawView,
    payload: AuthorizePaymentView,
    payment: PaymentView,
)
    ensures
        command_opening(
            delivery,
            envelope,
            CommandView::Authorize(payload),
            Some(payment),
        ) == OpeningView::Settled(delivery.applied(envelope, no_writes()),
        ),
{
}

/// A payment that was refunded is not refunded again.
pub proof fn payments_are_refunded_once(
    delivery: DeliveryView,
    again: DeliveryView,
    envelope: RawView,
    other: RawView,
    payload: RefundPaymentView,
    payment: PaymentView,
    operation: Option<OperationView>,
    ids: PaymentIds,
)
    requires
        payment.version < i64::MAX,
    ensures
        ({
            let refunded = refunded_payment(payment, delivery.now);
            command_opening(
                again,
                other,
                CommandView::Refund(payload),
                Some(refunded),
            ) == OpeningView::Settled(again.applied(other, no_writes()),
            )
        }),
{
}

/// No record stops a batch, whatever it holds: it asks the provider, or it is
/// applied, dropped, or put aside with a dead letter.
pub proof fn no_record_blocks_the_partition(
    delivery: DeliveryView,
    header: Result<EnvelopeView<()>, Seq<char>>,
    payload: Result<CommandView, Seq<char>>,
    facts: InboxFactsView,
    payment: Option<PaymentView>,
)
    ensures
        opening(delivery, header, payload, facts, payment) matches OpeningView::Settled(handled)
            ==> {
            &&& committed(handled.effects) is Some <==> handled.outcome is Applied
            &&& handled.outcome is Poison ==> handled.effects.last() is PublishDlq
        },
{
    if let OpeningView::Settled(handled) = opening(delivery, header, payload, facts, payment) {
        let expected = expected_schema(header);
        if delivery.screened::<PaymentWritesView>(header, expected, false, facts) is Err {
            stopped_records_write_nothing::<PaymentWritesView>(
                delivery,
                header,
                expected,
                false,
                facts,
            );
        } else {
            reveal_with_fuel(committed, 3);
            let rest = handled.effects.drop_first();
            if handled.outcome is Poison {
                assert(rest.first() == handled.effects[1]);
                assert(rest.drop_first().len() == 0);
            }
        }
    }
}

/// A refund for an order without a payment becomes a dead letter that says
/// so; the provider is not asked, and nothing is written.
pub proof fn refunds_without_payment_are_put_aside(
    delivery: DeliveryView,
    envelope: RawView,
    payload: RefundPaymentView,
)
    ensures
        command_opening(delivery, envelope, CommandView::Refund(payload), None) matches
            OpeningView::Settled(handled) && {
            &&& handled.outcome is Poison
            &&& committed(handled.effects) is None
            &&& handled.effects.last() == delivery.letter::<PaymentWritesView>(
                Some(envelope),
                "UNKNOWN_ORDER"@,
                no_payment_words(payload.order_id),
            )
        },
{
    let effects = command_opening(
        delivery,
        envelope,
        CommandView::Refund(payload),
        None,
    )->Settled_0.effects;
    reveal_with_fuel(committed, 3);
    let rest = effects.drop_first();
    assert(rest.first() == effects[1]);
    assert(rest.drop_first().len() == 0);
}

/// The effects of a settled command.
pub open spec fn reports(handled: HandledView<PaymentWritesView>) -> Seq<OutboxView> {
    match committed(handled.effects) {
        Some(writes) => writes.outbox,
        None => Seq::empty(),
    }
}

/// Every report of the service carries the correlation and the trace of its
/// command and names it as its cause.
pub proof fn payment_reports_keep_the_chain(
    delivery: DeliveryView,
    envelope: RawView,
    authorize: AuthorizePaymentView,
    answer: Option<(OutcomeView, u32)>,
    refund: RefundPaymentView,
    payment: PaymentView,
    refunded: bool,
    operation: Option<OperationView>,
    ids: PaymentIds,
)
    ensures
        all_in_chain(
            envelope,
            reports(authorize_conclusion(delivery, envelope, authorize, answer, operation, ids)),
        ),
        all_in_chain(
            envelope,
            reports(
                refund_conclusion(delivery, envelope, refund, payment, refunded, operation, ids),
            ),
        ),
{
    reveal_with_fuel(committed, 3);
    let first = authorize_conclusion(delivery, envelope, authorize, answer, operation, ids);
    if answer is None {
        let rest = first.effects.drop_first();
        assert(rest.first() == first.effects[1]);
        assert(rest.drop_first().len() == 0);
    }
}

/// A command that was settled with the provider, with an answer or without
/// one, is a duplicate from then on: delivered again it asks the provider for
/// nothing.
pub proof fn redelivered_commands_ask_nothing(
    delivery: DeliveryView,
    again: DeliveryView,
    header: EnvelopeView<()>,
    payload: Result<CommandView, Seq<char>>,
    ledger: LedgerView,
    authorize: AuthorizePaymentView,
    answer: Option<(OutcomeView, u32)>,
    refund: RefundPaymentView,
    row: PaymentView,
    refunded: bool,
    operation: Option<OperationView>,
    payment: Option<PaymentView>,
    ids: PaymentIds,
)
    requires
        again.consumer == delivery.consumer,
        again.record.value == delivery.record.value,
        delivery.readable(),
        expected_schema(Ok(header)) == Some(header.schema_version),
    ensures
        ({
            let envelope = delivery.envelope(header);
            let charged = authorize_conclusion(
                delivery,
                envelope,
                authorize,
                answer,
                operation,
                ids,
            );
            let repaid = refund_conclusion(
                delivery,
                envelope,
                refund,
                row,
                refunded,
                operation,
                ids,
            );
            &&& opening(
                again,
                Ok(header),
                payload,
                ledger.after_all(charged.effects).facts(envelope),
                payment,
            ) == OpeningView::Settled(dropped())
            &&& opening(
                again,
                Ok(header),
                payload,
                ledger.after_all(repaid.effects).facts(envelope),
                payment,
            ) == OpeningView::Settled(dropped())
        }),
{
    let envelope = delivery.envelope(header);
    let charged = authorize_conclusion(delivery, envelope, authorize, answer, operation, ids);
    let repaid = refund_conclusion(delivery, envelope, refund, row, refunded, operation, ids);
    assert(charged.effects[0] is Commit);
    assert(repaid.effects[0] is Commit);
    taken_events_become_duplicates::<PaymentWritesView>(
        delivery,
        again,
        header,
        expected_schema(Ok(header)),
        false,
        ledger,
        charged.effects,
        0,
    );
    taken_events_become_duplicates::<PaymentWritesView>(
        delivery,
        again,
        header,
        expected_schema(Ok(header)),
        false,
        ledger,
        repaid.effects,
        0,
    );
}

}
