//! What the payments service answers: whose payment it reports on, what it
//! writes down, and what it asks of the provider.

use vstd::prelude::*;

use crate::consuming::{
    committed, in_line, result_view, DeliveryView, EffectView, Handled, RawEnvelope, RawView,
};
use crate::contracts::payments::{
    AuthorizePaymentPayload, AuthorizePaymentView, PaymentAuthorizedView, PaymentFailedView,
    PaymentRefundedPayload, RefundFailedView, RefundPaymentPayload, RefundPaymentView,
};
use crate::contracts::{Envelope, EnvelopeView, EventPayload, EventPayloadView};
use crate::deliveries::applied_once;
use crate::digest::json_member;
use crate::domain_common::{is_version_7, ErrorClass};
use crate::messaging::ConsumedRecord;
use crate::model::opt_view;
use crate::payments::consumer::{
    authorize_conclusion, build_authorized_event, build_failed_event, build_refund_failed_event,
    build_refunded_event, command_named, command_opening, handle_authorize, handle_refund,
    open_record, opening, payload_fits, payload_view, refund_conclusion, Command, CommandKind, CommandView,
    FinalAnswer, Opening, OpeningView, PaymentIds, PaymentWrites,
};
use crate::payments::domain::{
    authorize_idempotency_key, refund_idempotency_key, OperationStatus, OperationType,
};
use crate::payments::provider::{
    authorization, refunding, FakeProvider, OutcomeView, PaymentProvider, ProviderError,
    ProviderOutcome, ProviderReply, ProviderView,
};
use crate::payments::repository::{
    record_authorized, record_declined, record_refunded, OperationRow, OperationView, PaymentRow,
    PaymentView,
};
use crate::persistence::inbox::{InboxFacts, InboxFactsView};
use crate::persistence::outbox::{answers, NewOutboxEvent};
use crate::test_support::fault::fires;
use crate::text::uuid_text;
use crate::time::Timestamp;

verus! {

/// What was done under one key: a first attempt opens the record of the
/// operation, a further one is added to it.
pub open spec fn tells_operation(
    after: Option<OperationView>,
    before: Option<OperationView>,
    id: u128,
    payment_id: u128,
    operation_type: OperationType,
    key: Seq<char>,
    status: OperationStatus,
    attempts: int,
    delivery: DeliveryView,
) -> bool {
    &&& after is Some
    &&& after->0.status == status
    &&& after->0.updated_at == delivery.now
    &&& before is None ==> {
        &&& after->0.id == id
        &&& after->0.payment_id == payment_id
        &&& after->0.operation_type == operation_type
        &&& after->0.idempotency_key == key
        &&& after->0.attempts == attempts
        &&& after->0.created_at == delivery.now
    }
    &&& before is Some ==> {
        &&& after->0.id == before->0.id
        &&& after->0.payment_id == before->0.payment_id
        &&& after->0.operation_type == before->0.operation_type
        &&& after->0.idempotency_key == before->0.idempotency_key
        &&& after->0.attempts == before->0.attempts + attempts
        &&& after->0.created_at == before->0.created_at
    }
}

/// The answer to an authorization is the answer to its command: one message,
/// which says that the payment was authorized exactly where the provider said
/// so, and bears the order and the payment of the command and the reference,
/// or the reason, that the provider gave.
pub proof fn authorizations_answer_their_command(
    delivery: DeliveryView,
    envelope: RawView,
    payload: AuthorizePaymentView,
    outcome: OutcomeView,
    attempts: u32,
    operation: Option<OperationView>,
    ids: PaymentIds,
)
    ensures
        ({
            let handled = authorize_conclusion(
                delivery,
                envelope,
                payload,
                Some((outcome, attempts)),
                operation,
                ids,
            );
            let writes = committed(handled.effects)->0;
            &&& applied_once(handled, delivery, envelope)
            &&& committed(handled.effects) is Some
            &&& writes.outbox.len() == 1
            &&& answers(
                writes.outbox[0],
                envelope,
                if outcome is Authorized {
                    "payments.payment_authorized"@
                } else {
                    "payments.payment_failed"@
                },
                "payments"@,
                "payments.events.v1"@,
                "payment"@,
                payload.payment_id,
                1,
                payload.order_id,
                ids.event,
                delivery.now,
            )
            &&& outcome matches OutcomeView::Authorized { provider_reference }
                ==> writes.outbox[0].envelope.payload == EventPayloadView::PaymentAuthorized(
                PaymentAuthorizedView {
                    order_id: payload.order_id,
                    payment_id: payload.payment_id,
                    provider_reference,
                },
            )
            &&& outcome matches OutcomeView::Declined { reason_code }
                ==> writes.outbox[0].envelope.payload == EventPayloadView::PaymentFailed(
                PaymentFailedView {
                    order_id: payload.order_id,
                    payment_id: payload.payment_id,
                    reason_code,
                },
            )
        }),
{
    reveal_with_fuel(committed, 2);
}

/// An authorization is written down as it was decided: the payment that the
/// command named, over the amount that it named, for its order, and the
/// operation under the order's own key with the attempts that it took.
pub proof fn authorizations_are_written_down(
    delivery: DeliveryView,
    envelope: RawView,
    payload: AuthorizePaymentView,
    outcome: OutcomeView,
    attempts: u32,
    operation: Option<OperationView>,
    ids: PaymentIds,
)
    requires
        attempts <= i32::MAX,
        operation matches Some(row) ==> row.attempts + attempts <= i32::MAX,
    ensures
        ({
            let writes = committed(
                authorize_conclusion(
                    delivery,
                    envelope,
                    payload,
                    Some((outcome, attempts)),
                    operation,
                    ids,
                ).effects,
            )->0;
            let payment = writes.payment->0;
            &&& writes.payment is Some
            &&& payment.id == payload.payment_id
            &&& payment.order_id == payload.order_id
            &&& payment.currency == payload.amount.currency
            &&& payment.amount_minor == payload.amount.minor_units
            &&& payment.version == 1
            &&& payment.created_at == delivery.now
            &&& payment.updated_at == delivery.now
            &&& outcome matches OutcomeView::Authorized { provider_reference } ==> {
                &&& payment.status is Authorized
                &&& payment.provider_reference == Some(provider_reference)
                &&& payment.failure_code is None
            }
            &&& outcome matches OutcomeView::Declined { reason_code } ==> {
                &&& payment.status is Failed
                &&& payment.provider_reference is None
                &&& payment.failure_code == Some(reason_code)
            }
            &&& tells_operation(
                writes.operation,
                operation,
                ids.operation,
                payload.payment_id,
                OperationType::Authorize,
                "authorize:"@ + uuid_text(payload.order_id),
                if outcome is Authorized {
                    OperationStatus::Succeeded
                } else {
                    OperationStatus::Failed
                },
                attempts as int,
                delivery,
            )
        }),
{
    reveal_with_fuel(committed, 2);
}

/// An authorization that the provider never answered charges nothing: no
/// payment, no operation and no message is written. A dead letter names the
/// order, and the inbox entry of the command is kept.
pub proof fn unanswered_authorizations_are_shelved(
    delivery: DeliveryView,
    envelope: RawView,
    payload: AuthorizePaymentView,
    operation: Option<OperationView>,
    ids: PaymentIds,
)
    ensures
        ({
            let handled = authorize_conclusion(delivery, envelope, payload, None, operation, ids);
            let effects = handled.effects;
            &&& handled.outcome is Poison
            &&& committed(effects) is None
            &&& effects.len() == 2
            &&& effects[0] matches EffectView::Commit(set) && set.writes is None && set.advance_to
                is None && set.entry.event_id == envelope.event_id
            &&& effects[1] matches EffectView::PublishDlq(letter) && letter.error_code
                == "PROVIDER_RETRY_BUDGET_EXHAUSTED"@ && letter.error_detail
                == "authorize_payment for order "@ + uuid_text(payload.order_id)
                + " exhausted its retry budget against the provider"@ && letter.envelope == Some(
                envelope,
            )
        }),
{
    reveal_with_fuel(committed, 3);
    let effects = authorize_conclusion(
        delivery,
        envelope,
        payload,
        None,
        operation,
        ids,
    ).effects;
    let rest = effects.drop_first();
    assert(rest.first() == effects[1]);
    assert(rest.drop_first().len() == 0);
}

/// The answer to a refund is the answer to its command: one message, which
/// says that the payment was refunded exactly where the provider did so, and
/// bears the order and the payment of the command. A refunded payment is
/// written down as such under the order's own key; one that could not be
/// refunded stays as it is.
pub proof fn refunds_answer_their_command(
    delivery: DeliveryView,
    envelope: RawView,
    payload: RefundPaymentView,
    payment: PaymentView,
    refunded: bool,
    operation: Option<OperationView>,
    ids: PaymentIds,
)
    requires
        payment.version < i64::MAX,
        operation matches Some(row) ==> row.attempts < i32::MAX,
    ensures
        ({
            let handled = refund_conclusion(
                delivery,
                envelope,
                payload,
                payment,
                refunded,
                operation,
                ids,
            );
            let writes = committed(handled.effects)->0;
            let after = writes.payment->0;
            &&& applied_once(handled, delivery, envelope)
            &&& committed(handled.effects) is Some
            &&& writes.outbox.len() == 1
            &&& answers(
                writes.outbox[0],
                envelope,
                if refunded {
                    "payments.payment_refunded"@
                } else {
                    "payments.refund_failed"@
                },
                "payments"@,
                "payments.events.v1"@,
                "payment"@,
                payload.payment_id,
                2,
                payload.order_id,
                ids.event,
                delivery.now,
            )
            &&& refunded ==> {
                &&& writes.outbox[0].envelope.payload == EventPayloadView::PaymentRefunded(
                    PaymentRefundedPayload {
                        order_id: payload.order_id,
                        payment_id: payload.payment_id,
                    },
                )
                &&& writes.payment is Some
                &&& after.status is Refunded
                &&& !(payment.status is Refunded) ==> after.version == payment.version + 1
                    && after.updated_at == delivery.now
                &&& payment.status is Refunded ==> after == payment
                &&& after.id == payment.id
                &&& after.order_id == payment.order_id
                &&& after.currency == payment.currency
                &&& after.amount_minor == payment.amount_minor
                &&& after.provider_reference == payment.provider_reference
                &&& after.failure_code == payment.failure_code
                &&& after.created_at == payment.created_at
                &&& tells_operation(
                    writes.operation,
                    operation,
                    ids.operation,
                    payment.id,
                    OperationType::Refund,
                    "refund:"@ + uuid_text(payload.order_id),
                    OperationStatus::Succeeded,
                    1,
                    delivery,
                )
            }
            &&& !refunded ==> {
                &&& writes.outbox[0].envelope.payload == EventPayloadView::RefundFailed(
                    RefundFailedView {
                        order_id: payload.order_id,
                        payment_id: payload.payment_id,
                        reason_code: "REFUND_RETRY_BUDGET_EXHAUSTED"@,
                    },
                )
                &&& writes.payment is None
                &&& writes.operation is None
            }
        }),
{
    reveal_with_fuel(committed, 2);
}

/// The provider is asked to charge an order exactly where no payment of it is
/// known, under the key of that order's authorization.
pub proof fn charges_are_asked_for_once_under_their_key(
    delivery: DeliveryView,
    envelope: RawView,
    payload: AuthorizePaymentView,
    payment: Option<PaymentView>,
)
    ensures
        ({
            let opened = command_opening(
                delivery,
                envelope,
                CommandView::Authorize(payload),
                payment,
            );
            let handled = opened->Settled_0;
            let writes = committed(handled.effects)->0;
            &&& payment is None ==> opened == (OpeningView::Authorize {
                envelope,
                idempotency_key: "authorize:"@ + uuid_text(payload.order_id),
            })
            &&& payment is Some ==> {
                &&& opened is Settled
                &&& applied_once(handled, delivery, envelope)
                &&& committed(handled.effects) is Some
                &&& writes.payment is None && writes.operation is None && writes.outbox.len() == 0
            }
        }),
{
    reveal_with_fuel(committed, 2);
}

/// The provider is asked for a refund exactly where a payment is known that
/// was not refunded, under the key of that order's refund and with the
/// reference that the provider gave; without a payment the command becomes a
/// dead letter.
pub proof fn refunds_are_asked_for_once_under_their_key(
    delivery: DeliveryView,
    envelope: RawView,
    payload: RefundPaymentView,
    payment: Option<PaymentView>,
)
    ensures
        ({
            let opened = command_opening(delivery, envelope, CommandView::Refund(payload), payment);
            let handled = opened->Settled_0;
            let writes = committed(handled.effects)->0;
            let row = payment->0;
            &&& opened is Refund <==> payment is Some && !(row.status is Refunded)
            &&& opened is Refund ==> {
                &&& opened->Refund_envelope == envelope
                &&& opened->Refund_idempotency_key == "refund:"@ + uuid_text(payload.order_id)
                &&& row.provider_reference matches Some(reference)
                    ==> opened->Refund_provider_reference == reference
                &&& row.provider_reference is None ==> opened->Refund_provider_reference.len() == 0
            }
            &&& payment is Some && row.status is Refunded ==> {
                &&& opened is Settled
                &&& applied_once(handled, delivery, envelope)
                &&& committed(handled.effects) is Some
                &&& writes.payment is None && writes.operation is None && writes.outbox.len() == 0
            }
            &&& payment is None ==> {
                &&& opened is Settled
                &&& handled.outcome is Poison
                &&& handled.effects.len() == 2
                &&& handled.effects[0] is Rollback
                &&& handled.effects[1] matches EffectView::PublishDlq(letter) && letter.error_code
                    == "UNKNOWN_ORDER"@ && letter.error_detail == "refund_payment for order "@
                    + uuid_text(payload.order_id) + " with no existing payment row"@
                    && letter.envelope == Some(envelope)
            }
        }),
{
    reveal_with_fuel(committed, 2);
}

/// Each event type names its own command, and no other text names one.
pub proof fn event_types_name_payment_commands(event_type: Seq<char>)
    ensures
        command_named(event_type) == Some(CommandKind::AuthorizePayment) <==> event_type
            == "payments.authorize_payment"@,
        command_named(event_type) == Some(CommandKind::RefundPayment) <==> event_type
            == "payments.refund_payment"@,
{
    reveal_strlit("payments.authorize_payment");
    reveal_strlit("payments.refund_payment");
    assert("payments.authorize_payment"@.len() == 26);
    assert("payments.refund_payment"@.len() == 23);
}

/// A command whose record can be read, which is new and next in line, is
/// opened with the header that it bears; one whose payload cannot be read
/// becomes a dead letter that names the shape it should have had.
pub proof fn commands_in_line_are_opened(
    delivery: DeliveryView,
    header: EnvelopeView<()>,
    payload: Result<CommandView, Seq<char>>,
    facts: InboxFactsView,
    payment: Option<PaymentView>,
    envelope: RawView,
)
    requires
        header.event_type == "payments.authorize_payment"@ || header.event_type
            == "payments.refund_payment"@,
        in_line(delivery, header, facts, envelope),
    ensures
        ({
            let opened = opening(delivery, Ok(header), payload, facts, payment);
            let effects = opened->Settled_0.effects;
            &&& payload matches Ok(command) ==> opened == command_opening(
                delivery,
                envelope,
                command,
                payment,
            )
            &&& payload matches Err(error) ==> {
                &&& opened is Settled
                &&& opened->Settled_0.outcome is Poison
                &&& effects.len() == 2
                &&& effects[0] is Rollback
                &&& effects[1] matches EffectView::PublishDlq(letter) && letter.error_code
                    == "MALFORMED_PAYLOAD"@ && letter.error_detail == "payload did not match "@
                    + (if header.event_type == "payments.authorize_payment"@ {
                    "authorize_payment"@
                } else {
                    "refund_payment"@
                }) + " shape: "@ + error
            }
        }),
{
    event_types_name_payment_commands(header.event_type);
    assert(delivery.envelope(header) == envelope);
}

/// The provider answers an authorization under a known key from its ledger
/// and does nothing more. Under a new key it declines, authorizes under the
/// given reference, or does not answer, as the faults that are set up tell
/// it, and with no fault it authorizes; what it decides it writes down, and
/// it counts what it decides.
pub proof fn providers_decide_once(provider: ProviderView, key: Seq<char>, reference: Seq<char>)
    requires
        provider.real_authorize_calls < u64::MAX,
    ensures
        ({
            let (after, answer, delay) = authorization(provider, key, reference);
            let timeout = fires(provider.faults, "payments.provider.timeout"@, Some(key));
            let decline = fires(provider.faults, "payments.provider.decline"@, Some(key));
            let lost = fires(
                provider.faults,
                "payments.provider.success_response_lost"@,
                Some(key),
            );
            &&& after.refunds == provider.refunds
            &&& after.real_refund_calls == provider.real_refund_calls
            &&& provider.charges.dom().contains(key) ==> {
                &&& answer == Ok::<OutcomeView, Seq<char>>(provider.charges[key])
                &&& after == provider
                &&& delay is None
            }
            &&& !provider.charges.dom().contains(key) && timeout ==> {
                &&& answer == Err::<OutcomeView, Seq<char>>("simulated provider timeout"@)
                &&& after.charges == provider.charges
                &&& after.real_authorize_calls == provider.real_authorize_calls
                &&& delay == provider.faults["payments.provider.timeout"@].delay_ms
            }
            &&& !provider.charges.dom().contains(key) && !timeout ==> {
                &&& after.real_authorize_calls == provider.real_authorize_calls + 1
                &&& after.charges.dom().contains(key)
                &&& after.charges == provider.charges.insert(key, after.charges[key])
                &&& decline ==> {
                    &&& after.charges[key] == (OutcomeView::Declined {
                        reason_code: "CARD_DECLINED"@,
                    })
                    &&& answer == Ok::<OutcomeView, Seq<char>>(after.charges[key])
                    &&& delay == provider.faults["payments.provider.decline"@].delay_ms
                }
                &&& !decline ==> after.charges[key] == (OutcomeView::Authorized {
                    provider_reference: reference,
                })
                &&& !decline && lost ==> {
                    &&& answer == Err::<OutcomeView, Seq<char>>(
                        "simulated response loss after commit"@,
                    )
                    &&& delay
                        == provider.faults["payments.provider.success_response_lost"@].delay_ms
                }
                &&& !decline && !lost ==> {
                    &&& answer == Ok::<OutcomeView, Seq<char>>(after.charges[key])
                    &&& delay is None
                    &&& after.faults == provider.faults
                }
            }
        }),
{
}

/// The provider refunds under a known key without doing anything more. Under
/// a new key it refunds, writes that down and counts it, unless a fault that
/// is set up keeps it from answering.
pub proof fn providers_refund_once(provider: ProviderView, key: Seq<char>)
    requires
        provider.real_refund_calls < u64::MAX,
    ensures
        ({
            let (after, answer, delay) = refunding(provider, key);
            let timeout = fires(provider.faults, "payments.provider.refund_timeout"@, Some(key));
            &&& after.charges == provider.charges
            &&& after.real_authorize_calls == provider.real_authorize_calls
            &&& answer is Ok <==> provider.refunds.dom().contains(key) || !timeout
            &&& answer is Err ==> answer->Err_0 == "simulated refund timeout"@
            &&& provider.refunds.dom().contains(key) ==> after == provider && delay is None
            &&& !provider.refunds.dom().contains(key) && answer is Ok ==> {
                &&& after.refunds == provider.refunds.insert(key, true)
                &&& after.real_refund_calls == provider.real_refund_calls + 1
                &&& after.faults == provider.faults
                &&& delay is None
            }
            &&& answer is Err ==> {
                &&& after.refunds == provider.refunds
                &&& after.real_refund_calls == provider.real_refund_calls
                &&& delay == provider.faults["payments.provider.refund_timeout"@].delay_ms
            }
        }),
{
}

/// A record is opened for the payments consumer, at the moment and with the
/// payment that are given.
pub proof fn payment_commands_are_opened_as_owed(
    source_topic: &str,
    record: &ConsumedRecord,
    header: &Result<Envelope<()>, String>,
    payload: &Result<Command, String>,
    facts: &InboxFacts,
    payment: Option<&PaymentRow>,
    now: Timestamp,
    r: Opening,
)
    requires
        call_ensures(open_record, (source_topic, record, header, payload, facts, payment, now), r),
    ensures
        r@ == opening(
            DeliveryView {
                consumer: "payments-consumer"@,
                source_topic: source_topic@,
                record: record@,
                now,
            },
            result_view(*header),
            payload_view(*payload),
            facts@,
            opt_view(payment),
        ),
{
}

/// A decided authorization is settled for the payments consumer with one
/// report, which answers the command: to its order, of its payment, with what
/// the provider gave.
pub proof fn authorizations_are_settled_with_their_report(
    source_topic: &str,
    record: &ConsumedRecord,
    envelope: RawEnvelope,
    payload: &AuthorizePaymentPayload,
    answer: FinalAnswer,
    operation: Option<OperationRow>,
    ids: &PaymentIds,
    now: Timestamp,
    r: Handled<PaymentWrites>,
)
    requires
        call_ensures(
            handle_authorize,
            (source_topic, record, envelope, payload, Some(answer), operation, ids, now),
            r,
        ),
        answer.attempts <= i32::MAX,
        operation matches Some(row) ==> row.attempts + answer.attempts <= i32::MAX,
    ensures
        ({
            let set = r.effects@[0]->Commit_0;
            let writes = set.writes->0;
            let message = writes.outbox@[0];
            let payment = writes.payment->0;
            &&& r.outcome is Applied
            &&& r.effects@.len() == 1
            &&& r.effects@[0] is Commit
            &&& set.entry.consumer_name@ == "payments-consumer"@
            &&& set.entry.event_id == envelope.event_id
            &&& set.advance_to == Some(envelope.aggregate_version)
            &&& set.writes is Some
            &&& writes.payment is Some
            &&& payment.id == payload.payment_id
            &&& payment.order_id == payload.order_id
            &&& payment.amount_minor == payload.amount.minor_units
            &&& payment.currency@ == payload.amount.currency@
            &&& writes.operation is Some
            &&& writes.outbox@.len() == 1
            &&& message.topic@ == "payments.events.v1"@
            &&& message.message_key@ == uuid_text(payload.order_id)
            &&& message.aggregate_id == payload.payment_id
            &&& message.envelope.correlation_id == envelope.correlation_id
            &&& message.envelope.causation_id == envelope.event_id
            &&& answer.outcome matches ProviderOutcome::Authorized { provider_reference } ==> {
                &&& payment.status is Authorized
                &&& message.envelope.event_type@ == "payments.payment_authorized"@
                &&& message.envelope.payload matches EventPayload::PaymentAuthorized(told)
                    && told.order_id == payload.order_id && told.payment_id == payload.payment_id
                    && told.provider_reference@ == provider_reference@
            }
            &&& answer.outcome matches ProviderOutcome::Declined { reason_code } ==> {
                &&& payment.status is Failed
                &&& message.envelope.event_type@ == "payments.payment_failed"@
                &&& message.envelope.payload matches EventPayload::PaymentFailed(told)
                    && told.order_id == payload.order_id && told.payment_id == payload.payment_id
                    && told.reason_code@ == reason_code@
            }
        }),
{
    let delivery = DeliveryView {
        consumer: "payments-consumer"@,
        source_topic: source_topic@,
        record: record@,
        now,
    };
    let shown = r@;
    let operation_view = opt_view(operation);
    authorizations_answer_their_command(
        delivery,
        envelope@,
        payload@,
        answer.outcome@,
        answer.attempts,
        operation_view,
        *ids,
    );
    authorizations_are_written_down(
        delivery,
        envelope@,
        payload@,
        answer.outcome@,
        answer.attempts,
        operation_view,
        *ids,
    );
    reveal_with_fuel(committed, 2);
    assert(shown.effects.len() == r.effects@.len());
    assert(shown.effects[0] == r.effects@[0]@);
    assert(shown.effects[0] is Commit);
    let set = r.effects@[0]->Commit_0;
    let writes = set.writes->0;
    assert(set@.writes is Some);
    assert(writes@.outbox.len() == writes.outbox@.len());
    assert(writes@.outbox[0] == writes.outbox@[0]@);
}

/// What is settled for an authorization and for a refund is what the command
/// is owed, for the payments consumer and at the moment that is given.
pub proof fn payment_commands_are_settled_as_owed(
    source_topic: &str,
    record: &ConsumedRecord,
    envelope: RawEnvelope,
    authorize: &AuthorizePaymentPayload,
    answer: Option<FinalAnswer>,
    refund: &RefundPaymentPayload,
    payment: PaymentRow,
    refunded: bool,
    operation: Option<OperationRow>,
    ids: &PaymentIds,
    now: Timestamp,
    r: Handled<PaymentWrites>,
)
    ensures
        ({
            let delivery = DeliveryView {
                consumer: "payments-consumer"@,
                source_topic: source_topic@,
                record: record@,
                now,
            };
            &&& call_ensures(
                handle_authorize,
                (source_topic, record, envelope, authorize, answer, operation, ids, now),
                r,
            ) ==> r@ == authorize_conclusion(
                delivery,
                envelope@,
                authorize@,
                if answer is Some {
                    Some((answer->0.outcome@, answer->0.attempts))
                } else {
                    None
                },
                opt_view(operation),
                *ids,
            )
            &&& call_ensures(
                handle_refund,
                (source_topic, record, envelope, refund, payment, refunded, operation, ids, now),
                r,
            ) ==> r@ == refund_conclusion(
                delivery,
                envelope@,
                refund@,
                payment@,
                refunded,
                opt_view(operation),
                *ids,
            )
        }),
{
}

/// The report on an authorization names the order and the payment of its
/// command.
pub proof fn authorization_reports_name_the_command(
    trigger: &RawEnvelope,
    payload: &AuthorizePaymentPayload,
    text: &str,
    event_id: u128,
    now: Timestamp,
    r: NewOutboxEvent,
)
    ensures
        call_ensures(build_authorized_event, (trigger, payload, text, event_id, now), r) ==> {
            &&& r.message_key@ == uuid_text(payload.order_id)
            &&& r.aggregate_id == payload.payment_id
            &&& r.envelope.payload matches EventPayload::PaymentAuthorized(told) && told.order_id
                == payload.order_id && told.payment_id == payload.payment_id
                && told.provider_reference@ == text@
        },
        call_ensures(build_failed_event, (trigger, payload, text, event_id, now), r) ==> {
            &&& r.message_key@ == uuid_text(payload.order_id)
            &&& r.aggregate_id == payload.payment_id
            &&& r.envelope.payload matches EventPayload::PaymentFailed(told) && told.order_id
                == payload.order_id && told.payment_id == payload.payment_id && told.reason_code@
                == text@
        },
{
    if call_ensures(build_authorized_event, (trigger, payload, text, event_id, now), r) {
        assert(r@.envelope.payload is PaymentAuthorized);
    }
    if call_ensures(build_failed_event, (trigger, payload, text, event_id, now), r) {
        assert(r@.envelope.payload is PaymentFailed);
    }
}

/// The report on a refund names the order and the payment of its command.
pub proof fn refund_reports_name_the_command(
    trigger: &RawEnvelope,
    payload: &RefundPaymentPayload,
    event_id: u128,
    now: Timestamp,
    r: NewOutboxEvent,
)
    ensures
        call_ensures(build_refunded_event, (trigger, payload, event_id, now), r) ==> {
            &&& r.message_key@ == uuid_text(payload.order_id)
            &&& r.aggregate_id == payload.payment_id
            &&& r.envelope.payload matches EventPayload::PaymentRefunded(told) && told.order_id
                == payload.order_id && told.payment_id == payload.payment_id
        },
        call_ensures(build_refund_failed_event, (trigger, payload, event_id, now), r) ==> {
            &&& r.message_key@ == uuid_text(payload.order_id)
            &&& r.aggregate_id == payload.payment_id
            &&& r.envelope.payload matches EventPayload::RefundFailed(told) && told.order_id
                == payload.order_id && told.payment_id == payload.payment_id && told.reason_code@
                == "REFUND_RETRY_BUDGET_EXHAUSTED"@
        },
{
    if call_ensures(build_refunded_event, (trigger, payload, event_id, now), r) {
        assert(r@.envelope.payload is PaymentRefunded);
    }
    if call_ensures(build_refund_failed_event, (trigger, payload, event_id, now), r) {
        assert(r@.envelope.payload is RefundFailed);
    }
}

/// What the provider answers is what it decided, and its ledgers hold it.
pub proof fn providers_answer_as_decided(
    provider: &mut FakeProvider,
    key: &str,
    reference: String,
    order_id: u128,
    provider_reference: &str,
    charged: ProviderReply<ProviderOutcome>,
    repaid: ProviderReply<()>,
)
    ensures
        call_ensures(FakeProvider::authorize_as, (provider, key, reference), charged) ==> {
            let (after, answer, delay) = authorization(old(provider)@, key@, reference@);
            &&& final(provider)@ == after
            &&& charged.result is Ok <==> answer is Ok
            &&& charged.result is Ok ==> charged.result->Ok_0@ == answer->Ok_0
            &&& charged.result matches Err(ProviderError::Unavailable(detail)) ==> detail@
                == answer->Err_0
            &&& charged.delay_ms == delay
        },
        call_ensures(
            <FakeProvider as PaymentProvider>::refund,
            (provider, key, order_id, provider_reference),
            repaid,
        ) ==> {
            let (after, answer, delay) = refunding(old(provider)@, key@);
            &&& final(provider)@ == after
            &&& repaid.result is Ok <==> answer is Ok
            &&& repaid.result matches Err(ProviderError::Unavailable(detail)) ==> detail@
                == answer->Err_0
            &&& repaid.delay_ms == delay
        },
{
}

/// An authorization and a refund of one order are asked for under the order's
/// own keys.
pub proof fn operations_have_the_keys_of_their_order(order_id: u128, r: String)
    ensures
        call_ensures(authorize_idempotency_key, (order_id,), r) ==> r@ == "authorize:"@ + uuid_text(
            order_id,
        ),
        call_ensures(refund_idempotency_key, (order_id,), r) ==> r@ == "refund:"@ + uuid_text(
            order_id,
        ),
{
}

/// A payment is recorded as the provider decided it, and an operation as it
/// went; a refund changes the status of a payment once.
pub proof fn payments_are_recorded_as_decided(
    id: u128,
    order_id: u128,
    currency: &str,
    amount_minor: i64,
    text: &str,
    now: Timestamp,
    payment: PaymentRow,
    r: PaymentRow,
)
    ensures
        call_ensures(record_authorized, (id, order_id, currency, amount_minor, text, now), r) ==> {
            &&& r.id == id && r.order_id == order_id && r.currency@ == currency@ && r.amount_minor
                == amount_minor && r.version == 1 && r.created_at == now && r.updated_at == now
            &&& r.status is Authorized && r.failure_code is None
            &&& r.provider_reference is Some && r.provider_reference->0@ == text@
        },
        call_ensures(record_declined, (id, order_id, currency, amount_minor, text, now), r) ==> {
            &&& r.id == id && r.order_id == order_id && r.currency@ == currency@ && r.amount_minor
                == amount_minor && r.version == 1 && r.created_at == now && r.updated_at == now
            &&& r.status is Failed && r.provider_reference is None
            &&& r.failure_code is Some && r.failure_code->0@ == text@
        },
        call_ensures(record_refunded, (payment, now), r) && payment.version < i64::MAX ==> {
            &&& r.status is Refunded
            &&& r.id == payment.id && r.order_id == payment.order_id && r.amount_minor
                == payment.amount_minor && r.created_at == payment.created_at
            &&& payment.status is Refunded ==> r.version == payment.version && r.updated_at
                == payment.updated_at
            &&& !(payment.status is Refunded) ==> r.version == payment.version + 1 && r.updated_at
                == now
        },
{
}

/// A readable record of another event type, or of another version than the
/// first, is given up: nothing is asked and nothing is written.
pub proof fn other_events_are_given_up(
    delivery: DeliveryView,
    header: EnvelopeView<()>,
    payload: Result<CommandView, Seq<char>>,
    facts: InboxFactsView,
    payment: Option<PaymentView>,
)
    requires
        delivery.record.value is Some,
        json_member(delivery.record.value->0, "payload"@) is Some,
        (header.event_type != "payments.authorize_payment"@ && header.event_type
            != "payments.refund_payment"@) || header.schema_version != 1,
    ensures
        ({
            let opened = opening(delivery, Ok(header), payload, facts, payment);
            let effects = opened->Settled_0.effects;
            &&& opened is Settled
            &&& opened->Settled_0.outcome is Poison
            &&& effects.len() == 1
            &&& effects[0] matches EffectView::PublishDlq(letter) && letter.error_code
                == "UNSUPPORTED_SCHEMA"@ && letter.envelope == Some(delivery.envelope(header))
        }),
{
    event_types_name_payment_commands(header.event_type);
}

/// A payload fits its header where the event type is the one of its kind.
pub proof fn payloads_fit_their_event_type(header: EnvelopeView<()>, payload: CommandView)
    requires
        header.event_type == "payments.authorize_payment"@ || header.event_type
            == "payments.refund_payment"@,
    ensures
        payload_fits(Ok(header), Ok(payload)) <==> header.event_type == if payload is Authorize {
            "payments.authorize_payment"@
        } else {
            "payments.refund_payment"@
        },
{
    event_types_name_payment_commands(header.event_type);
}

/// A provider that is asked now decides under a fresh reference, whatever the
/// order and the amount; a lack of answer may be met by another attempt.
pub proof fn providers_give_fresh_references(
    provider: &mut FakeProvider,
    key: &str,
    order_id: u128,
    amount_minor: i64,
    currency: &str,
    r: ProviderReply<ProviderOutcome>,
    e: ProviderError,
    class: ErrorClass,
    words: String,
)
    ensures
        call_ensures(
            <FakeProvider as PaymentProvider>::authorize,
            (provider, key, order_id, amount_minor, currency),
            r,
        ) ==> exists|id: u128|
            {
                let owed = #[trigger] authorization(
                    old(provider)@,
                    key@,
                    "prov_"@ + uuid_text(id),
                );
                &&& final(provider)@ == owed.0
                &&& r.result is Ok <==> owed.1 is Ok
                &&& r.result is Ok ==> r.result->Ok_0@ == owed.1->Ok_0
                &&& r.delay_ms == owed.2
                &&& is_version_7(id)
            },
        call_ensures(ProviderError::error_class, (&e,), class) ==> class is Transient,
        call_ensures(ProviderError::message, (&e,), words) ==> words@
            == "payment provider unavailable: "@ + e->Unavailable_0@,
{
}

/// Every command whose payload fits its header is opened, and settled with
/// whatever the provider answered, while the attempts and the version can be
/// counted on.
pub proof fn every_payment_command_can_be_settled(
    source_topic: &str,
    record: &ConsumedRecord,
    header: &Result<Envelope<()>, String>,
    payload: &Result<Command, String>,
    facts: &InboxFacts,
    known: Option<&PaymentRow>,
    envelope: RawEnvelope,
    authorize: &AuthorizePaymentPayload,
    answer: Option<FinalAnswer>,
    refund: &RefundPaymentPayload,
    payment: PaymentRow,
    refunded: bool,
    operation: Option<OperationRow>,
    ids: &PaymentIds,
    now: Timestamp,
)
    requires
        *payload is Err || *header is Err || payload_fits(
            result_view(*header),
            payload_view(*payload),
        ),
        payment.version < i64::MAX,
        answer is Some ==> answer->0.attempts <= 1_000_000,
        operation is Some ==> 0 <= operation->0.attempts <= 1_000_000,
    ensures
        call_requires(open_record, (source_topic, record, header, payload, facts, known, now)),
        call_requires(
            handle_authorize,
            (source_topic, record, envelope, authorize, answer, operation, ids, now),
        ),
        call_requires(
            handle_refund,
            (source_topic, record, envelope, refund, payment, refunded, operation, ids, now),
        ),
{
}

}
