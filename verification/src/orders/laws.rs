//! What holds of every reaction of an order.

use vstd::prelude::*;

use crate::consuming::{
    committed, dropped, stopped_records_write_nothing, taken_events_become_duplicates,
    DeliveryView, EffectView, HandledView, LedgerView, RawView,
};
use crate::contracts::fulfilment::{
    FulfilmentCreatedPayload, FulfilmentFailedView, FULFILMENT_COMMANDS_TOPIC,
};
use crate::contracts::inventory::{
    ReservationFailedView, ReservationSucceededView, INVENTORY_COMMANDS_TOPIC,
};
use crate::contracts::orders::ORDER_CREATED_TOPIC;
use crate::contracts::payments::{
    PaymentAuthorizedView, PaymentFailedView, PAYMENTS_COMMANDS_TOPIC,
};
use crate::contracts::EnvelopeView;
use crate::orders::domain::{legal, OrderStatus};
use crate::orders::outcome_consumer::{expected_schema, handling, reaction, OutcomeView};
use crate::orders::repository::OrderView;
use crate::orders::saga::{
    on_fulfilment_created, on_fulfilment_failed, on_inventory_released, on_payment_authorized,
    on_payment_failed, on_payment_refunded, on_reservation_failed, on_reservation_succeeded, Fresh,
    HandleError, SagaView, WritesView,
};
use crate::persistence::inbox::InboxFactsView;
use crate::persistence::outbox::{all_in_chain, OutboxView};
use crate::time::Timestamp;

verus! {

/// The steps lead from `before` to the order that is written, each along the
/// status graph, each one version further, and each naming the event that
/// caused it.
pub open spec fn follows_graph(before: OrderView, trigger: u128, writes: WritesView) -> bool {
    let steps = writes.transitions;
    let after = writes.saga.order;
    &&& after.id == before.id
    &&& after.version == before.version + steps.len()
    &&& steps.len() == 0 ==> after.status == before.status
    &&& steps.len() > 0 ==> {
        &&& steps.first().from_status == Some(before.status)
        &&& steps.last().to_status == after.status
    }
    &&& forall|i: int|
        0 <= i < steps.len() ==> {
            let step = #[trigger] steps[i];
            &&& step.from_status is Some
            &&& legal(step.from_status->0, step.to_status)
            &&& step.order_id == before.id
            &&& step.order_version == before.version + i + 1
            &&& step.triggering_event_id == Some(trigger)
        }
    &&& forall|i: int|
        0 < i < steps.len() ==> (#[trigger] steps[i]).from_status == Some(steps[i - 1].to_status)
}

/// An order that holds stock says under which reservation.
pub open spec fn knows_reservation(saga: SagaView) -> bool {
    saga.order.status is InventoryReserved ==> saga.reservation_id is Some
}

/// The reaction of an order to an outcome writes at most once.
proof fn lemma_reaction_commits(
    delivery: DeliveryView,
    envelope: RawView,
    payload: OutcomeView,
    saga: SagaView,
    fresh: Fresh,
) -> (writes: Option<WritesView>)
    requires
        reaction(delivery, envelope, payload, Some(saga), fresh) is Ok,
    ensures
        writes == committed(reaction(delivery, envelope, payload, Some(saga), fresh)->Ok_0.effects),
        ({
            let handled = reaction(delivery, envelope, payload, Some(saga), fresh)->Ok_0;
            writes is Some <==> handled.outcome is Applied
        }),
        ({
            let handled = reaction(delivery, envelope, payload, Some(saga), fresh)->Ok_0;
            writes is Some ==> (handled.effects == seq![delivery.commit(envelope, writes->0)]
                || handled.effects == seq![
                handled.effects[0],
                delivery.commit(envelope, writes->0),
            ])
        }),
{
    let handled = reaction(delivery, envelope, payload, Some(saga), fresh)->Ok_0;
    let effects = handled.effects;
    reveal_with_fuel(committed, 3);
    assert(effects.len() == 1 || effects.len() == 2);
    let rest = effects.drop_first();
    if effects.len() == 2 {
        assert(rest.len() == 1);
        assert(rest.first() == effects[1]);
        assert(rest.drop_first().len() == 0);
    }
    committed(effects)
}

/// Whatever an order reacts to, it moves along its status graph only, one
/// version for each step, and an order that may not take the step stays where
/// it is.
pub proof fn reactions_follow_the_status_graph(
    delivery: DeliveryView,
    envelope: RawView,
    payload: OutcomeView,
    saga: SagaView,
    fresh: Fresh,
)
    requires
        saga.has_room(),
        reaction(delivery, envelope, payload, Some(saga), fresh) is Ok,
    ensures
        committed(reaction(delivery, envelope, payload, Some(saga), fresh)->Ok_0.effects) matches Some(
            writes,
        ) ==> follows_graph(saga.order, envelope.event_id, writes),
{
    let writes = lemma_reaction_commits(delivery, envelope, payload, saga, fresh);
}

/// Every message that a reaction sends carries the correlation and the trace
/// of the event that caused it, and names that event as its cause.
pub proof fn reactions_keep_the_chain(
    delivery: DeliveryView,
    envelope: RawView,
    payload: OutcomeView,
    saga: SagaView,
    fresh: Fresh,
)
    requires
        reaction(delivery, envelope, payload, Some(saga), fresh) is Ok,
    ensures
        committed(reaction(delivery, envelope, payload, Some(saga), fresh)->Ok_0.effects) matches Some(
            writes,
        ) ==> all_in_chain(envelope, writes.outbox),
{
    let writes = lemma_reaction_commits(delivery, envelope, payload, saga, fresh);
}

/// Once an order that had to give back stock or money is cancelled by a
/// confirmation, everything that it had to give back is given back.
pub proof fn cancellation_waits_for_every_compensation(
    delivery: DeliveryView,
    envelope: RawView,
    payload: OutcomeView,
    saga: SagaView,
    fresh: Fresh,
)
    requires
        payload is InventoryReleased || payload is PaymentRefunded,
        saga.has_room(),
        !(saga.order.status is Cancelled),
    ensures
        ({
            let handled = reaction(delivery, envelope, payload, Some(saga), fresh);
            &&& handled is Ok
            &&& committed(handled->Ok_0.effects) matches Some(writes) && (
            writes.saga.order.status is Cancelled ==> {
                &&& writes.saga.release_required ==> writes.saga.release_done
                &&& writes.saga.refund_required ==> writes.saga.refund_done
            })
        }),
{
    let writes = lemma_reaction_commits(delivery, envelope, payload, saga, fresh);
}

/// Only a confirmation, or a reservation that never came about, ends in a
/// cancelled order.
pub proof fn only_confirmations_cancel(
    delivery: DeliveryView,
    envelope: RawView,
    payload: OutcomeView,
    saga: SagaView,
    fresh: Fresh,
)
    requires
        saga.has_room(),
        !(saga.order.status is Cancelled),
        reaction(delivery, envelope, payload, Some(saga), fresh) is Ok,
        committed(reaction(delivery, envelope, payload, Some(saga), fresh)->Ok_0.effects) is Some,
        committed(
            reaction(delivery, envelope, payload, Some(saga), fresh)->Ok_0.effects,
        )->0.saga.order.status is Cancelled,
    ensures
        payload is InventoryReleased || payload is PaymentRefunded || payload is ReservationFailed,
{
    let writes = lemma_reaction_commits(delivery, envelope, payload, saga, fresh);
}

/// A rejected reservation cancels a pending order at once and sends nothing:
/// no payment is ever asked for.
pub proof fn rejected_reservations_cancel_without_payment(
    saga: SagaView,
    trigger: RawView,
    payload: ReservationFailedView,
    fresh: Fresh,
    now: Timestamp,
)
    requires
        saga.has_room(),
        saga.order.status is Pending,
    ensures
        ({
            let writes = on_reservation_failed(saga, trigger, payload, fresh, now);
            &&& writes.saga.order.status is Cancelled
            &&& writes.transitions.len() == 2
            &&& writes.outbox.len() == 0
            &&& writes.saga.payments_commands == saga.payments_commands
        }),
{
}

/// A refused payment asks for the stock back, and the order is cancelled once
/// the release is confirmed: no other outcome cancels it before, a refund
/// neither.
pub proof fn refused_payments_release_before_cancelling(
    saga: SagaView,
    refusal: RawView,
    payload: PaymentFailedView,
    confirmation: RawView,
    delivery: DeliveryView,
    other: OutcomeView,
    first: Fresh,
    second: Fresh,
    now: Timestamp,
    later: Timestamp,
)
    requires
        saga.has_room(),
        saga.order.status is InventoryReserved,
        saga.reservation_id is Some,
        !saga.refund_required,
        !saga.release_done,
    ensures
        ({
            let asked = on_payment_failed(
                saga,
                saga.reservation_id->0,
                refusal,
                payload,
                first,
                now,
            );
            let done = on_inventory_released(asked.saga, confirmation, second, later);
            let refunded = on_payment_refunded(asked.saga, confirmation, second, later);
            &&& asked.saga.order.status is Cancelling
            &&& asked.saga.release_required
            &&& asked.outbox.len() == 1
            &&& asked.outbox[0].envelope.payload is ReleaseInventory
            &&& asked.outbox[0].envelope.payload->ReleaseInventory_0.reservation_id
                == saga.reservation_id->0
            &&& asked.outbox[0].topic == INVENTORY_COMMANDS_TOPIC@
            &&& refunded.saga.order.status is Cancelling
            &&& refunded.outbox.len() == 0
            &&& done.saga.order.status is Cancelled
            &&& done.saga.order.version == saga.order.version + 2
            &&& done.outbox.len() == 1
            &&& done.outbox[0].envelope.payload is OrderCancelled
            &&& !(other is InventoryReleased) ==> {
                let handled = reaction(delivery, confirmation, other, Some(asked.saga), second);
                &&& handled is Ok
                &&& committed(handled->Ok_0.effects) matches Some(writes) ==> !(
                writes.saga.order.status is Cancelled)
            }
        }),
{
    let asked = on_payment_failed(saga, saga.reservation_id->0, refusal, payload, first, now);
    if !(other is InventoryReleased) {
        let writes = lemma_reaction_commits(delivery, confirmation, other, asked.saga, second);
    }
}

/// An order that is being cancelled waits for its stock.
pub open spec fn awaits_release(saga: SagaView) -> bool {
    saga.order.status is Cancelling ==> saga.release_required
}

/// Whatever an order reacts to, it waits for its stock while it is being
/// cancelled, and from there it is cancelled only after the release was
/// confirmed.
pub proof fn cancelling_orders_wait_for_their_stock(
    delivery: DeliveryView,
    envelope: RawView,
    payload: OutcomeView,
    saga: SagaView,
    fresh: Fresh,
)
    requires
        saga.has_room(),
        awaits_release(saga),
        reaction(delivery, envelope, payload, Some(saga), fresh) is Ok,
    ensures
        committed(reaction(delivery, envelope, payload, Some(saga), fresh)->Ok_0.effects) matches Some(
            writes,
        ) ==> {
            &&& awaits_release(writes.saga)
            &&& saga.order.status is Cancelling && writes.saga.order.status is Cancelled
                ==> writes.saga.release_done
        },
{
    let writes = lemma_reaction_commits(delivery, envelope, payload, saga, fresh);
}

/// After a failed fulfilment the order is cancelled when both the release and
/// the refund are confirmed, whichever comes first, and not before; the
/// cancellation is announced once.
pub proof fn failed_fulfilments_wait_for_both(
    saga: SagaView,
    failure: RawView,
    payload: FulfilmentFailedView,
    released: RawView,
    refunded: RawView,
    fresh: Fresh,
    now: Timestamp,
)
    requires
        saga.has_room(),
        saga.order.version < i64::MAX - 2,
        saga.order.status is ReadyForFulfilment,
        saga.reservation_id is Some,
        saga.payment_id is Some,
        !saga.release_done,
        !saga.refund_done,
    ensures
        ({
            let asked = on_fulfilment_failed(
                saga,
                saga.reservation_id->0,
                saga.payment_id->0,
                failure,
                payload,
                fresh,
                now,
            );
            let release_first = on_inventory_released(asked.saga, released, fresh, now);
            let refund_second = on_payment_refunded(release_first.saga, refunded, fresh, now);
            let refund_first = on_payment_refunded(asked.saga, refunded, fresh, now);
            let release_second = on_inventory_released(refund_first.saga, released, fresh, now);
            &&& asked.saga.order.status is Cancelling
            &&& asked.outbox.len() == 2
            &&& asked.outbox[0].envelope.payload is ReleaseInventory
            &&& asked.outbox[1].envelope.payload is RefundPayment
            &&& release_first.saga.order.status is Cancelling
            &&& release_first.outbox.len() == 0
            &&& refund_second.saga.order.status is Cancelled
            &&& refund_second.outbox.len() == 1
            &&& refund_first.saga.order.status is Cancelling
            &&& refund_first.outbox.len() == 0
            &&& release_second.saga.order.status is Cancelled
            &&& release_second.outbox.len() == 1
            &&& release_second.saga == refund_second.saga
        }),
{
}

/// The way to completion: a reservation, an authorization and a fulfilment
/// take a pending order through every step, asking for the payment and the
/// fulfilment on the way.
pub proof fn the_happy_path_completes(
    saga: SagaView,
    reserved: RawView,
    reservation: ReservationSucceededView,
    authorized: RawView,
    payment: PaymentAuthorizedView,
    fulfilled: RawView,
    fulfilment: FulfilmentCreatedPayload,
    fresh: Fresh,
    now: Timestamp,
)
    requires
        saga.has_room(),
        saga.order.version < i64::MAX - 4,
        saga.order.status is Pending,
    ensures
        ({
            let first = on_reservation_succeeded(saga, reserved, reservation, fresh, now);
            let second = on_payment_authorized(first.saga, authorized, payment, fresh, now);
            let third = on_fulfilment_created(
                second->Ok_0.saga,
                fulfilled,
                fulfilment,
                fresh,
                now,
            );
            &&& first.saga.order.status is InventoryReserved
            &&& first.outbox.len() == 1
            &&& first.outbox[0].envelope.payload is AuthorizePayment
            &&& second is Ok
            &&& second->Ok_0.transitions[0].to_status is PaymentAuthorized
            &&& second->Ok_0.saga.order.status is ReadyForFulfilment
            &&& second->Ok_0.outbox.len() == 1
            &&& second->Ok_0.outbox[0].envelope.payload is CreateFulfilment
            &&& third.saga.order.status is Completed
            &&& third.outbox.len() == 1
            &&& third.outbox[0].envelope.payload is OrderCompleted
            &&& third.saga.order.version == saga.order.version + 4
        }),
{
}

/// The messages that go to `topic`.
pub open spec fn sent_to(messages: Seq<OutboxView>, topic: Seq<char>) -> Seq<OutboxView>
    decreases messages.len(),
{
    if messages.len() == 0 {
        messages
    } else if messages.last().topic == topic {
        sent_to(messages.drop_last(), topic).push(messages.last())
    } else {
        sent_to(messages.drop_last(), topic)
    }
}

/// The messages to one service go on with its count of commands: nothing is
/// sent and the count stays, or one message is sent with the next number.
pub open spec fn numbered_on(sent: Seq<OutboxView>, before: i64, after: i64) -> bool {
    ||| sent.len() == 0 && after == before
    ||| sent.len() == 1 && after == before + 1 && sent[0].aggregate_version == after
}

/// Whatever an order reacts to, the commands that it sends to each service
/// carry on that service's own numbers without a gap: a number is used up
/// with the command that bears it, and only then.
pub proof fn commands_are_numbered_in_sequence(
    delivery: DeliveryView,
    envelope: RawView,
    payload: OutcomeView,
    saga: SagaView,
    fresh: Fresh,
)
    requires
        saga.has_room(),
        reaction(delivery, envelope, payload, Some(saga), fresh) is Ok,
    ensures
        committed(reaction(delivery, envelope, payload, Some(saga), fresh)->Ok_0.effects) matches Some(
            writes,
        ) ==> {
            &&& numbered_on(
                sent_to(writes.outbox, INVENTORY_COMMANDS_TOPIC@),
                saga.inventory_commands,
                writes.saga.inventory_commands,
            )
            &&& numbered_on(
                sent_to(writes.outbox, PAYMENTS_COMMANDS_TOPIC@),
                saga.payments_commands,
                writes.saga.payments_commands,
            )
            &&& numbered_on(
                sent_to(writes.outbox, FULFILMENT_COMMANDS_TOPIC@),
                saga.fulfilment_commands,
                writes.saga.fulfilment_commands,
            )
        },
{
    let writes = lemma_reaction_commits(delivery, envelope, payload, saga, fresh);
    lemma_topics_differ();
    reveal_with_fuel(sent_to, 3);
    if writes is Some {
        let messages = writes->0.outbox;
        assert(messages.len() <= 2);
        if messages.len() > 0 {
            let front = messages.drop_last();
            assert(messages.len() == 2 ==> front.last() == messages[0]);
            assert(front.len() > 0 ==> front.drop_last().len() == 0);
        }
    }
}

proof fn lemma_topics_differ()
    ensures
        INVENTORY_COMMANDS_TOPIC@ != PAYMENTS_COMMANDS_TOPIC@,
        INVENTORY_COMMANDS_TOPIC@ != FULFILMENT_COMMANDS_TOPIC@,
        PAYMENTS_COMMANDS_TOPIC@ != FULFILMENT_COMMANDS_TOPIC@,
        ORDER_CREATED_TOPIC@ != INVENTORY_COMMANDS_TOPIC@,
        ORDER_CREATED_TOPIC@ != PAYMENTS_COMMANDS_TOPIC@,
        ORDER_CREATED_TOPIC@ != FULFILMENT_COMMANDS_TOPIC@,
{
    reveal_strlit("inventory.commands.v1");
    reveal_strlit("payments.commands.v1");
    reveal_strlit("fulfilment.commands.v1");
    reveal_strlit("orders.events.v1");
    assert(INVENTORY_COMMANDS_TOPIC@[0] == 'i');
    assert(PAYMENTS_COMMANDS_TOPIC@[0] == 'p');
    assert(FULFILMENT_COMMANDS_TOPIC@[0] == 'f');
    assert(ORDER_CREATED_TOPIC@[0] == 'o');
}

/// An order that holds stock keeps knowing its reservation, whatever it
/// reacts to, and such an order never stops a batch.
pub proof fn reservations_are_never_lost(
    delivery: DeliveryView,
    envelope: RawView,
    payload: OutcomeView,
    saga: SagaView,
    fresh: Fresh,
)
    requires
        saga.has_room(),
        knows_reservation(saga),
    ensures
        reaction(delivery, envelope, payload, Some(saga), fresh) is Ok,
        committed(reaction(delivery, envelope, payload, Some(saga), fresh)->Ok_0.effects) matches Some(
            writes,
        ) ==> knows_reservation(writes.saga) && (saga.reservation_id is Some
            ==> writes.saga.reservation_id is Some),
{
    let writes = lemma_reaction_commits(delivery, envelope, payload, saga, fresh);
}

/// An outcome that names an order which is not there becomes a dead letter;
/// nothing is committed, and the batch goes on.
pub proof fn unknown_orders_do_not_block(
    delivery: DeliveryView,
    envelope: RawView,
    payload: OutcomeView,
    fresh: Fresh,
)
    ensures
        ({
            let handled = reaction(delivery, envelope, payload, None, fresh);
            &&& handled is Ok
            &&& handled->Ok_0.outcome is Poison
            &&& committed(handled->Ok_0.effects) is None
            &&& handled->Ok_0.effects.last() is PublishDlq
        }),
{
    let effects = reaction(delivery, envelope, payload, None, fresh)->Ok_0.effects;
    reveal_with_fuel(committed, 4);
    assert(effects.len() == 2 || effects.len() == 3);
    let rest = effects.drop_first();
    assert(rest.first() == effects[1]);
    let end = rest.drop_first();
    if effects.len() == 3 {
        assert(end.first() == effects[2]);
        assert(end.drop_first().len() == 0);
    } else {
        assert(end.len() == 0);
    }
}

/// A compensation that was given up calls for an operator: a dead letter with
/// the reason goes out before anything is written, and an order that is being
/// cancelled goes to review.
pub proof fn exhausted_compensations_call_for_review(
    delivery: DeliveryView,
    envelope: RawView,
    payload: OutcomeView,
    saga: SagaView,
    fresh: Fresh,
)
    requires
        payload is ReleaseFailed || payload is RefundFailed,
    ensures
        ({
            let reason = match payload {
                OutcomeView::ReleaseFailed(p) => p.reason_code,
                OutcomeView::RefundFailed(p) => p.reason_code,
                _ => Seq::empty(),
            };
            let handled = reaction(delivery, envelope, payload, Some(saga), fresh);
            let effects = handled->Ok_0.effects;
            let written = committed(effects);
            &&& handled is Ok
            &&& effects.len() == 2
            &&& effects[0] matches EffectView::PublishDlq(letter) && letter.error_code
                == "COMPENSATION_EXHAUSTED"@ && letter.error_detail == reason && letter.envelope
                == Some(envelope)
            &&& written is Some
            &&& written->0.outbox.len() == 0
            &&& saga.order.status is Cancelling ==> written->0.saga.order.status
                == OrderStatus::ManualReview
            &&& !(saga.order.status is Cancelling) ==> written->0.saga == saga
        }),
{
    let effects = reaction(delivery, envelope, payload, Some(saga), fresh)->Ok_0.effects;
    let rest = effects.drop_first();
    reveal_with_fuel(committed, 3);
    assert(rest.first() == effects[1]);
}

/// No record stops a batch, whatever it holds, as long as an order that holds
/// stock knows its reservation: it is applied, dropped, or put aside with a
/// dead letter.
pub proof fn no_record_blocks_the_partition(
    delivery: DeliveryView,
    header: Result<EnvelopeView<()>, Seq<char>>,
    payload: Result<OutcomeView, Seq<char>>,
    facts: InboxFactsView,
    saga: Option<SagaView>,
    fresh: Fresh,
)
    requires
        saga matches Some(s) ==> s.has_room() && knows_reservation(s),
    ensures
        handling(delivery, header, payload, facts, saga, fresh) is Ok,
        ({
            let handled = handling(delivery, header, payload, facts, saga, fresh)->Ok_0;
            &&& committed(handled.effects) is Some <==> handled.outcome is Applied
            &&& handled.outcome is Poison ==> handled.effects.last() is PublishDlq
        }),
{
    let expected = expected_schema(header);
    match delivery.screened::<WritesView>(header, expected, false, facts) {
        Err(_) => {
            stopped_records_write_nothing::<WritesView>(delivery, header, expected, false, facts);
        },
        Ok(envelope) => match payload {
            Err(_) => {
                let effects = handling(delivery, header, payload, facts, saga, fresh)->Ok_0.effects;
                let rest = effects.drop_first();
                reveal_with_fuel(committed, 3);
                assert(rest.first() == effects[1]);
                assert(rest.drop_first().len() == 0);
            },
            Ok(p) => match saga {
                None => {
                    unknown_orders_do_not_block(delivery, envelope, p, fresh);
                },
                Some(s) => {
                    reservations_are_never_lost(delivery, envelope, p, s, fresh);
                    let writes = lemma_reaction_commits(delivery, envelope, p, s, fresh);
                },
            },
        },
    }
}

/// An outcome that was applied, or noted as stale, is a duplicate from then
/// on: delivered again, by whatever route and at whatever time, it changes
/// nothing and sends nothing.
pub proof fn redelivered_outcomes_change_nothing(
    delivery: DeliveryView,
    again: DeliveryView,
    header: EnvelopeView<()>,
    payload: Result<OutcomeView, Seq<char>>,
    ledger: LedgerView,
    saga: Option<SagaView>,
    later_saga: Option<SagaView>,
    fresh: Fresh,
    other: Fresh,
)
    requires
        again.consumer == delivery.consumer,
        again.record.value == delivery.record.value,
        handling(
            delivery,
            Ok(header),
            payload,
            ledger.facts(delivery.envelope(header)),
            saga,
            fresh,
        ) is Ok,
        ({
            let outcome = handling(
                delivery,
                Ok(header),
                payload,
                ledger.facts(delivery.envelope(header)),
                saga,
                fresh,
            )->Ok_0.outcome;
            outcome is Applied || outcome is Stale
        }),
    ensures
        ({
            let first = handling(
                delivery,
                Ok(header),
                payload,
                ledger.facts(delivery.envelope(header)),
                saga,
                fresh,
            )->Ok_0;
            let later = ledger.after_all(first.effects);
            handling(
                again,
                Ok(header),
                payload,
                later.facts(delivery.envelope(header)),
                later_saga,
                other,
            ) == Ok::<HandledView<WritesView>, HandleError>(dropped())
        }),
{
    let envelope = delivery.envelope(header);
    let facts = ledger.facts(envelope);
    let first = handling(delivery, Ok(header), payload, facts, saga, fresh)->Ok_0;
    let expected = expected_schema(Ok(header));
    if first.outcome is Applied {
        assert(delivery.screened::<WritesView>(Ok(header), expected, false, facts) == Ok::<
            RawView,
            HandledView<WritesView>,
        >(envelope));
        if saga is Some {
            let writes = lemma_reaction_commits(
                delivery,
                envelope,
                payload->Ok_0,
                saga->0,
                fresh,
            );
        } else {
            unknown_orders_do_not_block(delivery, envelope, payload->Ok_0, fresh);
        }
    }
    let i = if first.effects.len() == 2 { 1int } else { 0int };
    assert(first.effects[i] is Commit);
    assert(first.effects[i]->Commit_0.entry == delivery.entry(envelope));
    taken_events_become_duplicates::<WritesView>(
        delivery,
        again,
        header,
        expected,
        false,
        ledger,
        first.effects,
        i,
    );
}

}
