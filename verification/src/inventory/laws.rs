//! What the inventory service answers: what it takes from the stock for an
//! order, what it gives back, and what it reports.

use vstd::prelude::*;

use crate::consuming::{
    committed, in_line, result_view, DeliveryView, EffectView, Handled, RawEnvelope, RawView,
};
use crate::contracts::inventory::{
    InventoryReleasedPayload, ReleaseInventoryPayload, ReleaseInventoryView, ReservationFailedView,
    ReservationSucceededView, ReserveInventoryPayload, ReserveInventoryView,
};
use crate::contracts::{Envelope, EnvelopeView, EventPayload, EventPayloadView};
use crate::deliveries::applied_once;
use crate::digest::json_member;
use crate::domain_common::is_version_7;
use crate::inventory::consumer::{
    asked_lines, build_released_event, build_reservation_outcome_event, command_named, handle_one,
    handle_record, handling, payload_fits, payload_view, reaction, Command, CommandKind,
    CommandView, InventoryIds, InventoryTables, InventoryWrites, TablesView,
};
use crate::inventory::domain::{
    line_skus, raw_lines, refused_requests_name_their_cause, request_verdict, sku_order,
    sorted_skus, texts, validate_items, LineView, RequestErrorView, ReservationLine,
    ReservationRequestError,
};
use crate::inventory::repository::{
    asks_for, decide_reservation, granted_quantities_are_set_aside, meets, moved, release,
    released_quantities_become_available, reservation,
    reservations_are_granted_exactly_when_every_line_is_met, reserve, seed_stock,
    stock_holds_by_lines,
    ReleaseError, ReleaseOutcome, ReservationRow, ReserveOutcome, StockRow, StockView,
};
use crate::messaging::ConsumedRecord;
use crate::model::{opt_view, views};
use crate::persistence::inbox::{InboxFacts, InboxFactsView};
use crate::persistence::outbox::{answers, NewOutboxEvent};
use crate::text::{signed_decimal, text_before, uuid_text};
use crate::time::Timestamp;

verus! {

/// The command asks for something, every quantity of it is positive, and no
/// two of its lines share a SKU.
pub open spec fn asks_properly(payload: ReserveInventoryView) -> bool {
    &&& payload.items.len() > 0
    &&& forall|i: int| 0 <= i < payload.items.len() ==> (#[trigger] payload.items[i]).quantity > 0
    &&& forall|i: int, j: int|
        0 <= i < j < payload.items.len() ==> (#[trigger] payload.items[i]).sku != (
        #[trigger] payload.items[j]).sku
}

/// Every SKU has one row, and its counts can be added up.
pub open spec fn stock_adds_up(stock: Seq<StockView>) -> bool {
    &&& forall|i: int, j: int|
        0 <= i < j < stock.len() ==> (#[trigger] stock[i]).sku != (#[trigger] stock[j]).sku
    &&& forall|i: int|
        0 <= i < stock.len() ==> (#[trigger] stock[i]).available_qty >= 0 && stock[i].reserved_qty
            >= 0 && stock[i].available_qty + stock[i].reserved_qty <= i64::MAX && stock[i].version
            < i64::MAX
}

/// A proper command for an order without a reservation is granted exactly
/// when there is enough of every SKU that it asks for. The report says so to
/// the order that the command names, with the lines that it named; a granted
/// reservation is kept with those lines, and a rejected one takes nothing.
pub proof fn reserve_commands_are_answered(
    delivery: DeliveryView,
    envelope: RawView,
    payload: ReserveInventoryView,
    tables: TablesView,
    ids: InventoryIds,
)
    requires
        tables.reservation is None,
        asks_properly(payload),
        stock_adds_up(tables.stock),
    ensures
        ({
            let handled = reaction(delivery, envelope, CommandView::Reserve(payload), tables, ids);
            let writes = committed(handled.effects)->0;
            let row = writes.reservation->0;
            let granted = forall|k: int|
                0 <= k < payload.items.len() ==> meets(
                    tables.stock,
                    LineView {
                        sku: (#[trigger] payload.items[k]).sku,
                        quantity: payload.items[k].quantity,
                    },
                );
            &&& applied_once(handled, delivery, envelope)
            &&& committed(handled.effects) is Some
            &&& writes.reservation is Some
            &&& row.id == ids.reservation
            &&& row.order_id == payload.order_id
            &&& row.version == 1
            &&& row.created_at == delivery.now
            &&& row.updated_at == delivery.now
            &&& writes.outbox.len() == 1
            &&& answers(
                writes.outbox[0],
                envelope,
                if granted {
                    "inventory.reservation_succeeded"@
                } else {
                    "inventory.reservation_failed"@
                },
                "inventory"@,
                "inventory.events.v1"@,
                "inventory_reservation"@,
                ids.reservation,
                1,
                payload.order_id,
                ids.event,
                delivery.now,
            )
            &&& granted ==> {
                &&& row.status is Active
                &&& row.reason_code is None
                &&& writes.outbox[0].envelope.payload == EventPayloadView::ReservationSucceeded(
                    ReservationSucceededView {
                        order_id: payload.order_id,
                        reservation_id: ids.reservation,
                        items: payload.items,
                    },
                )
                &&& writes.reservation_items.len() == payload.items.len()
                &&& forall|k: int|
                    0 <= k < payload.items.len() ==> (#[trigger] writes.reservation_items[k]).sku
                        == payload.items[k].sku && writes.reservation_items[k].quantity
                        == payload.items[k].quantity
                &&& writes.stock.len() == tables.stock.len()
                &&& forall|i: int, k: int|
                    0 <= i < tables.stock.len() && 0 <= k < payload.items.len() && (
                    #[trigger] tables.stock[i]).sku == (#[trigger] payload.items[k]).sku ==> moved(
                        tables.stock[i],
                        writes.stock[i],
                        -payload.items[k].quantity,
                        delivery.now,
                    )
                &&& forall|i: int|
                    0 <= i < tables.stock.len() && (forall|k: int|
                        0 <= k < payload.items.len() ==> (#[trigger] payload.items[k]).sku
                            != tables.stock[i].sku) ==> #[trigger] writes.stock[i]
                        == tables.stock[i]
            }
            &&& !granted ==> {
                &&& row.status is Rejected
                &&& row.reason_code is Some
                &&& writes.outbox[0].envelope.payload == EventPayloadView::ReservationFailed(
                    ReservationFailedView {
                        order_id: payload.order_id,
                        reason_code: row.reason_code->0,
                        items: payload.items,
                    },
                )
                &&& writes.reservation_items.len() == 0
                &&& writes.stock == tables.stock
            }
        }),
{
    reveal_with_fuel(committed, 2);
    let lines = asked_lines(payload.items);
    let stock = tables.stock;
    lemma_asked(payload);
    refused_requests_name_their_cause(lines);
    reservations_are_granted_exactly_when_every_line_is_met(
        payload.order_id,
        lines,
        stock,
        ids.reservation,
        delivery.now,
    );
    let after = reservation(
        None,
        payload.order_id,
        lines,
        stock,
        ids.reservation,
        delivery.now,
    ).stock;
    let granted = forall|k: int|
        0 <= k < payload.items.len() ==> meets(
            stock,
            LineView {
                sku: (#[trigger] payload.items[k]).sku,
                quantity: payload.items[k].quantity,
            },
        );
    if granted {
        assert forall|k: int| 0 <= k < lines.len() implies meets(stock, #[trigger] lines[k]) by {
            assert(payload.items[k].sku == lines[k].sku);
        }
        granted_quantities_are_set_aside(
            payload.order_id,
            lines,
            stock,
            ids.reservation,
            delivery.now,
        );
        assert forall|i: int, k: int|
            0 <= i < stock.len() && 0 <= k < payload.items.len() && (#[trigger] stock[i]).sku == (
            #[trigger] payload.items[k]).sku implies moved(
            stock[i],
            after[i],
            -payload.items[k].quantity,
            delivery.now,
        ) by {
            assert(stock[i].sku == lines[k].sku);
        }
        assert forall|i: int|
            0 <= i < stock.len() && (forall|k: int|
                0 <= k < payload.items.len() ==> (#[trigger] payload.items[k]).sku
                    != stock[i].sku) implies #[trigger] after[i] == stock[i] by {
            assert(!asks_for(lines, stock[i].sku)) by {
                if asks_for(lines, stock[i].sku) {
                    let k = choose|k: int|
                        0 <= k < lines.len() && (#[trigger] lines[k]).sku == stock[i].sku;
                    assert(payload.items[k].sku == stock[i].sku);
                }
            }
        }
    } else {
        assert(!(forall|k: int| 0 <= k < lines.len() ==> meets(stock, #[trigger] lines[k]))) by {
            let k = choose|k: int|
                0 <= k < payload.items.len() && !meets(
                    stock,
                    LineView {
                        sku: (#[trigger] payload.items[k]).sku,
                        quantity: payload.items[k].quantity,
                    },
                );
            assert(!meets(stock, lines[k]));
        }
    }
}

proof fn lemma_asked(payload: ReserveInventoryView)
    ensures
        ({
            let lines = asked_lines(payload.items);
            &&& lines.len() == payload.items.len()
            &&& forall|k: int|
                0 <= k < lines.len() ==> (#[trigger] lines[k]).sku == payload.items[k].sku
                    && lines[k].quantity == payload.items[k].quantity
            &&& asks_properly(payload) ==> {
                &&& forall|i: int| 0 <= i < lines.len() ==> (#[trigger] lines[i]).quantity > 0
                &&& forall|i: int, j: int|
                    0 <= i < j < lines.len() ==> (#[trigger] lines[i]).sku != (
                    #[trigger] lines[j]).sku
            }
        }),
{
}

/// The decision on an order's reservation stands: a further command for the
/// order moves no stock and records nothing, and is told what was decided
/// under the identifier that was given then.
pub proof fn decided_orders_are_told_again(
    delivery: DeliveryView,
    envelope: RawView,
    payload: ReserveInventoryView,
    tables: TablesView,
    ids: InventoryIds,
)
    requires
        tables.reservation is Some,
        asks_properly(payload),
    ensures
        ({
            let handled = reaction(delivery, envelope, CommandView::Reserve(payload), tables, ids);
            let writes = committed(handled.effects)->0;
            let row = tables.reservation->0;
            &&& applied_once(handled, delivery, envelope)
            &&& committed(handled.effects) is Some
            &&& writes.reservation is None
            &&& writes.reservation_items.len() == 0
            &&& writes.stock == tables.stock
            &&& writes.outbox.len() == 1
            &&& answers(
                writes.outbox[0],
                envelope,
                if row.status is Active {
                    "inventory.reservation_succeeded"@
                } else {
                    "inventory.reservation_failed"@
                },
                "inventory"@,
                "inventory.events.v1"@,
                "inventory_reservation"@,
                row.id,
                1,
                payload.order_id,
                ids.event,
                delivery.now,
            )
            &&& row.status is Active ==> writes.outbox[0].envelope.payload
                == EventPayloadView::ReservationSucceeded(
                ReservationSucceededView {
                    order_id: payload.order_id,
                    reservation_id: row.id,
                    items: payload.items,
                },
            )
            &&& !(row.status is Active) ==> writes.outbox[0].envelope.payload
                == EventPayloadView::ReservationFailed(
                ReservationFailedView {
                    order_id: payload.order_id,
                    reason_code: if row.reason_code is Some {
                        row.reason_code->0
                    } else {
                        "UNKNOWN"@
                    },
                    items: payload.items,
                },
            )
        }),
{
    reveal_with_fuel(committed, 2);
    lemma_asked(payload);
    refused_requests_name_their_cause(asked_lines(payload.items));
}

/// A command that asks for nothing, for a quantity that is not positive or
/// for one SKU twice is put aside with a dead letter that says so; nothing is
/// written.
pub proof fn improper_commands_are_put_aside(
    delivery: DeliveryView,
    envelope: RawView,
    payload: ReserveInventoryView,
    tables: TablesView,
    ids: InventoryIds,
)
    ensures
        ({
            let handled = reaction(delivery, envelope, CommandView::Reserve(payload), tables, ids);
            let effects = handled.effects;
            let letter = effects[1]->PublishDlq_0;
            &&& handled.outcome is Poison <==> !asks_properly(payload)
            &&& handled.outcome is Applied <==> asks_properly(payload)
            &&& handled.outcome is Poison ==> {
                &&& effects.len() == 2
                &&& effects[0] is Rollback
                &&& effects[1] is PublishDlq
                &&& letter.envelope == Some(envelope)
                &&& letter.error_code == "INVALID_RESERVATION_REQUEST"@
                &&& payload.items.len() == 0 ==> letter.error_detail
                    == "reservation request has no items"@
                &&& payload.items.len() > 0 ==> exists|k: int|
                    #![trigger payload.items[k]]
                    0 <= k < payload.items.len() && letter.error_detail
                        == if payload.items[k].quantity <= 0 {
                        "quantity for sku "@ + payload.items[k].sku + " must be positive, got "@
                            + signed_decimal(payload.items[k].quantity as int)
                    } else {
                        "duplicate sku "@ + payload.items[k].sku + " in one reservation request"@
                    }
            }
        }),
{
    let lines = asked_lines(payload.items);
    lemma_asked(payload);
    refused_requests_name_their_cause(lines);
    if lines.len() > 0 && request_verdict(lines) is Err {
        let refusal = request_verdict(lines)->Err_0;
        let k = choose|k: int|
            #![trigger lines[k]]
            {
                &&& 0 <= k < lines.len()
                &&& lines[k].quantity <= 0 ==> refusal == (RequestErrorView::NonPositiveQuantity {
                    sku: lines[k].sku,
                    quantity: lines[k].quantity,
                })
                &&& lines[k].quantity > 0 ==> refusal == RequestErrorView::DuplicateSku(
                    lines[k].sku,
                )
            };
        assert(payload.items[k].sku == lines[k].sku);
    }
    if request_verdict(lines) is Ok {
        assert forall|i: int, j: int| 0 <= i < j < payload.items.len() implies (
        #[trigger] payload.items[i]).sku != (#[trigger] payload.items[j]).sku by {
            assert(lines[i].sku != lines[j].sku);
        }
        assert forall|i: int| 0 <= i < payload.items.len() implies (
        #[trigger] payload.items[i]).quantity > 0 by {
            assert(lines[i].quantity > 0);
        }
    }
}

/// A release gives the stock of the order's active reservation back, line by
/// line, and reports it under that reservation to the order that the command
/// names. A reservation that is not active gives nothing back and reports
/// nothing.
pub proof fn release_commands_are_answered(
    delivery: DeliveryView,
    envelope: RawView,
    payload: ReleaseInventoryView,
    tables: TablesView,
    ids: InventoryIds,
)
    requires
        tables.reservation is Some,
        tables.reservation->0.version < i64::MAX,
        stock_adds_up(tables.stock),
        forall|i: int, j: int|
            0 <= i < j < tables.reservation_items.len() ==> (
            #[trigger] tables.reservation_items[i]).sku != (
            #[trigger] tables.reservation_items[j]).sku,
        tables.reservation->0.status is Active ==> forall|i: int, k: int|
            0 <= i < tables.stock.len() && 0 <= k < tables.reservation_items.len() && (
            #[trigger] tables.stock[i]).sku == (#[trigger] tables.reservation_items[k]).sku ==> 0
                < tables.reservation_items[k].quantity <= tables.stock[i].reserved_qty,
    ensures
        ({
            let handled = reaction(delivery, envelope, CommandView::Release(payload), tables, ids);
            let writes = committed(handled.effects)->0;
            let row = tables.reservation->0;
            let after = writes.reservation->0;
            &&& applied_once(handled, delivery, envelope)
            &&& committed(handled.effects) is Some
            &&& writes.reservation_items.len() == 0
            &&& row.status is Active ==> {
                &&& writes.reservation is Some
                &&& after.status is Released
                &&& after.version == row.version + 1
                &&& after.updated_at == delivery.now
                &&& after.id == row.id
                &&& after.order_id == row.order_id
                &&& after.reason_code == row.reason_code
                &&& after.created_at == row.created_at
                &&& writes.stock.len() == tables.stock.len()
                &&& forall|i: int, k: int|
                    0 <= i < tables.stock.len() && 0 <= k < tables.reservation_items.len() && (
                    #[trigger] tables.stock[i]).sku == (#[trigger] tables.reservation_items[k]).sku
                        ==> moved(
                        tables.stock[i],
                        writes.stock[i],
                        tables.reservation_items[k].quantity as int,
                        delivery.now,
                    )
                &&& forall|i: int|
                    0 <= i < tables.stock.len() && !asks_for(
                        tables.reservation_items,
                        (#[trigger] tables.stock[i]).sku,
                    ) ==> writes.stock[i] == tables.stock[i]
                &&& writes.outbox.len() == 1
                &&& answers(
                    writes.outbox[0],
                    envelope,
                    "inventory.inventory_released"@,
                    "inventory"@,
                    "inventory.events.v1"@,
                    "inventory_reservation"@,
                    row.id,
                    2,
                    payload.order_id,
                    ids.event,
                    delivery.now,
                )
                &&& writes.outbox[0].envelope.payload == EventPayloadView::InventoryReleased(
                    InventoryReleasedPayload { order_id: payload.order_id, reservation_id: row.id },
                )
            }
            &&& !(row.status is Active) ==> {
                &&& writes.reservation is None
                &&& writes.stock == tables.stock
                &&& writes.outbox.len() == 0
            }
        }),
{
    reveal_with_fuel(committed, 2);
    if tables.reservation->0.status is Active {
        released_quantities_become_available(
            tables.reservation->0,
            tables.reservation_items,
            tables.stock,
            delivery.now,
        );
    }
}

/// A release for an order without a reservation is put aside with a dead
/// letter that names the order; nothing is written.
pub proof fn releases_of_nothing_are_put_aside(
    delivery: DeliveryView,
    envelope: RawView,
    payload: ReleaseInventoryView,
    tables: TablesView,
    ids: InventoryIds,
)
    requires
        tables.reservation is None,
    ensures
        ({
            let handled = reaction(delivery, envelope, CommandView::Release(payload), tables, ids);
            let effects = handled.effects;
            &&& handled.outcome is Poison
            &&& effects.len() == 2
            &&& effects[0] is Rollback
            &&& effects[1] matches EffectView::PublishDlq(letter) && letter.error_code
                == "UNKNOWN_ORDER"@ && letter.error_detail == "no reservation found for order "@
                + uuid_text(payload.order_id) && letter.envelope == Some(envelope)
        }),
{
}

/// Each event type names its own command, and no other text names one.
pub proof fn event_types_name_inventory_commands(event_type: Seq<char>)
    ensures
        command_named(event_type) == Some(CommandKind::ReserveInventory) <==> event_type
            == "inventory.reserve_inventory"@,
        command_named(event_type) == Some(CommandKind::ReleaseInventory) <==> event_type
            == "inventory.release_inventory"@,
{
    reveal_strlit("inventory.reserve_inventory");
    reveal_strlit("inventory.release_inventory");
    assert("inventory.reserve_inventory"@[12] == 's');
    assert("inventory.release_inventory"@[12] == 'l');
}

/// A command whose record can be read, which is new and next in line, is
/// answered with the header that it bears; one whose payload cannot be read
/// becomes a dead letter that names the shape it should have had.
pub proof fn commands_in_line_are_answered(
    delivery: DeliveryView,
    header: EnvelopeView<()>,
    payload: Result<CommandView, Seq<char>>,
    facts: InboxFactsView,
    tables: TablesView,
    ids: InventoryIds,
    envelope: RawView,
)
    requires
        header.event_type == "inventory.reserve_inventory"@ || header.event_type
            == "inventory.release_inventory"@,
        in_line(delivery, header, facts, envelope),
    ensures
        ({
            let handled = handling(delivery, Ok(header), payload, facts, tables, ids);
            let effects = handled.effects;
            &&& payload matches Ok(command) ==> handled == reaction(
                delivery,
                envelope,
                command,
                tables,
                ids,
            )
            &&& payload matches Err(error) ==> {
                &&& handled.outcome is Poison
                &&& effects.len() == 2
                &&& effects[0] is Rollback
                &&& effects[1] matches EffectView::PublishDlq(letter) && letter.error_code
                    == "MALFORMED_PAYLOAD"@ && letter.error_detail == "payload did not match "@ + (
                if header.event_type == "inventory.reserve_inventory"@ {
                    "reserve_inventory"@
                } else {
                    "release_inventory"@
                }) + " shape: "@ + error
            }
        }),
{
    event_types_name_inventory_commands(header.event_type);
    assert(delivery.envelope(header) == envelope);
}

/// Stock is in order exactly where it adds up; it holds what lines took where
/// every row of a SKU that the lines name has as much reserved.
pub proof fn stock_in_order_adds_up(tables: TablesView)
    requires
        forall|i: int, j: int|
            0 <= i < j < tables.reservation_items.len() ==> (
            #[trigger] tables.reservation_items[i]).sku != (
            #[trigger] tables.reservation_items[j]).sku,
    ensures
        tables.valid() <==> stock_adds_up(tables.stock) && (tables.reservation is Some
            && tables.reservation->0.status is Active ==> tables.reservation->0.version < i64::MAX
            && forall|i: int, k: int|
            0 <= i < tables.stock.len() && 0 <= k < tables.reservation_items.len() && (
            #[trigger] tables.stock[i]).sku == (#[trigger] tables.reservation_items[k]).sku ==> 0
                < tables.reservation_items[k].quantity <= tables.stock[i].reserved_qty),
{
    stock_holds_by_lines(tables.stock, tables.reservation_items);
}

/// What the rows of the stock say.
pub open spec fn row_meets(stock: Seq<StockRow>, sku: Seq<char>, quantity: i64) -> bool {
    exists|i: int|
        0 <= i < stock.len() && (#[trigger] stock[i]).sku@ == sku && quantity
            <= stock[i].available_qty
}

/// A reservation for an order that has none is granted exactly where every
/// line finds a row of its SKU with no less available than it asks for. Then
/// each such row gives the line's quantity from what is available to what is
/// reserved; otherwise no row changes.
pub proof fn reservations_follow_the_rows(
    order_id: u128,
    lines: &Vec<ReservationLine>,
    stock: &mut Vec<StockRow>,
    id: u128,
    now: Timestamp,
    r: (ReserveOutcome, Option<ReservationRow>),
)
    requires
        call_ensures(decide_reservation, (None, order_id, lines, stock, id, now), r),
        stock_adds_up(views(old(stock)@)),
        forall|k: int| 0 <= k < lines@.len() ==> (#[trigger] lines@[k]).quantity > 0,
        forall|i: int, j: int|
            0 <= i < j < lines@.len() ==> (#[trigger] lines@[i]).sku@ != (
            #[trigger] lines@[j]).sku@,
    ensures
        ({
            let (outcome, row) = r;
            let before = old(stock)@;
            let after = final(stock)@;
            let granted = forall|k: int|
                0 <= k < lines@.len() ==> row_meets(
                    before,
                    (#[trigger] lines@[k]).sku@,
                    lines@[k].quantity,
                );
            &&& outcome.status is Active <==> granted
            &&& outcome.status is Rejected <==> !granted
            &&& outcome.created
            &&& outcome.reservation_id == id
            &&& granted ==> outcome.reason_code is None
            &&& !granted ==> outcome.reason_code is Some && (outcome.reason_code->0@
                == "SKU_NOT_FOUND"@ || outcome.reason_code->0@ == "INSUFFICIENT_STOCK"@)
            &&& row is Some
            &&& row->0.id == id
            &&& row->0.order_id == order_id
            &&& row->0.status == outcome.status
            &&& row->0.version == 1
            &&& row->0.created_at == now
            &&& after.len() == before.len()
            &&& granted ==> forall|i: int, k: int|
                0 <= i < before.len() && 0 <= k < lines@.len() && (#[trigger] before[i]).sku@ == (
                #[trigger] lines@[k]).sku@ ==> {
                    &&& after[i].sku@ == before[i].sku@
                    &&& after[i].available_qty == before[i].available_qty - lines@[k].quantity
                    &&& after[i].reserved_qty == before[i].reserved_qty + lines@[k].quantity
                    &&& after[i].fulfilled_qty == before[i].fulfilled_qty
                    &&& after[i].version == before[i].version + 1
                    &&& after[i].updated_at == now
                }
            &&& !granted ==> forall|i: int|
                0 <= i < before.len() ==> (#[trigger] after[i])@ == before[i]@
        }),
{
    let (outcome, row) = r;
    let before = old(stock)@;
    let after = final(stock)@;
    let rows = views(before);
    let asked = views(lines@);
    let granted = forall|k: int|
        0 <= k < lines@.len() ==> row_meets(
            before,
            (#[trigger] lines@[k]).sku@,
            lines@[k].quantity,
        );
    assert(opt_view::<&ReservationRow>(None) is None);
    assert forall|i: int| 0 <= i < before.len() implies #[trigger] before[i]@ == rows[i] by {
    }
    assert forall|k: int| 0 <= k < lines@.len() implies #[trigger] lines@[k]@ == asked[k] by {
    }
    assert forall|k: int| 0 <= k < asked.len() implies (#[trigger] asked[k]).quantity > 0 by {
        assert(lines@[k]@ == asked[k]);
        assert(lines@[k].quantity > 0);
    }
    assert forall|i: int, j: int| 0 <= i < j < asked.len() implies (#[trigger] asked[i]).sku != (
    #[trigger] asked[j]).sku by {
        assert(lines@[i].sku@ != lines@[j].sku@);
    }
    assert forall|k: int| 0 <= k < lines@.len() implies row_meets(
        before,
        (#[trigger] lines@[k]).sku@,
        lines@[k].quantity,
    ) == meets(rows, asked[k]) by {
        assert(lines@[k]@ == asked[k]);
        if row_meets(before, lines@[k].sku@, lines@[k].quantity) {
            let i = choose|i: int|
                0 <= i < before.len() && (#[trigger] before[i]).sku@ == lines@[k].sku@
                    && lines@[k].quantity <= before[i].available_qty;
            assert(before[i]@ == rows[i]);
        }
        if meets(rows, asked[k]) {
            let i = choose|i: int|
                0 <= i < rows.len() && (#[trigger] rows[i]).sku == asked[k].sku && asked[k].quantity
                    <= rows[i].available_qty;
            assert(before[i]@ == rows[i]);
        }
    }
    reservations_are_granted_exactly_when_every_line_is_met(order_id, asked, rows, id, now);
    if granted {
        assert forall|k: int| 0 <= k < asked.len() implies meets(rows, #[trigger] asked[k]) by {
            assert(row_meets(before, lines@[k].sku@, lines@[k].quantity));
        }
        granted_quantities_are_set_aside(order_id, asked, rows, id, now);
        assert forall|i: int, k: int|
            0 <= i < before.len() && 0 <= k < lines@.len() && (#[trigger] before[i]).sku@ == (
            #[trigger] lines@[k]).sku@ implies {
            &&& after[i].sku@ == before[i].sku@
            &&& after[i].available_qty == before[i].available_qty - lines@[k].quantity
            &&& after[i].reserved_qty == before[i].reserved_qty + lines@[k].quantity
            &&& after[i].fulfilled_qty == before[i].fulfilled_qty
            &&& after[i].version == before[i].version + 1
            &&& after[i].updated_at == now
        } by {
            assert(rows[i].sku == asked[k].sku);
            assert(views(after)[i] == after[i]@);
        }
    } else {
        let k = choose|k: int|
            0 <= k < lines@.len() && !row_meets(
                before,
                (#[trigger] lines@[k]).sku@,
                lines@[k].quantity,
            );
        assert(!meets(rows, asked[k]));
        assert forall|i: int| 0 <= i < before.len() implies (#[trigger] after[i])@
            == before[i]@ by {
            assert(views(after)[i] == after[i]@);
        }
    }
}

/// A release of an active reservation gives the quantity of each line, in the
/// row of its SKU, from what is reserved back to what is available. One that
/// is not active gives nothing back, and an order without one is told so.
pub proof fn releases_follow_the_rows(
    reservation: Option<ReservationRow>,
    items: &Vec<ReservationLine>,
    stock: &mut Vec<StockRow>,
    order_id: u128,
    now: Timestamp,
    r: Result<(ReleaseOutcome, Option<ReservationRow>), ReleaseError>,
)
    requires
        call_ensures(release, (reservation, items, stock, order_id, now), r),
        reservation is Some ==> reservation->0.version < i64::MAX,
        stock_adds_up(views(old(stock)@)),
        forall|i: int, j: int|
            0 <= i < j < items@.len() ==> (#[trigger] items@[i]).sku@ != (
            #[trigger] items@[j]).sku@,
        forall|i: int, k: int|
            0 <= i < old(stock)@.len() && 0 <= k < items@.len() && (
            #[trigger] old(stock)@[i]).sku@ == (#[trigger] items@[k]).sku@ ==> 0
                < items@[k].quantity <= old(stock)@[i].reserved_qty,
    ensures
        ({
            let before = old(stock)@;
            let after = final(stock)@;
            let row = reservation->0;
            &&& r is Err <==> reservation is None
            &&& r is Err ==> r->Err_0 == ReleaseError::NotFound(order_id)
            &&& r matches Ok((outcome, changed)) ==> {
                &&& outcome.reservation_id == row.id
                &&& outcome.created <==> row.status is Active
                &&& changed is Some <==> row.status is Active
                &&& changed is Some ==> changed->0.id == row.id && changed->0.order_id
                    == row.order_id && changed->0.status is Released && changed->0.version
                    == row.version + 1 && changed->0.updated_at == now
            }
            &&& reservation is None || !(row.status is Active) ==> after == before
            &&& reservation is Some && row.status is Active ==> {
                &&& after.len() == before.len()
                &&& forall|i: int, k: int|
                    0 <= i < before.len() && 0 <= k < items@.len() && (#[trigger] before[i]).sku@
                        == (#[trigger] items@[k]).sku@ ==> {
                        &&& after[i].sku@ == before[i].sku@
                        &&& after[i].available_qty == before[i].available_qty + items@[k].quantity
                        &&& after[i].reserved_qty == before[i].reserved_qty - items@[k].quantity
                        &&& after[i].fulfilled_qty == before[i].fulfilled_qty
                        &&& after[i].version == before[i].version + 1
                        &&& after[i].updated_at == now
                    }
            }
        }),
{
    let before = old(stock)@;
    let after = final(stock)@;
    let rows = views(before);
    let asked = views(items@);
    if reservation is Some && reservation->0.status is Active {
        assert forall|i: int, j: int| 0 <= i < j < asked.len() implies (
        #[trigger] asked[i]).sku != (#[trigger] asked[j]).sku by {
            assert(items@[i].sku@ != items@[j].sku@);
        }
        assert forall|i: int, k: int|
            0 <= i < rows.len() && 0 <= k < asked.len() && (#[trigger] rows[i]).sku == (
            #[trigger] asked[k]).sku implies 0 < asked[k].quantity <= rows[i].reserved_qty by {
            assert(before[i].sku@ == items@[k].sku@);
        }
        released_quantities_become_available(reservation->0@, asked, rows, now);
        assert forall|i: int, k: int|
            0 <= i < before.len() && 0 <= k < items@.len() && (#[trigger] before[i]).sku@ == (
            #[trigger] items@[k]).sku@ implies {
            &&& after[i].sku@ == before[i].sku@
            &&& after[i].available_qty == before[i].available_qty + items@[k].quantity
            &&& after[i].reserved_qty == before[i].reserved_qty - items@[k].quantity
            &&& after[i].fulfilled_qty == before[i].fulfilled_qty
            &&& after[i].version == before[i].version + 1
            &&& after[i].updated_at == now
        } by {
            assert(rows[i].sku == asked[k].sku);
            assert(views(after)[i] == after[i]@);
        }
        assert(views(after).len() == after.len());
    }
}

/// Stock that is seeded has as much available as was said; what is reserved,
/// what was fulfilled and the version stay, or start anew.
pub proof fn seeded_stock_is_available(
    existing: Option<StockRow>,
    sku: &str,
    available_qty: i64,
    now: Timestamp,
    r: StockRow,
)
    requires
        call_ensures(seed_stock, (existing, sku, available_qty, now), r),
    ensures
        r.available_qty == available_qty,
        r.updated_at == now,
        existing is None ==> r.sku@ == sku@ && r.reserved_qty == 0 && r.fulfilled_qty == 0
            && r.version == 1 && r.created_at == now,
        existing matches Some(row) ==> r.sku@ == row.sku@ && r.reserved_qty == row.reserved_qty
            && r.fulfilled_qty == row.fulfilled_qty && r.version == row.version && r.created_at
            == row.created_at,
{
}

/// Raw pairs make lines exactly where there are some, every quantity is
/// positive and no SKU stands twice; they come out as they went in.
pub proof fn raw_pairs_make_lines(
    raw: &[(String, i64)],
    r: Result<Vec<ReservationLine>, ReservationRequestError>,
)
    requires
        call_ensures(validate_items, (raw,), r),
    ensures
        r is Ok <==> {
            &&& raw@.len() > 0
            &&& forall|i: int| 0 <= i < raw@.len() ==> (#[trigger] raw@[i]).1 > 0
            &&& forall|i: int, j: int|
                0 <= i < j < raw@.len() ==> (#[trigger] raw@[i]).0@ != (#[trigger] raw@[j]).0@
        },
        r is Ok ==> r->Ok_0@.len() == raw@.len() && forall|i: int|
            0 <= i < raw@.len() ==> (#[trigger] r->Ok_0@[i]).sku@ == raw@[i].0@
                && r->Ok_0@[i].quantity == raw@[i].1,
        raw@.len() == 0 ==> r is Err && r->Err_0 is Empty,
{
    let lines = raw_lines(raw@);
    refused_requests_name_their_cause(lines);
    assert forall|i: int| 0 <= i < raw@.len() implies (#[trigger] raw@[i]).0@ == lines[i].sku
        && raw@[i].1 == lines[i].quantity by {
    }
    if r is Ok {
        assert forall|i: int, j: int| 0 <= i < j < raw@.len() implies (#[trigger] raw@[i]).0@ != (
        #[trigger] raw@[j]).0@ by {
            assert(lines[i].sku != lines[j].sku);
        }
        assert forall|i: int| 0 <= i < raw@.len() implies (#[trigger] raw@[i]).1 > 0 by {
            assert(lines[i].quantity > 0);
        }
        let kept = r->Ok_0@;
        assert(views(kept).len() == kept.len());
        assert forall|i: int| 0 <= i < raw@.len() implies (#[trigger] kept[i]).sku@ == raw@[i].0@
            && kept[i].quantity == raw@[i].1 by {
            assert(views(kept)[i] == kept[i]@);
        }
    } else if raw@.len() > 0 && (forall|i: int| 0 <= i < raw@.len() ==> (#[trigger] raw@[i]).1 > 0)
        && (forall|i: int, j: int|
        0 <= i < j < raw@.len() ==> (#[trigger] raw@[i]).0@ != (#[trigger] raw@[j]).0@) {
        assert forall|i: int| 0 <= i < lines.len() implies (#[trigger] lines[i]).quantity > 0 by {
            assert(raw@[i].1 > 0);
        }
        assert forall|i: int, j: int| 0 <= i < j < lines.len() implies (
        #[trigger] lines[i]).sku != (#[trigger] lines[j]).sku by {
            assert(raw@[i].0@ != raw@[j].0@);
        }
    }
}

/// A record is handled for the inventory consumer, at the moment and with the
/// tables that are given.
pub proof fn inventory_commands_are_handled_as_owed(
    source_topic: &str,
    record: &ConsumedRecord,
    header: &Result<Envelope<()>, String>,
    payload: &Result<Command, String>,
    facts: &InboxFacts,
    tables: InventoryTables,
    ids: &InventoryIds,
    now: Timestamp,
    r: Handled<InventoryWrites>,
)
    requires
        call_ensures(handle_one, (source_topic, record, header, payload, facts, tables, ids, now), r),
    ensures
        r@ == handling(
            DeliveryView {
                consumer: "inventory-reserve-consumer"@,
                source_topic: source_topic@,
                record: record@,
                now,
            },
            result_view(*header),
            payload_view(*payload),
            facts@,
            tables@,
            *ids,
        ),
{
}

/// The reports of the inventory service go to the order of their command: a
/// granted reservation under its identifier, a refused one with its reason,
/// and a release under the reservation that was given back.
pub proof fn inventory_reports_name_the_order(
    trigger: &RawEnvelope,
    payload: &ReserveInventoryPayload,
    outcome: &ReserveOutcome,
    release: &ReleaseInventoryPayload,
    reservation_id: u128,
    event_id: u128,
    now: Timestamp,
    r: NewOutboxEvent,
)
    ensures
        call_ensures(
            build_reservation_outcome_event,
            (trigger, payload, outcome, event_id, now),
            r,
        ) ==> {
            &&& r.topic@ == "inventory.events.v1"@
            &&& r.message_key@ == uuid_text(payload.order_id)
            &&& r.aggregate_id == outcome.reservation_id
            &&& outcome.status is Active ==> (r.envelope.payload matches
                EventPayload::ReservationSucceeded(told) && told.order_id == payload.order_id
                && told.reservation_id == outcome.reservation_id && views(told.items@) == views(
                payload.items@,
            ))
            &&& !(outcome.status is Active) ==> (r.envelope.payload matches
                EventPayload::ReservationFailed(told) && told.order_id == payload.order_id
                && views(told.items@) == views(payload.items@) && (outcome.reason_code is Some
                ==> told.reason_code@ == outcome.reason_code->0@))
        },
        call_ensures(
            build_released_event,
            (trigger, release, reservation_id, event_id, now),
            r,
        ) ==> {
            &&& r.topic@ == "inventory.events.v1"@
            &&& r.message_key@ == uuid_text(release.order_id)
            &&& r.aggregate_id == reservation_id
            &&& r.envelope.payload matches EventPayload::InventoryReleased(told) && told.order_id
                == release.order_id && told.reservation_id == reservation_id
        },
{
    let shown = r@.envelope.payload;
    assert(shown == r.envelope.payload@);
}

/// A readable record of another event type, or of another version than the
/// first, is given up: nothing is written.
pub proof fn other_events_are_given_up(
    delivery: DeliveryView,
    header: EnvelopeView<()>,
    payload: Result<CommandView, Seq<char>>,
    facts: InboxFactsView,
    tables: TablesView,
    ids: InventoryIds,
)
    requires
        delivery.record.value is Some,
        json_member(delivery.record.value->0, "payload"@) is Some,
        (header.event_type != "inventory.reserve_inventory"@ && header.event_type
            != "inventory.release_inventory"@) || header.schema_version != 1,
    ensures
        ({
            let handled = handling(delivery, Ok(header), payload, facts, tables, ids);
            let effects = handled.effects;
            &&& handled.outcome is Poison
            &&& effects.len() == 1
            &&& effects[0] matches EffectView::PublishDlq(letter) && letter.error_code
                == "UNSUPPORTED_SCHEMA"@ && letter.envelope == Some(delivery.envelope(header))
        }),
{
    event_types_name_inventory_commands(header.event_type);
}

/// A payload fits its header where the event type is the one of its kind.
pub proof fn payloads_fit_their_event_type(header: EnvelopeView<()>, payload: CommandView)
    requires
        header.event_type == "inventory.reserve_inventory"@ || header.event_type
            == "inventory.release_inventory"@,
    ensures
        payload_fits(Ok(header), Ok(payload)) <==> header.event_type == if payload is Reserve {
            "inventory.reserve_inventory"@
        } else {
            "inventory.release_inventory"@
        },
{
    event_types_name_inventory_commands(header.event_type);
}

/// A record that is handled now is handled as owed with fresh identifiers,
/// and a reservation that is made now gets one.
pub proof fn inventory_commands_are_handled_with_fresh_identifiers(
    source_topic: &str,
    record: &ConsumedRecord,
    header: &Result<Envelope<()>, String>,
    payload: &Result<Command, String>,
    facts: &InboxFacts,
    tables: InventoryTables,
    handled: Handled<InventoryWrites>,
    order_id: u128,
    lines: &Vec<ReservationLine>,
    stock: &mut Vec<StockRow>,
    now: Timestamp,
    r: (ReserveOutcome, Option<ReservationRow>),
)
    ensures
        call_ensures(
            handle_record,
            (source_topic, record, header, payload, facts, tables),
            handled,
        ) ==> exists|ids: InventoryIds, at: Timestamp|
            {
                &&& handled@ == #[trigger] handling(
                    DeliveryView {
                        consumer: "inventory-reserve-consumer"@,
                        source_topic: source_topic@,
                        record: record@,
                        now: at,
                    },
                    result_view(*header),
                    payload_view(*payload),
                    facts@,
                    tables@,
                    ids,
                )
                &&& is_version_7(ids.reservation)
                &&& is_version_7(ids.event)
            },
        call_ensures(reserve, (None, order_id, lines, stock, now), r) ==> {
            let (outcome, row) = r;
            let owed = reservation(
                None,
                order_id,
                views(lines@),
                views(old(stock)@),
                outcome.reservation_id,
                now,
            );
            &&& outcome@ == owed.outcome
            &&& opt_view(row) == owed.reservation
            &&& views(final(stock)@) == owed.stock
            &&& is_version_7(outcome.reservation_id)
        },
{
    assert(opt_view::<&ReservationRow>(None) is None);
}

/// The SKUs of the lines come out in ascending order, each as often as the
/// lines name it.
pub proof fn skus_are_sorted(lines: &[ReservationLine], r: Vec<String>)
    requires
        call_ensures(sorted_skus, (lines,), r),
    ensures
        r@.len() == lines@.len(),
        forall|i: int, j: int|
            0 <= i < j < r@.len() ==> !text_before((#[trigger] r@[j])@, (#[trigger] r@[i])@),
        forall|k: int|
            0 <= k < lines@.len() ==> texts(r@).contains((#[trigger] lines@[k]).sku@),
{
    broadcast use vstd::seq_lib::group_to_multiset_ensures;

    let sorted = texts(r@);
    let asked = line_skus(views(lines@));
    assert(sorted.len() == sorted.to_multiset().len());
    assert(asked.len() == asked.to_multiset().len());
    assert forall|i: int, j: int| 0 <= i < j < r@.len() implies !text_before(
        (#[trigger] r@[j])@,
        (#[trigger] r@[i])@,
    ) by {
        assert(sorted[i] == r@[i]@ && sorted[j] == r@[j]@);
        let leq = sku_order();
        assert(leq(sorted[i], sorted[j]));
    }
    assert forall|k: int| 0 <= k < lines@.len() implies sorted.contains(
        (#[trigger] lines@[k]).sku@,
    ) by {
        assert(views(lines@)[k] == lines@[k]@);
        assert(asked[k] == lines@[k].sku@);
        assert(asked.contains(asked[k]));
        assert(asked.to_multiset().count(asked[k]) > 0);
    }
}

/// Every order can be decided and every reservation given back on stock that
/// adds up, whatever the quantities are.
pub proof fn every_order_can_be_decided(
    existing: Option<&ReservationRow>,
    order_id: u128,
    lines: &Vec<ReservationLine>,
    stock: &mut Vec<StockRow>,
    id: u128,
    now: Timestamp,
    row: Option<ReservationRow>,
    raw: &[(String, i64)],
)
    requires
        stock_adds_up(views(old(stock)@)),
        forall|k: int| 0 <= k < lines@.len() ==> (#[trigger] lines@[k]).quantity > 0,
        forall|i: int, j: int|
            0 <= i < j < lines@.len() ==> (#[trigger] lines@[i]).sku@ != (
            #[trigger] lines@[j]).sku@,
        row is Some ==> row->0.version < i64::MAX,
        forall|i: int, k: int|
            0 <= i < old(stock)@.len() && 0 <= k < lines@.len() && (
            #[trigger] old(stock)@[i]).sku@ == (#[trigger] lines@[k]).sku@ ==> lines@[k].quantity
                <= old(stock)@[i].reserved_qty,
    ensures
        call_requires(validate_items, (raw,)),
        call_requires(decide_reservation, (existing, order_id, lines, stock, id, now)),
        call_requires(reserve, (existing, order_id, lines, stock, now)),
        call_requires(release, (row, lines, stock, order_id, now)),
{
    let rows = views(old(stock)@);
    let asked = views(lines@);
    assert forall|k: int| 0 <= k < asked.len() implies (#[trigger] asked[k]).quantity > 0 by {
        assert(lines@[k].quantity > 0);
    }
    assert forall|i: int, j: int| 0 <= i < j < asked.len() implies (#[trigger] asked[i]).sku != (
    #[trigger] asked[j]).sku by {
        assert(lines@[i].sku@ != lines@[j].sku@);
    }
    assert forall|i: int, k: int|
        0 <= i < rows.len() && 0 <= k < asked.len() && (#[trigger] rows[i]).sku == (
        #[trigger] asked[k]).sku implies 0 < asked[k].quantity <= rows[i].reserved_qty by {
        assert(old(stock)@[i].sku@ == lines@[k].sku@);
    }
    stock_holds_by_lines(rows, asked);
}

/// Every command whose payload fits its header is handled on tables that are
/// in order.
pub proof fn every_inventory_command_can_be_handled(
    source_topic: &str,
    record: &ConsumedRecord,
    header: &Result<Envelope<()>, String>,
    payload: &Result<Command, String>,
    facts: &InboxFacts,
    tables: InventoryTables,
    ids: &InventoryIds,
    now: Timestamp,
)
    requires
        tables@.valid(),
        *payload is Err || *header is Err || payload_fits(
            result_view(*header),
            payload_view(*payload),
        ),
    ensures
        call_requires(handle_one, (source_topic, record, header, payload, facts, tables, ids, now)),
        call_requires(handle_record, (source_topic, record, header, payload, facts, tables)),
{
}

}
