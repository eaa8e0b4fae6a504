//! How the inventory service handles its commands: it reserves stock and
//! gives it back, and reports what came of it.

use vstd::prelude::*;
use vstd::string::*;

use crate::consuming::{
    committed, dropped, result_view, stopped_records_write_nothing, taken_events_become_duplicates,
    Delivery, DeliveryView, Handled, HandledView, LedgerView, RawEnvelope, RawView,
};
use crate::contracts::inventory::{
    InventoryReleasedPayload, ReleaseInventoryPayload, ReleaseInventoryView,
    ReservationFailedPayload, ReservationFailedView, ReservationSucceededPayload,
    ReservationSucceededView, ReserveInventoryItem, ReserveInventoryItemView,
    ReserveInventoryPayload, ReserveInventoryView, INVENTORY_EVENTS_TOPIC,
    INVENTORY_PRODUCER_NAME, INVENTORY_RELEASED_EVENT_TYPE, INVENTORY_RELEASED_SCHEMA_VERSION,
    RELEASE_INVENTORY_COMMAND_TYPE, RELEASE_INVENTORY_SCHEMA_VERSION, RESERVATION_AGGREGATE_TYPE,
    RESERVATION_FAILED_EVENT_TYPE, RESERVATION_FAILED_SCHEMA_VERSION,
    RESERVATION_SUCCEEDED_EVENT_TYPE, RESERVATION_SUCCEEDED_SCHEMA_VERSION,
    RESERVE_INVENTORY_COMMAND_TYPE, RESERVE_INVENTORY_SCHEMA_VERSION,
};
use crate::contracts::{Envelope, EnvelopeView, EventPayload, EventPayloadView};
use crate::domain_common::is_version_7;
use crate::ids::fresh_id;
use crate::inventory::domain::{
    accepted_requests_are_valid, raw_lines, request_verdict, validate_items, LineView,
    ReservationLine, ReservationStatus,
};
use crate::inventory::repository::{
    decide_reservation, release, reservation, reservation_released, stock_holds,
    stock_holds_lines, stock_in_order, stock_released, stock_valid, ReleaseError, ReservationRow,
    ReservationView, ReserveOutcome, ReserveView, StockRow, StockView,
};
use crate::messaging::ConsumedRecord;
use crate::model::{opt_view, views};
use crate::persistence::inbox::{InboxFacts, InboxFactsView};
use crate::persistence::outbox::{
    all_in_chain, build_reply, reply_to, MessageKind, NewOutboxEvent, OutboxView,
};
use crate::text::text_eq;
use crate::time::{first_instant, last_instant, utc_now, Timestamp};

pub use crate::consuming::{HandleOutcome, ProcessSummary, SOURCE_PARTITION};

verus! {

pub const CONSUMER_NAME: &'static str = "inventory-reserve-consumer";

pub const FAULT_AFTER_DB_COMMIT_BEFORE_OFFSET_COMMIT: &'static str =
    "inventory.after_db_commit_before_offset_commit";

/// The commands of the inventory service.
#[derive(Debug, Clone, Copy, PartialEq, Eq, Structural)]
pub enum CommandKind {
    ReserveInventory,
    ReleaseInventory,
}

/// The command that an event type names.
pub open spec fn command_named(event_type: Seq<char>) -> Option<CommandKind> {
    if event_type == RESERVE_INVENTORY_COMMAND_TYPE@ {
        Some(CommandKind::ReserveInventory)
    } else if event_type == RELEASE_INVENTORY_COMMAND_TYPE@ {
        Some(CommandKind::ReleaseInventory)
    } else {
        None
    }
}

/// The command that an event type names.
pub fn command_kind(event_type: &str) -> (r: Option<CommandKind>)
    ensures
        r == command_named(event_type@),
{
    if text_eq(event_type, RESERVE_INVENTORY_COMMAND_TYPE) {
        Some(CommandKind::ReserveInventory)
    } else if text_eq(event_type, RELEASE_INVENTORY_COMMAND_TYPE) {
        Some(CommandKind::ReleaseInventory)
    } else {
        None
    }
}

/// The version in which a command is understood.
pub open spec fn command_schema(kind: CommandKind) -> u32 {
    match kind {
        CommandKind::ReserveInventory => RESERVE_INVENTORY_SCHEMA_VERSION,
        CommandKind::ReleaseInventory => RELEASE_INVENTORY_SCHEMA_VERSION,
    }
}

/// The version in which the record is understood, where its event type names
/// a command.
pub open spec fn expected_schema(header: Result<EnvelopeView<()>, Seq<char>>) -> Option<u32> {
    match header {
        Ok(h) => match command_named(h.event_type) {
            Some(kind) => Some(command_schema(kind)),
            None => None,
        },
        Err(_) => None,
    }
}

/// The version in which the command that a header names is understood.
pub fn expected_version(header: &Result<Envelope<()>, String>) -> (r: Option<u32>)
    ensures
        r == expected_schema(result_view(*header)),
{
    match header {
        Ok(h) => match command_kind(h.event_type.as_str()) {
            Some(CommandKind::ReserveInventory) => Some(RESERVE_INVENTORY_SCHEMA_VERSION),
            Some(CommandKind::ReleaseInventory) => Some(RELEASE_INVENTORY_SCHEMA_VERSION),
            None => None,
        },
        Err(_) => None,
    }
}

/// The name of a command's shape.
pub open spec fn command_shape(kind: CommandKind) -> Seq<char> {
    match kind {
        CommandKind::ReserveInventory => "reserve_inventory"@,
        CommandKind::ReleaseInventory => "release_inventory"@,
    }
}

/// A command of the inventory service.
#[derive(Debug)]
pub enum Command {
    Reserve(ReserveInventoryPayload),
    Release(ReleaseInventoryPayload),
}

/// What a [`Command`] says.
pub enum CommandView {
    Reserve(ReserveInventoryView),
    Release(ReleaseInventoryView),
}

impl View for Command {
    type V = CommandView;

    open spec fn view(&self) -> CommandView {
        match *self {
            Command::Reserve(p) => CommandView::Reserve(p@),
            Command::Release(p) => CommandView::Release(p@),
        }
    }
}

/// The kind of a command.
pub open spec fn command_of(command: CommandView) -> CommandKind {
    match command {
        CommandView::Reserve(_) => CommandKind::ReserveInventory,
        CommandView::Release(_) => CommandKind::ReleaseInventory,
    }
}

/// What the tables of the service say of an order: its reservation, the lines
/// of that, and the stock of the SKUs that the command or those lines name.
#[derive(Debug)]
pub struct InventoryTables {
    pub reservation: Option<ReservationRow>,
    pub reservation_items: Vec<ReservationLine>,
    pub stock: Vec<StockRow>,
}

/// What [`InventoryTables`] say.
pub struct TablesView {
    pub reservation: Option<ReservationView>,
    pub reservation_items: Seq<LineView>,
    pub stock: Seq<StockView>,
}

impl View for InventoryTables {
    type V = TablesView;

    open spec fn view(&self) -> TablesView {
        TablesView {
            reservation: opt_view(self.reservation),
            reservation_items: views(self.reservation_items@),
            stock: views(self.stock@),
        }
    }
}

impl InventoryTables {
    /// Whether the stock is in order, and holds what an active reservation
    /// took.
    pub fn in_order(&self) -> (r: bool)
        ensures
            r == self@.valid(),
    {
        if !stock_in_order(&self.stock) {
            return false;
        }
        match &self.reservation {
            Some(row) => row.status != ReservationStatus::Active || (row.version < i64::MAX
                && stock_holds_lines(&self.stock, &self.reservation_items)),
            None => true,
        }
    }
}

impl TablesView {
    /// The stock is in order, and holds what an active reservation took.
    pub open spec fn valid(self) -> bool {
        &&& stock_valid(self.stock)
        &&& self.reservation matches Some(row) ==> row.status is Active ==> row.version < i64::MAX
            && stock_holds(self.stock, self.reservation_items)
    }
}

/// What a command writes: the stock after it, the reservation where it is new
/// or changed, the lines of a new one, and the report.
#[derive(Debug)]
pub struct InventoryWrites {
    pub stock: Vec<StockRow>,
    pub reservation: Option<ReservationRow>,
    pub reservation_items: Vec<ReservationLine>,
    pub outbox: Vec<NewOutboxEvent>,
}

/// What [`InventoryWrites`] say.
pub struct InventoryWritesView {
    pub stock: Seq<StockView>,
    pub reservation: Option<ReservationView>,
    pub reservation_items: Seq<LineView>,
    pub outbox: Seq<OutboxView>,
}

impl View for InventoryWrites {
    type V = InventoryWritesView;

    open spec fn view(&self) -> InventoryWritesView {
        InventoryWritesView {
            stock: views(self.stock@),
            reservation: opt_view(self.reservation),
            reservation_items: views(self.reservation_items@),
            outbox: views(self.outbox@),
        }
    }
}

/// The report on a reservation.
pub open spec fn reservation_outcome_event(
    trigger: RawView,
    payload: ReserveInventoryView,
    outcome: ReserveView,
    event_id: u128,
    now: Timestamp,
) -> OutboxView {
    match outcome.status {
        ReservationStatus::Active => reply_to(
            trigger,
            MessageKind {
                event_type: RESERVATION_SUCCEEDED_EVENT_TYPE,
                schema_version: RESERVATION_SUCCEEDED_SCHEMA_VERSION,
                producer: INVENTORY_PRODUCER_NAME,
                aggregate_type: RESERVATION_AGGREGATE_TYPE,
                topic: INVENTORY_EVENTS_TOPIC,
            },
            outcome.reservation_id,
            1,
            payload.order_id,
            event_id,
            now,
            EventPayloadView::ReservationSucceeded(
                ReservationSucceededView {
                    order_id: payload.order_id,
                    reservation_id: outcome.reservation_id,
                    items: payload.items,
                },
            ),
        ),
        _ => reply_to(
            trigger,
            MessageKind {
                event_type: RESERVATION_FAILED_EVENT_TYPE,
                schema_version: RESERVATION_FAILED_SCHEMA_VERSION,
                producer: INVENTORY_PRODUCER_NAME,
                aggregate_type: RESERVATION_AGGREGATE_TYPE,
                topic: INVENTORY_EVENTS_TOPIC,
            },
            outcome.reservation_id,
            1,
            payload.order_id,
            event_id,
            now,
            EventPayloadView::ReservationFailed(
                ReservationFailedView {
                    order_id: payload.order_id,
                    reason_code: match outcome.reason_code {
                        Some(reason) => reason,
                        None => "UNKNOWN"@,
                    },
                    items: payload.items,
                },
            ),
        ),
    }
}

fn copy_items(items: &Vec<ReserveInventoryItem>) -> (r: Vec<ReserveInventoryItem>)
    ensures
        views(r@) == views(items@),
{
    let mut out: Vec<ReserveInventoryItem> = Vec::new();
    let ghost all = views(items@);
    let mut i: usize = 0;
    while i < items.len()
        invariant
            i <= items.len(),
            all == views(items@),
            views(out@) == all.subrange(0, i as int),
        decreases items.len() - i,
    {
        let ghost held = out@;
        let item = ReserveInventoryItem { sku: items[i].sku.clone(), quantity: items[i].quantity };
        let ghost shown = item@;
        out.push(item);
        proof {
            assert(views(out@) =~= views(held).push(shown));
            assert(all[i as int] == items@[i as int]@);
            assert(all.subrange(0, i + 1) =~= all.subrange(0, i as int).push(shown));
        }
        i = i + 1;
    }
    assert(views(out@) =~= all);
    out
}

/// Builds the report on a reservation.
pub fn build_reservation_outcome_event(
    trigger: &RawEnvelope,
    payload: &ReserveInventoryPayload,
    outcome: &ReserveOutcome,
    event_id: u128,
    now: Timestamp,
) -> (r: NewOutboxEvent)
    ensures
        r@ == reservation_outcome_event(trigger@, payload@, outcome@, event_id, now),
{
    let items: Vec<ReserveInventoryItem> = copy_items(&payload.items);
    match outcome.status {
        ReservationStatus::Active => build_reply(
            trigger,
            MessageKind {
                event_type: RESERVATION_SUCCEEDED_EVENT_TYPE,
                schema_version: RESERVATION_SUCCEEDED_SCHEMA_VERSION,
                producer: INVENTORY_PRODUCER_NAME,
                aggregate_type: RESERVATION_AGGREGATE_TYPE,
                topic: INVENTORY_EVENTS_TOPIC,
            },
            outcome.reservation_id,
            1,
            payload.order_id,
            event_id,
            now,
            EventPayload::ReservationSucceeded(
                ReservationSucceededPayload {
                    order_id: payload.order_id,
                    reservation_id: outcome.reservation_id,
                    items,
                },
            ),
        ),
        _ => {
            let reason_code: String = match &outcome.reason_code {
                Some(reason) => reason.clone(),
                None => "UNKNOWN".to_owned(),
            };
            build_reply(
                trigger,
                MessageKind {
                    event_type: RESERVATION_FAILED_EVENT_TYPE,
                    schema_version: RESERVATION_FAILED_SCHEMA_VERSION,
                    producer: INVENTORY_PRODUCER_NAME,
                    aggregate_type: RESERVATION_AGGREGATE_TYPE,
                    topic: INVENTORY_EVENTS_TOPIC,
                },
                outcome.reservation_id,
                1,
                payload.order_id,
                event_id,
                now,
                EventPayload::ReservationFailed(
                    ReservationFailedPayload { order_id: payload.order_id, reason_code, items },
                ),
            )
        },
    }
}

/// The report on a release: the second and last event of a reservation.
pub open spec fn released_event(
    trigger: RawView,
    payload: ReleaseInventoryView,
    reservation_id: u128,
    event_id: u128,
    now: Timestamp,
) -> OutboxView {
    reply_to(
        trigger,
        MessageKind {
            event_type: INVENTORY_RELEASED_EVENT_TYPE,
            schema_version: INVENTORY_RELEASED_SCHEMA_VERSION,
            producer: INVENTORY_PRODUCER_NAME,
            aggregate_type: RESERVATION_AGGREGATE_TYPE,
            topic: INVENTORY_EVENTS_TOPIC,
        },
        reservation_id,
        2,
        payload.order_id,
        event_id,
        now,
        EventPayloadView::InventoryReleased(
            InventoryReleasedPayload { order_id: payload.order_id, reservation_id },
        ),
    )
}

/// Builds the report on a release.
pub fn build_released_event(
    trigger: &RawEnvelope,
    payload: &ReleaseInventoryPayload,
    reservation_id: u128,
    event_id: u128,
    now: Timestamp,
) -> (r: NewOutboxEvent)
    ensures
        r@ == released_event(trigger@, payload@, reservation_id, event_id, now),
{
    build_reply(
        trigger,
        MessageKind {
            event_type: INVENTORY_RELEASED_EVENT_TYPE,
            schema_version: INVENTORY_RELEASED_SCHEMA_VERSION,
            producer: INVENTORY_PRODUCER_NAME,
            aggregate_type: RESERVATION_AGGREGATE_TYPE,
            topic: INVENTORY_EVENTS_TOPIC,
        },
        reservation_id,
        2,
        payload.order_id,
        event_id,
        now,
        EventPayload::InventoryReleased(
            InventoryReleasedPayload { order_id: payload.order_id, reservation_id },
        ),
    )
}

/// Identifiers for what a command creates.
#[derive(Debug, Clone, Copy, PartialEq, Eq, Structural)]
pub struct InventoryIds {
    pub reservation: u128,
    pub event: u128,
}

impl InventoryIds {
    /// The identifiers are fresh ones.
    pub open spec fn drawn(self) -> bool {
        is_version_7(self.reservation) && is_version_7(self.event)
    }

    /// Draws fresh identifiers.
    pub fn draw() -> (r: InventoryIds)
        ensures
            r.drawn(),
    {
        InventoryIds { reservation: fresh_id(), event: fresh_id() }
    }
}

/// The lines that a reserve command asks for.
pub open spec fn asked_lines(items: Seq<ReserveInventoryItemView>) -> Seq<LineView> {
    Seq::new(items.len(), |i: int| LineView { sku: items[i].sku, quantity: items[i].quantity })
}

/// What a valid reserve command writes.
pub open spec fn on_reserve(
    envelope: RawView,
    payload: ReserveInventoryView,
    tables: TablesView,
    ids: InventoryIds,
    now: Timestamp,
) -> InventoryWritesView {
    let lines = asked_lines(payload.items);
    let decided = reservation(
        tables.reservation,
        payload.order_id,
        lines,
        tables.stock,
        ids.reservation,
        now,
    );
    InventoryWritesView {
        stock: decided.stock,
        reservation: decided.reservation,
        reservation_items: if decided.outcome.created && decided.outcome.status is Active {
            lines
        } else {
            Seq::empty()
        },
        outbox: seq![
            reservation_outcome_event(envelope, payload, decided.outcome, ids.event, now),
        ],
    }
}

/// What a release command writes for a reservation.
pub open spec fn on_release(
    envelope: RawView,
    payload: ReleaseInventoryView,
    row: ReservationView,
    tables: TablesView,
    ids: InventoryIds,
    now: Timestamp,
) -> InventoryWritesView {
    if row.status is Active {
        InventoryWritesView {
            stock: stock_released(tables.stock, tables.reservation_items, now),
            reservation: Some(reservation_released(row, now)),
            reservation_items: Seq::empty(),
            outbox: seq![released_event(envelope, payload, row.id, ids.event, now)],
        }
    } else {
        InventoryWritesView {
            stock: tables.stock,
            reservation: None,
            reservation_items: Seq::empty(),
            outbox: Seq::empty(),
        }
    }
}

/// How the service answers a command. A release for an order that has no
/// reservation is put aside.
pub open spec fn reaction(
    delivery: DeliveryView,
    envelope: RawView,
    payload: CommandView,
    tables: TablesView,
    ids: InventoryIds,
) -> HandledView<InventoryWritesView> {
    match payload {
        CommandView::Reserve(p) => match request_verdict(asked_lines(p.items)) {
            Err(refusal) => delivery.rejected(
                envelope,
                "INVALID_RESERVATION_REQUEST"@,
                refusal.words(),
            ),
            Ok(_) => delivery.applied(
                envelope,
                on_reserve(envelope, p, tables, ids, delivery.now),
            ),
        },
        CommandView::Release(p) => match tables.reservation {
            None => delivery.rejected(
                envelope,
                "UNKNOWN_ORDER"@,
                ReleaseError::NotFound(p.order_id).words(),
            ),
            Some(row) => delivery.applied(
                envelope,
                on_release(envelope, p, row, tables, ids, delivery.now),
            ),
        },
    }
}

/// How the inventory service handles one record, given what its tables say.
pub open spec fn handling(
    delivery: DeliveryView,
    header: Result<EnvelopeView<()>, Seq<char>>,
    payload: Result<CommandView, Seq<char>>,
    facts: InboxFactsView,
    tables: TablesView,
    ids: InventoryIds,
) -> HandledView<InventoryWritesView> {
    match delivery.screened::<InventoryWritesView>(header, expected_schema(header), false, facts) {
        Err(verdict) => verdict,
        Ok(envelope) => match payload {
            Err(error) => delivery.rejected(
                envelope,
                "MALFORMED_PAYLOAD"@,
                "payload did not match "@ + command_shape(command_named(envelope.event_type)->0)
                    + " shape: "@ + error,
            ),
            Ok(p) => reaction(delivery, envelope, p, tables, ids),
        },
    }
}

/// The payload, where it was read, has the shape that the event type names.
pub open spec fn payload_fits(
    header: Result<EnvelopeView<()>, Seq<char>>,
    payload: Result<CommandView, Seq<char>>,
) -> bool {
    header matches Ok(h) ==> command_named(h.event_type) is Some ==> (payload matches Ok(p)
        ==> command_named(h.event_type) == Some(command_of(p)))
}

/// The view of the result of reading a payload.
pub open spec fn payload_view(payload: Result<Command, String>) -> Result<
    CommandView,
    Seq<char>,
> {
    match payload {
        Ok(p) => Ok(p@),
        Err(error) => Err(error@),
    }
}

fn raw_items(items: &Vec<ReserveInventoryItem>) -> (r: Vec<(String, i64)>)
    ensures
        raw_lines(r@) == asked_lines(views(items@)),
{
    let mut raw: Vec<(String, i64)> = Vec::new();
    let ghost all = asked_lines(views(items@));
    let mut i: usize = 0;
    while i < items.len()
        invariant
            i <= items.len(),
            all == asked_lines(views(items@)),
            raw_lines(raw@) == all.subrange(0, i as int),
        decreases items.len() - i,
    {
        let ghost held = raw@;
        let ghost shown = LineView { sku: items@[i as int].sku@, quantity: items@[i as int].quantity };
        raw.push((items[i].sku.clone(), items[i].quantity));
        proof {
            assert(raw_lines(raw@) =~= raw_lines(held).push(shown));
            assert(all[i as int] == shown);
            assert(all.subrange(0, i + 1) =~= all.subrange(0, i as int).push(shown));
        }
        i = i + 1;
    }
    assert(raw_lines(raw@) =~= all);
    raw
}

fn react_to_reserve(
    delivery: &Delivery<'_>,
    envelope: RawEnvelope,
    payload: &ReserveInventoryPayload,
    tables: InventoryTables,
    ids: &InventoryIds,
) -> (r: Handled<InventoryWrites>)
    requires
        tables@.valid(),
    ensures
        r@ == match request_verdict(asked_lines(payload@.items)) {
            Err(refusal) => delivery@.rejected(
                envelope@,
                "INVALID_RESERVATION_REQUEST"@,
                refusal.words(),
            ),
            Ok(_) => delivery@.applied(
                envelope@,
                on_reserve(envelope@, payload@, tables@, *ids, delivery@.now),
            ),
        },
{
    let raw: Vec<(String, i64)> = raw_items(&payload.items);
    let lines: Vec<ReservationLine> = match validate_items(raw.as_slice()) {
        Ok(lines) => lines,
        Err(e) => {
            return delivery.reject(envelope, "INVALID_RESERVATION_REQUEST", e.message());
        },
    };
    proof {
        accepted_requests_are_valid(views(lines@));
    }
    let mut stock: Vec<StockRow> = tables.stock;
    let existing: Option<&ReservationRow> = match &tables.reservation {
        Some(row) => Some(row),
        None => None,
    };
    assert(opt_view(existing) == tables@.reservation);
    let (outcome, reservation) = decide_reservation(
        existing,
        payload.order_id,
        &lines,
        &mut stock,
        ids.reservation,
        delivery.now,
    );
    let message: NewOutboxEvent = build_reservation_outcome_event(
        &envelope,
        payload,
        &outcome,
        ids.event,
        delivery.now,
    );
    let granted: bool = outcome.created && outcome.status == ReservationStatus::Active;
    let reservation_items: Vec<ReservationLine> = if granted {
        lines
    } else {
        Vec::new()
    };
    let ghost report = seq![message@];
    let mut outbox: Vec<NewOutboxEvent> = Vec::new();
    outbox.push(message);
    assert(views(outbox@) =~= report);
    assert(!granted ==> views(reservation_items@) =~= Seq::<LineView>::empty());
    delivery.apply(&envelope, InventoryWrites { stock, reservation, reservation_items, outbox })
}

fn react_to_release(
    delivery: &Delivery<'_>,
    envelope: RawEnvelope,
    payload: &ReleaseInventoryPayload,
    tables: InventoryTables,
    ids: &InventoryIds,
) -> (r: Handled<InventoryWrites>)
    requires
        tables@.valid(),
    ensures
        r@ == reaction(delivery@, envelope@, CommandView::Release(payload@), tables@, *ids),
{
    let mut stock: Vec<StockRow> = tables.stock;
    match release(
        tables.reservation,
        &tables.reservation_items,
        &mut stock,
        payload.order_id,
        delivery.now,
    ) {
        Err(e) => delivery.reject(envelope, "UNKNOWN_ORDER", e.message()),
        Ok((outcome, reservation)) => {
            let mut outbox: Vec<NewOutboxEvent> = Vec::new();
            if outcome.created {
                let message: NewOutboxEvent = build_released_event(
                    &envelope,
                    payload,
                    outcome.reservation_id,
                    ids.event,
                    delivery.now,
                );
                let ghost report = seq![message@];
                outbox.push(message);
                assert(views(outbox@) =~= report);
            } else {
                assert(views(outbox@) =~= Seq::<OutboxView>::empty());
            }
            let reservation_items: Vec<ReservationLine> = Vec::new();
            assert(views(reservation_items@) =~= Seq::<LineView>::empty());
            delivery.apply(
                &envelope,
                InventoryWrites { stock, reservation, reservation_items, outbox },
            )
        },
    }
}

/// Handles one record: what its header and payload read, what the inbox says
/// of it, and what the tables say of the order that it names come in; what
/// became of the record and what is to be done for it come out.
pub fn handle_one(
    source_topic: &str,
    record: &ConsumedRecord,
    header: &Result<Envelope<()>, String>,
    payload: &Result<Command, String>,
    facts: &InboxFacts,
    tables: InventoryTables,
    ids: &InventoryIds,
    now: Timestamp,
) -> (r: Handled<InventoryWrites>)
    requires
        payload_fits(result_view(*header), payload_view(*payload)),
        tables@.valid(),
    ensures
        r@ == handling(
            DeliveryView {
                consumer: CONSUMER_NAME@,
                source_topic: source_topic@,
                record: record@,
                now,
            },
            result_view(*header),
            payload_view(*payload),
            facts@,
            tables@,
            *ids,
        ),
{
    let delivery = Delivery { consumer: CONSUMER_NAME, source_topic, record, now };
    let kind: Option<CommandKind> = match header {
        Ok(h) => command_kind(h.event_type.as_str()),
        Err(_) => None,
    };
    let envelope: RawEnvelope = match delivery.screen(
        header,
        expected_version(header),
        false,
        facts,
    ) {
        Ok(envelope) => envelope,
        Err(handled) => {
            return handled;
        },
    };
    match payload {
        Err(error) => {
            let mut detail: String = "payload did not match ".to_owned();
            match kind {
                Some(CommandKind::ReserveInventory) => detail.append("reserve_inventory"),
                Some(CommandKind::ReleaseInventory) => detail.append("release_inventory"),
                None => {},
            }
            detail.append(" shape: ");
            detail.append(error.as_str());
            delivery.reject(envelope, "MALFORMED_PAYLOAD", detail)
        },
        Ok(Command::Reserve(p)) => react_to_reserve(&delivery, envelope, p, tables, ids),
        Ok(Command::Release(p)) => react_to_release(&delivery, envelope, p, tables, ids),
    }
}

/// Handles one record at the present moment, with fresh identifiers for what
/// it creates.
pub fn handle_record(
    source_topic: &str,
    record: &ConsumedRecord,
    header: &Result<Envelope<()>, String>,
    payload: &Result<Command, String>,
    facts: &InboxFacts,
    tables: InventoryTables,
) -> (r: Handled<InventoryWrites>)
    requires
        payload_fits(result_view(*header), payload_view(*payload)),
        tables@.valid(),
    ensures
        exists|ids: InventoryIds, now: Timestamp|
            {
                &&& r@ == #[trigger] handling(
                    DeliveryView {
                        consumer: CONSUMER_NAME@,
                        source_topic: source_topic@,
                        record: record@,
                        now,
                    },
                    result_view(*header),
                    payload_view(*payload),
                    facts@,
                    tables@,
                    ids,
                )
                &&& ids.drawn()
                &&& now.valid()
                &&& first_instant() <= now.instant() <= last_instant()
            },
{
    let ids: InventoryIds = InventoryIds::draw();
    let now: Timestamp = utc_now();
    handle_one(source_topic, record, header, payload, facts, tables, &ids, now)
}

/// No record stops a batch, whatever it holds: it is applied, dropped, or put
/// aside with a dead letter.
pub proof fn no_record_blocks_the_partition(
    delivery: DeliveryView,
    header: Result<EnvelopeView<()>, Seq<char>>,
    payload: Result<CommandView, Seq<char>>,
    facts: InboxFactsView,
    tables: TablesView,
    ids: InventoryIds,
)
    ensures
        ({
            let handled = handling(delivery, header, payload, facts, tables, ids);
            &&& committed(handled.effects) is Some <==> handled.outcome is Applied
            &&& handled.outcome is Poison ==> handled.effects.last() is PublishDlq
        }),
{
    let handled = handling(delivery, header, payload, facts, tables, ids);
    let expected = expected_schema(header);
    if delivery.screened::<InventoryWritesView>(header, expected, false, facts) is Err {
        stopped_records_write_nothing::<InventoryWritesView>(
            delivery,
            header,
            expected,
            false,
            facts,
        );
    } else {
        reveal_with_fuel(committed, 3);
        let rest = handled.effects.drop_first();
        if handled.outcome is Poison {
            assert(rest.first() == handled.effects[1]);
            assert(rest.drop_first().len() == 0);
        }
    }
}

/// A release for an order without a reservation becomes a dead letter that
/// says so; nothing is written.
pub proof fn releases_without_reservation_are_put_aside(
    delivery: DeliveryView,
    envelope: RawView,
    payload: ReleaseInventoryView,
    tables: TablesView,
    ids: InventoryIds,
)
    requires
        tables.reservation is None,
    ensures
        ({
            let handled = reaction(delivery, envelope, CommandView::Release(payload), tables, ids);
            &&& handled.outcome is Poison
            &&& committed(handled.effects) is None
            &&& handled.effects.last() == delivery.letter::<InventoryWritesView>(
                Some(envelope),
                "UNKNOWN_ORDER"@,
                ReleaseError::NotFound(payload.order_id).words(),
            )
        }),
{
    let handled = reaction(delivery, envelope, CommandView::Release(payload), tables, ids);
    reveal_with_fuel(committed, 3);
    let rest = handled.effects.drop_first();
    assert(rest.first() == handled.effects[1]);
    assert(rest.drop_first().len() == 0);
}

/// A second release of the same reservation gives nothing back and reports
/// nothing.
pub proof fn releases_happen_once(
    envelope: RawView,
    again: RawView,
    payload: ReleaseInventoryView,
    row: ReservationView,
    tables: TablesView,
    ids: InventoryIds,
    other: InventoryIds,
    now: Timestamp,
    later: Timestamp,
)
    requires
        row.status is Active,
        tables.reservation == Some(row),
        row.version < i64::MAX,
    ensures
        ({
            let first = on_release(envelope, payload, row, tables, ids, now);
            let after = TablesView {
                reservation: first.reservation,
                reservation_items: tables.reservation_items,
                stock: first.stock,
            };
            let second = on_release(again, payload, first.reservation->0, after, other, later);
            &&& first.outbox.len() == 1
            &&& first.reservation is Some
            &&& second.stock == first.stock
            &&& second.reservation is None
            &&& second.outbox.len() == 0
        }),
{
}

/// A second reservation for the same order takes nothing and repeats the
/// report of the first.
pub proof fn reservations_are_decided_once(
    envelope: RawView,
    again: RawView,
    payload: ReserveInventoryView,
    repeated: ReserveInventoryView,
    stock: Seq<StockView>,
    items: Seq<LineView>,
    ids: InventoryIds,
    other: InventoryIds,
    now: Timestamp,
    later: Timestamp,
)
    requires
        repeated.order_id == payload.order_id,
    ensures
        ({
            let fresh = TablesView { reservation: None, reservation_items: items, stock };
            let first = on_reserve(envelope, payload, fresh, ids, now);
            let after = TablesView {
                reservation: first.reservation,
                reservation_items: first.reservation_items,
                stock: first.stock,
            };
            let second = on_reserve(again, repeated, after, other, later);
            &&& first.reservation is Some
            &&& second.stock == first.stock
            &&& second.reservation is None
            &&& second.outbox[0].aggregate_id == first.outbox[0].aggregate_id
            &&& second.outbox[0].envelope.event_type == first.outbox[0].envelope.event_type
        }),
{
}

/// Every report of the service carries the correlation and the trace of its
/// command and names it as its cause.
pub proof fn inventory_reports_keep_the_chain(
    envelope: RawView,
    reserve: ReserveInventoryView,
    release: ReleaseInventoryView,
    row: ReservationView,
    tables: TablesView,
    ids: InventoryIds,
    now: Timestamp,
)
    ensures
        all_in_chain(envelope, on_reserve(envelope, reserve, tables, ids, now).outbox),
        all_in_chain(envelope, on_release(envelope, release, row, tables, ids, now).outbox),
{
}

/// A command that was carried out, or noted as stale, is a duplicate from
/// then on: delivered again it takes no stock, gives none back and reports
/// nothing.
pub proof fn redelivered_commands_change_nothing(
    delivery: DeliveryView,
    again: DeliveryView,
    header: EnvelopeView<()>,
    payload: Result<CommandView, Seq<char>>,
    ledger: LedgerView,
    tables: TablesView,
    later_tables: TablesView,
    ids: InventoryIds,
    other: InventoryIds,
)
    requires
        again.consumer == delivery.consumer,
        again.record.value == delivery.record.value,
        ({
            let outcome = handling(
                delivery,
                Ok(header),
                payload,
                ledger.facts(delivery.envelope(header)),
                tables,
                ids,
            ).outcome;
            outcome is Applied || outcome is Stale
        }),
    ensures
        ({
            let first = handling(
                delivery,
                Ok(header),
                payload,
                ledger.facts(delivery.envelope(header)),
                tables,
                ids,
            );
            handling(
                again,
                Ok(header),
                payload,
                ledger.after_all(first.effects).facts(delivery.envelope(header)),
                later_tables,
                other,
            ) == dropped::<InventoryWritesView>()
        }),
{
    let envelope = delivery.envelope(header);
    let facts = ledger.facts(envelope);
    let first = handling(delivery, Ok(header), payload, facts, tables, ids);
    assert(first.effects[0] is Commit);
    assert(first.effects[0]->Commit_0.entry == delivery.entry(envelope));
    taken_events_become_duplicates::<InventoryWritesView>(
        delivery,
        again,
        header,
        expected_schema(Ok(header)),
        false,
        ledger,
        first.effects,
        0,
    );
}

}
