//! What the orders API makes of its requests and how it answers them.

use vstd::prelude::*;
use vstd::string::*;

use crate::contracts::orders::ORDER_CREATED_TOPIC;
use crate::contracts::{Envelope, EventPayload};
use crate::domain_common::is_version_7;
use crate::ids::{fresh_id, id_text, parse_id, parsed_uuid};
use crate::model::{opt_view, views};
use crate::orders::domain::{
    normalized, validate_and_normalize, CreateOrderRequest, ItemView, NormalizedOrder, OrderStatus,
};
use crate::orders::errors::ApiError;
use crate::orders::repository::{
    build_created_envelope, created_envelope, CreateOutcome, OrderItemRow, OrderRow, OrderView,
    TransitionRow,
};
use crate::test_support::fault::{
    after_firing, fires, FaultConfig, FaultConfigView, FaultInjector,
};
use crate::text::{chars_of, text_eq, uuid_text};
use crate::time::{first_instant, last_instant, utc_now, Timestamp};

verus! {

pub const MIN_IDEMPOTENCY_KEY_LEN: usize = 8;

pub const MAX_IDEMPOTENCY_KEY_LEN: usize = 128;

pub const FAULT_AFTER_DB_COMMIT_BEFORE_PUBLISH: &'static str =
    "orders.after_db_commit_before_publish";

pub const FAULT_AFTER_PUBLISH_BEFORE_RESPONSE: &'static str =
    "orders.after_publish_before_response";

/// A text that can serve as an idempotency key: 8 to 128 printable ASCII
/// characters.
pub open spec fn is_idempotency_key(text: Seq<char>) -> bool {
    &&& MIN_IDEMPOTENCY_KEY_LEN <= text.len() <= MAX_IDEMPOTENCY_KEY_LEN
    &&& forall|i: int| 0 <= i < text.len() ==> ' ' <= #[trigger] text[i] <= '~'
}

/// Why a request without a usable idempotency key is refused, in words.
pub open spec fn key_refusal(header: Option<Seq<char>>) -> Seq<char> {
    match header {
        None => "Idempotency-Key header is required"@,
        Some(_) => "Idempotency-Key must be 8-128 printable characters"@,
    }
}

/// Reads the idempotency key of a request.
pub fn extract_idempotency_key(header: Option<&str>) -> (r: Result<String, ApiError>)
    ensures
        match r {
            Ok(key) => header matches Some(raw) && is_idempotency_key(raw@) && key@ == raw@,
            Err(ApiError::InvalidIdempotencyKey(text)) => {
                &&& header matches Some(raw) ==> !is_idempotency_key(raw@)
                &&& text@ == key_refusal(opt_view(header))
            },
            Err(_) => false,
        },
{
    let raw = match header {
        Some(raw) => raw,
        None => {
            return Err(
                ApiError::InvalidIdempotencyKey("Idempotency-Key header is required".to_owned()),
            );
        },
    };
    let chars: Vec<char> = chars_of(raw);
    let mut printable: bool = true;
    let mut i: usize = 0;
    while i < chars.len()
        invariant
            i <= chars.len(),
            chars@ == raw@,
            printable <==> forall|j: int| 0 <= j < i ==> ' ' <= #[trigger] raw@[j] <= '~',
        decreases chars.len() - i,
    {
        if chars[i] < ' ' || chars[i] > '~' {
            assert(!(' ' <= raw@[i as int] <= '~'));
            printable = false;
        }
        i = i + 1;
    }
    if chars.len() < MIN_IDEMPOTENCY_KEY_LEN || chars.len() > MAX_IDEMPOTENCY_KEY_LEN || !printable {
        return Err(
            ApiError::InvalidIdempotencyKey(
                "Idempotency-Key must be 8-128 printable characters".to_owned(),
            ),
        );
    }
    Ok(raw.to_owned())
}

/// The identifier that joins the messages of a request's journey: the one
/// that the caller gave, where it is one, or a fresh one.
pub fn extract_or_generate_correlation_id(header: Option<&str>) -> (r: u128)
    ensures
        match header {
            Some(text) if parsed_uuid(text@) is Some => r == parsed_uuid(text@)->0,
            _ => is_version_7(r),
        },
        header matches Some(text) ==> forall|id: u128|
            text@ == #[trigger] uuid_text(id) ==> r == id,
{
    match header {
        Some(text) => match parse_id(text) {
            Some(id) => id,
            None => fresh_id(),
        },
        None => fresh_id(),
    }
}

/// A request for an order that may be carried out.
#[derive(Debug)]
pub struct AcceptedRequest {
    pub idempotency_key: String,
    pub correlation_id: u128,
    pub order: NormalizedOrder,
}

/// Reads a request for an order: its key first, then its lines.
pub fn accept_request(
    key_header: Option<&str>,
    correlation_header: Option<&str>,
    body: CreateOrderRequest,
) -> (r: Result<AcceptedRequest, ApiError>)
    ensures
        ({
            let key_given = key_header is Some && is_idempotency_key(key_header->0@);
            match r {
                Ok(accepted) => {
                    &&& key_given
                    &&& accepted.idempotency_key@ == key_header->0@
                    &&& normalized(body@) is Ok
                    &&& accepted.order@ == normalized(body@)->Ok_0
                    &&& match correlation_header {
                        Some(text) if parsed_uuid(text@) is Some => accepted.correlation_id
                            == parsed_uuid(text@)->0,
                        _ => is_version_7(accepted.correlation_id),
                    }
                },
                Err(ApiError::InvalidIdempotencyKey(text)) => !key_given && text@
                    == key_refusal(opt_view(key_header)),
                Err(ApiError::Validation(e)) => key_given && normalized(body@) is Err && e@
                    == normalized(body@)->Err_0,
                Err(_) => false,
            }
        }),
{
    let idempotency_key: String = match extract_idempotency_key(key_header) {
        Ok(key) => key,
        Err(e) => {
            return Err(e);
        },
    };
    let correlation_id: u128 = extract_or_generate_correlation_id(correlation_header);
    match validate_and_normalize(body) {
        Ok(order) => Ok(AcceptedRequest { idempotency_key, correlation_id, order }),
        Err(e) => Err(ApiError::Validation(e)),
    }
}

/// A line of an order as the API shows it.
#[derive(Debug)]
pub struct ItemRepresentation {
    pub sku: String,
    pub quantity: i64,
    pub unit_price_minor: i64,
}

impl View for ItemRepresentation {
    type V = ItemView;

    open spec fn view(&self) -> ItemView {
        ItemView {
            sku: self.sku@,
            quantity: self.quantity,
            unit_price_minor: self.unit_price_minor,
        }
    }
}

/// Where an order can be asked for.
#[derive(Debug)]
pub struct Links {
    pub self_: String,
    pub transitions: String,
}

/// An order as the API shows it.
#[derive(Debug)]
pub struct OrderRepresentation {
    pub id: u128,
    pub status: OrderStatus,
    pub currency: String,
    pub amount_minor: i64,
    pub version: i64,
    pub cancellation_reason: Option<String>,
    pub correlation_id: u128,
    pub items: Vec<ItemRepresentation>,
    pub created_at: Timestamp,
    pub updated_at: Timestamp,
    pub links: Links,
}

/// Where an order can be asked for.
pub open spec fn order_path(id: u128) -> Seq<char> {
    "/v1/orders/"@ + uuid_text(id)
}

impl OrderRepresentation {
    /// Shows the given order and lines.
    pub open spec fn shows(self, order: OrderView, items: Seq<ItemView>) -> bool {
        &&& self.id == order.id
        &&& self.status == order.status
        &&& self.currency@ == order.currency
        &&& self.amount_minor == order.amount_minor
        &&& self.version == order.version
        &&& opt_view(self.cancellation_reason) == order.cancellation_reason
        &&& self.correlation_id == order.correlation_id
        &&& views(self.items@) == items
        &&& self.created_at == order.created_at
        &&& self.updated_at == order.updated_at
        &&& self.links.self_@ == order_path(order.id)
        &&& self.links.transitions@ == order_path(order.id) + "/transitions"@
    }

    /// Shows an order.
    pub fn from_row(order: OrderRow, items: Vec<OrderItemRow>) -> (r: OrderRepresentation)
        ensures
            r.shows(order@, views(items@)),
    {
        let mut path: String = "/v1/orders/".to_owned();
        path.append(id_text(order.id).as_str());
        let mut transitions: String = path.clone();
        transitions.append("/transitions");
        let links = Links { self_: path, transitions };
        let mut lines: Vec<ItemRepresentation> = Vec::new();
        let ghost all = views(items@);
        let mut i: usize = 0;
        while i < items.len()
            invariant
                i <= items.len(),
                all == views(items@),
                views(lines@) == all.subrange(0, i as int),
            decreases items.len() - i,
        {
            let ghost held = lines@;
            let line = ItemRepresentation {
                sku: items[i].sku.clone(),
                quantity: items[i].quantity,
                unit_price_minor: items[i].unit_price_minor,
            };
            let ghost shown = line@;
            lines.push(line);
            proof {
                assert(views(lines@) =~= views(held).push(shown));
                assert(all[i as int] == items@[i as int]@);
                assert(all.subrange(0, i + 1) =~= all.subrange(0, i as int).push(shown));
            }
            i = i + 1;
        }
        assert(views(lines@) =~= all);
        OrderRepresentation {
            id: order.id,
            status: order.status,
            currency: order.currency,
            amount_minor: order.amount_minor,
            version: order.version,
            cancellation_reason: order.cancellation_reason,
            correlation_id: order.correlation_id,
            items: lines,
            created_at: order.created_at,
            updated_at: order.updated_at,
            links,
        }
    }
}

/// The answer to an accepted request: the order, where it can be asked for,
/// and the identifier of its journey.
#[derive(Debug)]
pub struct AcceptedResponse {
    pub status: u16,
    pub location: String,
    pub correlation_id: String,
    pub body: OrderRepresentation,
}

/// Answers an accepted request.
pub fn accepted_response(outcome: CreateOutcome) -> (r: AcceptedResponse)
    ensures
        r.status == 202,
        r.location@ == order_path(outcome.order.id),
        r.correlation_id@ == uuid_text(outcome.order.correlation_id),
        r.body.shows(outcome.order@, views(outcome.items@)),
{
    let body: OrderRepresentation = OrderRepresentation::from_row(outcome.order, outcome.items);
    AcceptedResponse {
        status: 202,
        location: body.links.self_.clone(),
        correlation_id: id_text(body.correlation_id),
        body,
    }
}

/// Answers the question for an order.
pub fn get_order(found: Option<(OrderRow, Vec<OrderItemRow>)>) -> (r: Result<
    OrderRepresentation,
    ApiError,
>)
    ensures
        match (found, r) {
            (Some((order, items)), Ok(body)) => body.shows(order@, views(items@)),
            (None, Err(e)) => e is OrderNotFound,
            _ => false,
        },
{
    match found {
        Some((order, items)) => Ok(OrderRepresentation::from_row(order, items)),
        None => Err(ApiError::OrderNotFound),
    }
}

/// A change of status as the API shows it.
#[derive(Debug)]
pub struct TransitionRepresentation {
    pub id: u128,
    pub from_status: Option<OrderStatus>,
    pub to_status: OrderStatus,
    pub reason: Option<String>,
    pub order_version: i64,
    pub created_at: Timestamp,
}

impl TransitionRepresentation {
    /// Shows the given change.
    pub open spec fn shows(self, row: TransitionRow) -> bool {
        &&& self.id == row.id
        &&& self.from_status == row.from_status
        &&& self.to_status == row.to_status
        &&& self.reason == row.reason
        &&& self.order_version == row.order_version
        &&& self.created_at == row.created_at
    }

    /// Shows a change of status.
    pub fn from_row(row: &TransitionRow) -> (r: TransitionRepresentation)
        ensures
            r.shows(*row),
    {
        TransitionRepresentation {
            id: row.id,
            from_status: row.from_status,
            to_status: row.to_status,
            reason: match &row.reason {
                Some(reason) => Some(reason.clone()),
                None => None,
            },
            order_version: row.order_version,
            created_at: row.created_at,
        }
    }
}

/// Answers the question for the changes of an order.
pub fn get_transitions(found: Option<Vec<TransitionRow>>) -> (r: Result<
    Vec<TransitionRepresentation>,
    ApiError,
>)
    ensures
        match (found, r) {
            (Some(rows), Ok(body)) => {
                &&& body@.len() == rows@.len()
                &&& forall|i: int|
                    0 <= i < rows@.len() ==> (#[trigger] body@[i]).shows(rows@[i])
            },
            (None, Err(e)) => e is OrderNotFound,
            _ => false,
        },
{
    match found {
        Some(rows) => {
            let mut body: Vec<TransitionRepresentation> = Vec::new();
            let mut i: usize = 0;
            while i < rows.len()
                invariant
                    i <= rows.len(),
                    body@.len() == i,
                    forall|j: int| 0 <= j < i ==> (#[trigger] body@[j]).shows(rows@[j]),
                decreases rows.len() - i,
            {
                body.push(TransitionRepresentation::from_row(&rows[i]));
                i = i + 1;
            }
            Ok(body)
        },
        None => Err(ApiError::OrderNotFound),
    }
}

/// A failure of the naive path, and how long to wait before it is reported.
#[derive(Debug)]
pub struct NaiveFailure {
    pub error: ApiError,
    pub delay_ms: Option<u64>,
}

/// A message that goes straight to the broker.
#[derive(Debug)]
pub struct NaivePublication {
    pub topic: &'static str,
    pub key: String,
    pub envelope: Envelope<EventPayload>,
}

/// The announcement of an order that was committed before: the topic, the key
/// and the message to publish. A repeated request is announced again. For a new order
/// the fault point behind the commit is asked first; where it fires, the
/// order stays committed and is not announced.
pub fn naive_announcement(
    faults: &mut FaultInjector,
    outcome: &CreateOutcome,
    correlation_id: u128,
    event_id: u128,
    cause: u128,
    now: Timestamp,
) -> (r: Result<NaivePublication, NaiveFailure>)
    ensures
        ({
            let point = FAULT_AFTER_DB_COMMIT_BEFORE_PUBLISH@;
            let lost = outcome.created && fires(
                old(faults)@,
                point,
                Some(uuid_text(outcome.order.id)),
            );
            match r {
                Ok(NaivePublication { topic, key, envelope }) => {
                    &&& !lost
                    &&& final(faults)@ == old(faults)@
                    &&& topic@ == ORDER_CREATED_TOPIC@
                    &&& key@ == uuid_text(outcome.order.id)
                    &&& envelope@ == created_envelope(
                        outcome.order.id,
                        outcome.order.version,
                        outcome.order.currency@,
                        outcome.order.amount_minor,
                        views(outcome.items@),
                        correlation_id,
                        event_id,
                        cause,
                        now,
                    )
                },
                Err(failure) => {
                    &&& lost
                    &&& final(faults)@ == after_firing(old(faults)@, point)
                    &&& failure.error is InjectedFault
                    &&& failure.error->InjectedFault_0@ == point
                    &&& failure.delay_ms == old(faults)@[point].delay_ms
                },
            }
        }),
{
    let subject: String = id_text(outcome.order.id);
    if outcome.created {
        match faults.check(FAULT_AFTER_DB_COMMIT_BEFORE_PUBLISH, Some(subject.as_str())) {
            Ok(()) => {},
            Err((fault, delay_ms)) => {
                return Err(NaiveFailure { error: ApiError::InjectedFault(fault.name), delay_ms });
            },
        }
    }
    let envelope: Envelope<EventPayload> = build_created_envelope(
        outcome.order.id,
        outcome.order.version,
        outcome.order.currency.as_str(),
        outcome.order.amount_minor,
        &outcome.items,
        correlation_id,
        event_id,
        cause,
        now,
    );
    Ok(NaivePublication { topic: ORDER_CREATED_TOPIC, key: subject, envelope })
}

/// What the naive path comes to, given what the broker said: a failed publish
/// is reported, and the fault point behind a successful one is asked before
/// the response.
pub fn naive_completion(
    faults: &mut FaultInjector,
    order_id: u128,
    published: Result<(), String>,
) -> (r: Result<(), NaiveFailure>)
    ensures
        ({
            let point = FAULT_AFTER_PUBLISH_BEFORE_RESPONSE@;
            let stopped = fires(old(faults)@, point, Some(uuid_text(order_id)));
            match published {
                Err(error) => {
                    &&& r is Err
                    &&& r->Err_0.error == ApiError::PublishFailed(error)
                    &&& r->Err_0.delay_ms is None
                    &&& final(faults)@ == old(faults)@
                },
                Ok(()) => if stopped {
                    &&& r is Err
                    &&& r->Err_0.error is InjectedFault
                    &&& r->Err_0.error->InjectedFault_0@ == point
                    &&& r->Err_0.delay_ms == old(faults)@[point].delay_ms
                    &&& final(faults)@ == after_firing(old(faults)@, point)
                } else {
                    r is Ok && final(faults)@ == old(faults)@
                },
            }
        }),
{
    match published {
        Err(error) => Err(NaiveFailure { error: ApiError::PublishFailed(error), delay_ms: None }),
        Ok(()) => {
            let subject: String = id_text(order_id);
            match faults.check(FAULT_AFTER_PUBLISH_BEFORE_RESPONSE, Some(subject.as_str())) {
                Ok(()) => Ok(()),
                Err((fault, delay_ms)) => Err(
                    NaiveFailure { error: ApiError::InjectedFault(fault.name), delay_ms },
                ),
            }
        },
    }
}

/// The announcement of an order at the present moment, with fresh
/// identifiers.
pub fn publish_naive(
    faults: &mut FaultInjector,
    outcome: &CreateOutcome,
    correlation_id: u128,
) -> (r: Result<NaivePublication, NaiveFailure>)
    ensures
        ({
            let point = FAULT_AFTER_DB_COMMIT_BEFORE_PUBLISH@;
            let lost = outcome.created && fires(
                old(faults)@,
                point,
                Some(uuid_text(outcome.order.id)),
            );
            match r {
                Ok(NaivePublication { topic, key, envelope }) => {
                    &&& !lost
                    &&& final(faults)@ == old(faults)@
                    &&& topic@ == ORDER_CREATED_TOPIC@
                    &&& key@ == uuid_text(outcome.order.id)
                    &&& envelope@ == created_envelope(
                        outcome.order.id,
                        outcome.order.version,
                        outcome.order.currency@,
                        outcome.order.amount_minor,
                        views(outcome.items@),
                        correlation_id,
                        envelope.event_id,
                        envelope.causation_id,
                        envelope.occurred_at,
                    )
                    &&& is_version_7(envelope.event_id)
                    &&& is_version_7(envelope.causation_id)
                    &&& envelope.occurred_at.valid()
                    &&& first_instant() <= envelope.occurred_at.instant() <= last_instant()
                },
                Err(failure) => {
                    &&& lost
                    &&& final(faults)@ == after_firing(old(faults)@, point)
                    &&& failure.error is InjectedFault
                    &&& failure.error->InjectedFault_0@ == point
                    &&& failure.delay_ms == old(faults)@[point].delay_ms
                },
            }
        }),
{
    let event_id: u128 = fresh_id();
    let cause: u128 = fresh_id();
    naive_announcement(faults, outcome, correlation_id, event_id, cause, utc_now())
}

/// Lets only the holder of the test token control faults; an empty token is
/// nobody's.
pub fn check_test_token(token: &str, supplied: Option<&str>) -> (r: Result<(), ApiError>)
    ensures
        r is Ok <==> supplied is Some && supplied->0@.len() > 0 && supplied->0@ == token@,
        r matches Err(e) ==> e is FaultControlForbidden,
{
    match supplied {
        Some(text) => if !text.is_empty() && text_eq(text, token) {
            Ok(())
        } else {
            Err(ApiError::FaultControlForbidden)
        },
        None => Err(ApiError::FaultControlForbidden),
    }
}

/// Sets up a fault for the holder of the test token.
pub fn put_fault(
    faults: &mut FaultInjector,
    token: &str,
    supplied: Option<&str>,
    name: &str,
    config: FaultConfig,
) -> (r: Result<u16, ApiError>)
    ensures
        ({
            let allowed = supplied is Some && supplied->0@.len() > 0 && supplied->0@ == token@;
            match r {
                Ok(status) => allowed && status == 204 && final(faults)@ == old(faults)@.insert(
                    name@,
                    config@,
                ),
                Err(e) => !allowed && e is FaultControlForbidden && final(faults)@ == old(faults)@,
            }
        }),
{
    match check_test_token(token, supplied) {
        Ok(()) => {
            faults.configure(name, config);
            Ok(204)
        },
        Err(e) => Err(e),
    }
}

/// Removes every fault for the holder of the test token.
pub fn delete_faults(faults: &mut FaultInjector, token: &str, supplied: Option<&str>) -> (r: Result<
    u16,
    ApiError,
>)
    ensures
        ({
            let allowed = supplied is Some && supplied->0@.len() > 0 && supplied->0@ == token@;
            match r {
                Ok(status) => allowed && status == 204 && final(faults)@ == Map::<
                    Seq<char>,
                    FaultConfigView,
                >::empty(),
                Err(e) => !allowed && e is FaultControlForbidden && final(faults)@ == old(faults)@,
            }
        }),
{
    match check_test_token(token, supplied) {
        Ok(()) => {
            faults.clear();
            Ok(204)
        },
        Err(e) => Err(e),
    }
}

/// An idempotency key is a text of eight to a hundred and twenty-eight
/// printable ASCII characters; a request is told whether it brought none or
/// another text.
pub proof fn keys_are_printable_and_neither_short_nor_long(text: Seq<char>)
    ensures
        is_idempotency_key(text) <==> 8 <= text.len() <= 128 && forall|i: int|
            0 <= i < text.len() ==> 32 <= #[trigger] text[i] as int <= 126,
        key_refusal(None) == "Idempotency-Key header is required"@,
        key_refusal(Some(text)) == "Idempotency-Key must be 8-128 printable characters"@,
{
    if is_idempotency_key(text) {
        assert forall|i: int| 0 <= i < text.len() implies 32 <= #[trigger] text[i] as int <= 126 by {
            assert(' ' <= text[i] <= '~');
        }
    }
}

/// What the API shows of an order is what is stored of it, line by line, with
/// the places where it and its changes can be asked for.
pub proof fn orders_are_shown_as_stored(
    shown: OrderRepresentation,
    order: OrderView,
    items: Seq<ItemView>,
)
    requires
        shown.shows(order, items),
    ensures
        shown.id == order.id,
        shown.status == order.status,
        shown.currency@ == order.currency,
        shown.amount_minor == order.amount_minor,
        shown.version == order.version,
        shown.cancellation_reason is Some <==> order.cancellation_reason is Some,
        shown.cancellation_reason is Some ==> shown.cancellation_reason->0@
            == order.cancellation_reason->0,
        shown.correlation_id == order.correlation_id,
        shown.created_at == order.created_at,
        shown.updated_at == order.updated_at,
        shown.items@.len() == items.len(),
        forall|i: int|
            0 <= i < items.len() ==> (#[trigger] shown.items@[i]).sku@ == items[i].sku
                && shown.items@[i].quantity == items[i].quantity && shown.items@[i].unit_price_minor
                == items[i].unit_price_minor,
        shown.links.self_@ == "/v1/orders/"@ + uuid_text(order.id),
        shown.links.transitions@ == "/v1/orders/"@ + uuid_text(order.id) + "/transitions"@,
{
    assert forall|i: int| 0 <= i < items.len() implies (#[trigger] shown.items@[i]).sku@
        == items[i].sku && shown.items@[i].quantity == items[i].quantity
        && shown.items@[i].unit_price_minor == items[i].unit_price_minor by {
        assert(views(shown.items@)[i] == shown.items@[i]@);
    }
}

/// What the API shows of a change of status is what is stored of it.
pub proof fn changes_are_shown_as_stored(shown: TransitionRepresentation, row: TransitionRow)
    requires
        shown.shows(row),
    ensures
        shown.id == row.id,
        shown.from_status == row.from_status,
        shown.to_status == row.to_status,
        shown.reason == row.reason,
        shown.order_version == row.order_version,
        shown.created_at == row.created_at,
{
}

/// Only the holder of the token controls faults, and an empty token is
/// nobody's.
pub proof fn only_the_token_controls_faults(
    token: &str,
    supplied: Option<&str>,
    r: Result<(), ApiError>,
)
    requires
        call_ensures(check_test_token, (token, supplied), r),
    ensures
        r is Ok <==> supplied is Some && supplied->0@ == token@ && token@.len() > 0,
        r is Err ==> r->Err_0 is FaultControlForbidden,
{
}

/// Only the holder of the token sets faults up and takes them away, and
/// nobody else changes anything.
pub proof fn only_the_token_changes_faults(
    faults: &mut FaultInjector,
    token: &str,
    supplied: Option<&str>,
    name: &str,
    config: FaultConfig,
    put: Result<u16, ApiError>,
    deleted: Result<u16, ApiError>,
)
    ensures
        ({
            let held = supplied is Some && supplied->0@ == token@ && token@.len() > 0;
            &&& call_ensures(put_fault, (faults, token, supplied, name, config), put) ==> {
                &&& held ==> put == Ok::<u16, ApiError>(204) && final(faults)@
                    == old(faults)@.insert(name@, config@)
                &&& !held ==> put is Err && put->Err_0 is FaultControlForbidden && final(faults)@
                    == old(faults)@
            }
            &&& call_ensures(delete_faults, (faults, token, supplied), deleted) ==> {
                &&& held ==> deleted == Ok::<u16, ApiError>(204) && final(faults)@
                    == Map::<Seq<char>, FaultConfigView>::empty()
                &&& !held ==> deleted is Err && deleted->Err_0 is FaultControlForbidden
                    && final(faults)@ == old(faults)@
            }
        }),
{
}

/// A key is read exactly where one of the right shape is given, and is the
/// one that was given.
pub proof fn keys_are_read_as_given(header: Option<&str>, r: Result<String, ApiError>)
    requires
        call_ensures(extract_idempotency_key, (header,), r),
    ensures
        r is Ok <==> header is Some && 8 <= header->0@.len() <= 128 && forall|i: int|
            0 <= i < header->0@.len() ==> 32 <= #[trigger] header->0@[i] as int <= 126,
        r is Ok ==> r->Ok_0@ == header->0@,
        r is Err ==> r->Err_0 is InvalidIdempotencyKey,
        r is Err && header is None ==> r->Err_0->InvalidIdempotencyKey_0@
            == "Idempotency-Key header is required"@,
        r is Err && header is Some ==> r->Err_0->InvalidIdempotencyKey_0@
            == "Idempotency-Key must be 8-128 printable characters"@,
{
    if header is Some {
        keys_are_printable_and_neither_short_nor_long(header->0@);
    }
}

/// A journey goes on under the identifier that the caller gave, where that is
/// one, and else under a fresh one.
pub proof fn journeys_keep_the_given_identifier(header: Option<&str>, id: u128, r: u128)
    requires
        call_ensures(extract_or_generate_correlation_id, (header,), r),
    ensures
        header is Some && parsed_uuid(header->0@) is Some ==> r == parsed_uuid(header->0@)->0,
        header is Some && header->0@ == uuid_text(id) ==> r == id,
        header is None || parsed_uuid(header->0@) is None ==> is_version_7(r),
{
}

/// A request is taken where its key and its lines are in order, the key being
/// looked at first; what is taken is the key as it was given, and the order
/// that the lines make.
pub proof fn requests_are_taken_as_given(
    key: Option<&str>,
    correlation: Option<&str>,
    body: CreateOrderRequest,
    r: Result<AcceptedRequest, ApiError>,
)
    requires
        call_ensures(accept_request, (key, correlation, body), r),
    ensures
        ({
            let keyed = key is Some && 8 <= key->0@.len() <= 128 && forall|i: int|
                0 <= i < key->0@.len() ==> 32 <= #[trigger] key->0@[i] as int <= 126;
            let order = normalized(body@);
            &&& r is Ok <==> keyed && order is Ok
            &&& r is Ok ==> r->Ok_0.idempotency_key@ == key->0@ && r->Ok_0.order@ == order->Ok_0
            &&& r is Ok && correlation is Some && parsed_uuid(correlation->0@) is Some
                ==> r->Ok_0.correlation_id == parsed_uuid(correlation->0@)->0
            &&& !keyed ==> r->Err_0 is InvalidIdempotencyKey
            &&& keyed && order is Err ==> r->Err_0 is Validation && r->Err_0->Validation_0@
                == order->Err_0
        }),
{
    if key is Some {
        keys_are_printable_and_neither_short_nor_long(key->0@);
    }
}

/// An accepted request is answered with 202, the place of the order, its
/// journey and the order as it is stored.
pub proof fn accepted_requests_are_answered(outcome: CreateOutcome, r: AcceptedResponse)
    requires
        call_ensures(accepted_response, (outcome,), r),
    ensures
        r.status == 202,
        r.location@ == "/v1/orders/"@ + uuid_text(outcome.order.id),
        r.correlation_id@ == uuid_text(outcome.order.correlation_id),
        r.body.id == outcome.order.id,
        r.body.status == outcome.order.status,
        r.body.currency@ == outcome.order.currency@,
        r.body.amount_minor == outcome.order.amount_minor,
        r.body.version == outcome.order.version,
        r.body.items@.len() == outcome.items@.len(),
        forall|i: int|
            0 <= i < outcome.items@.len() ==> (#[trigger] r.body.items@[i]).sku@
                == outcome.items@[i].sku@ && r.body.items@[i].quantity == outcome.items@[i].quantity
                && r.body.items@[i].unit_price_minor == outcome.items@[i].unit_price_minor,
{
    let items = views(outcome.items@);
    orders_are_shown_as_stored(r.body, outcome.order@, items);
    assert forall|i: int| 0 <= i < outcome.items@.len() implies (#[trigger] r.body.items@[i]).sku@
        == outcome.items@[i].sku@ && r.body.items@[i].quantity == outcome.items@[i].quantity
        && r.body.items@[i].unit_price_minor == outcome.items@[i].unit_price_minor by {
        assert(items[i] == outcome.items@[i]@);
    }
}

/// A question for an order is answered with it, or with the word that there
/// is none; so is one for its changes, which are told one by one.
pub proof fn questions_are_answered_with_what_is_found(
    found: Option<(OrderRow, Vec<OrderItemRow>)>,
    order: Result<OrderRepresentation, ApiError>,
    rows: Option<Vec<TransitionRow>>,
    changes: Result<Vec<TransitionRepresentation>, ApiError>,
)
    ensures
        call_ensures(get_order, (found,), order) ==> {
            &&& order is Ok <==> found is Some
            &&& order is Err ==> order->Err_0 is OrderNotFound
            &&& found matches Some((row, lines)) ==> order->Ok_0.id == row.id && order->Ok_0.status
                == row.status && order->Ok_0.amount_minor == row.amount_minor && order->Ok_0.version
                == row.version && order->Ok_0.items@.len() == lines@.len()
        },
        call_ensures(get_transitions, (rows,), changes) ==> {
            &&& changes is Ok <==> rows is Some
            &&& changes is Err ==> changes->Err_0 is OrderNotFound
            &&& changes is Ok ==> changes->Ok_0@.len() == rows->0@.len() && forall|i: int|
                0 <= i < rows->0@.len() ==> {
                    let shown = #[trigger] changes->Ok_0@[i];
                    &&& shown.id == rows->0@[i].id
                    &&& shown.from_status == rows->0@[i].from_status
                    &&& shown.to_status == rows->0@[i].to_status
                    &&& shown.reason == rows->0@[i].reason
                    &&& shown.order_version == rows->0@[i].order_version
                    &&& shown.created_at == rows->0@[i].created_at
                }
        },
{
    if call_ensures(get_order, (found,), order) {
        if let Some((row, lines)) = found {
            orders_are_shown_as_stored(order->Ok_0, row@, views(lines@));
        }
    }
}

/// Without an outbox an order is announced under its own key with every line
/// as it is stored, unless it is new and the fault behind the commit fires
/// for it: then it is not announced, and the fault is named.
pub proof fn naive_orders_are_announced_as_stored(
    faults: &mut FaultInjector,
    outcome: &CreateOutcome,
    correlation_id: u128,
    event_id: u128,
    cause: u128,
    now: Timestamp,
    r: Result<NaivePublication, NaiveFailure>,
)
    requires
        call_ensures(
            naive_announcement,
            (faults, outcome, correlation_id, event_id, cause, now),
            r,
        ),
    ensures
        ({
            let point = "orders.after_db_commit_before_publish"@;
            let lost = outcome.created && fires(
                old(faults)@,
                point,
                Some(uuid_text(outcome.order.id)),
            );
            let told = r->Ok_0.envelope@.payload->OrderCreated_0;
            &&& r is Err <==> lost
            &&& r is Ok ==> {
                &&& r->Ok_0.topic@ == "orders.events.v1"@
                &&& r->Ok_0.key@ == uuid_text(outcome.order.id)
                &&& r->Ok_0.envelope@.event_type == "orders.order_created"@
                &&& r->Ok_0.envelope@.event_id == event_id
                &&& r->Ok_0.envelope@.causation_id == cause
                &&& r->Ok_0.envelope@.occurred_at == now
                &&& r->Ok_0.envelope@.aggregate_id == outcome.order.id
                &&& r->Ok_0.envelope@.aggregate_version == outcome.order.version
                &&& r->Ok_0.envelope@.correlation_id == correlation_id
                &&& r->Ok_0.envelope@.payload is OrderCreated
                &&& told.order_id == outcome.order.id
                &&& told.amount.currency == outcome.order.currency@
                &&& told.amount.minor_units == outcome.order.amount_minor
                &&& told.items.len() == outcome.items@.len()
                &&& forall|i: int|
                    0 <= i < told.items.len() ==> (#[trigger] told.items[i]).sku
                        == outcome.items@[i].sku@ && told.items[i].quantity
                        == outcome.items@[i].quantity
                &&& final(faults)@ == old(faults)@
            }
            &&& r is Err ==> {
                &&& r->Err_0.error is InjectedFault
                &&& r->Err_0.error->InjectedFault_0@ == point
                &&& r->Err_0.delay_ms == old(faults)@[point].delay_ms
            }
        }),
{
    let items = views(outcome.items@);
    if r is Ok {
        let told = r->Ok_0.envelope@.payload->OrderCreated_0;
        assert forall|i: int| 0 <= i < told.items.len() implies (#[trigger] told.items[i]).sku
            == outcome.items@[i].sku@ && told.items[i].quantity == outcome.items@[i].quantity by {
            assert(items[i] == outcome.items@[i]@);
        }
    }
}

/// A response follows a publication that the broker took, unless the fault
/// behind it fires for the order; what the broker said is told otherwise.
pub proof fn naive_orders_are_answered_after_the_broker(
    faults: &mut FaultInjector,
    order_id: u128,
    published: Result<(), String>,
    r: Result<(), NaiveFailure>,
)
    requires
        call_ensures(naive_completion, (faults, order_id, published), r),
    ensures
        ({
            let point = "orders.after_publish_before_response"@;
            let stopped = fires(old(faults)@, point, Some(uuid_text(order_id)));
            &&& r is Ok <==> published is Ok && !stopped
            &&& published is Err ==> r->Err_0.error == ApiError::PublishFailed(published->Err_0)
                && r->Err_0.delay_ms is None
            &&& published is Ok && stopped ==> {
                &&& r->Err_0.error is InjectedFault
                &&& r->Err_0.error->InjectedFault_0@ == point
                &&& r->Err_0.delay_ms == old(faults)@[point].delay_ms
            }
        }),
{
}

}
