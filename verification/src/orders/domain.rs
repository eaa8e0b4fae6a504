//! The order aggregate: its status graph and the validation of requests.

use vstd::prelude::*;
use vstd::relations::*;
use vstd::string::*;

use crate::domain_common::{currency_code_shaped, is_currency_code};
use crate::model::views;
use crate::text::{
    i64_text, lemma_text_before_asymmetric, lemma_text_before_irreflexive,
    lemma_text_before_total, lemma_text_before_transitive, signed_decimal, text_before, text_eq,
    text_less,
};

verus! {

/// Where an order stands in its life.
#[derive(Debug, Clone, Copy, PartialEq, Eq, Structural)]
pub enum OrderStatus {
    Pending,
    InventoryReserved,
    PaymentAuthorized,
    ReadyForFulfilment,
    Completed,
    Cancelling,
    Cancelled,
    ManualReview,
}

impl OrderStatus {
    /// The name of a status.
    pub open spec fn name(self) -> Seq<char> {
        match self {
            OrderStatus::Pending => "PENDING"@,
            OrderStatus::InventoryReserved => "INVENTORY_RESERVED"@,
            OrderStatus::PaymentAuthorized => "PAYMENT_AUTHORIZED"@,
            OrderStatus::ReadyForFulfilment => "READY_FOR_FULFILMENT"@,
            OrderStatus::Completed => "COMPLETED"@,
            OrderStatus::Cancelling => "CANCELLING"@,
            OrderStatus::Cancelled => "CANCELLED"@,
            OrderStatus::ManualReview => "MANUAL_REVIEW"@,
        }
    }

    /// The name of a status.
    pub fn text(self) -> (r: String)
        ensures
            r@ == self.name(),
    {
        let name = match self {
            OrderStatus::Pending => "PENDING",
            OrderStatus::InventoryReserved => "INVENTORY_RESERVED",
            OrderStatus::PaymentAuthorized => "PAYMENT_AUTHORIZED",
            OrderStatus::ReadyForFulfilment => "READY_FOR_FULFILMENT",
            OrderStatus::Completed => "COMPLETED",
            OrderStatus::Cancelling => "CANCELLING",
            OrderStatus::Cancelled => "CANCELLED",
            OrderStatus::ManualReview => "MANUAL_REVIEW",
        };
        name.to_owned()
    }

    /// The status with the given name.
    pub fn parse(text: &str) -> (r: Option<OrderStatus>)
        ensures
            match r {
                Some(status) => text@ == status.name(),
                None => forall|status: OrderStatus| text@ != #[trigger] status.name(),
            },
    {
        if text_eq(text, "PENDING") {
            Some(OrderStatus::Pending)
        } else if text_eq(text, "INVENTORY_RESERVED") {
            Some(OrderStatus::InventoryReserved)
        } else if text_eq(text, "PAYMENT_AUTHORIZED") {
            Some(OrderStatus::PaymentAuthorized)
        } else if text_eq(text, "READY_FOR_FULFILMENT") {
            Some(OrderStatus::ReadyForFulfilment)
        } else if text_eq(text, "COMPLETED") {
            Some(OrderStatus::Completed)
        } else if text_eq(text, "CANCELLING") {
            Some(OrderStatus::Cancelling)
        } else if text_eq(text, "CANCELLED") {
            Some(OrderStatus::Cancelled)
        } else if text_eq(text, "MANUAL_REVIEW") {
            Some(OrderStatus::ManualReview)
        } else {
            None
        }
    }

    /// The position on the way from acceptance to completion.
    pub open spec fn progress(self) -> Option<int> {
        match self {
            OrderStatus::Pending => Some(0),
            OrderStatus::InventoryReserved => Some(1),
            OrderStatus::PaymentAuthorized => Some(2),
            OrderStatus::ReadyForFulfilment => Some(3),
            OrderStatus::Completed => Some(4),
            _ => None,
        }
    }

    /// A status that an order never leaves.
    pub open spec fn is_final(self) -> bool {
        self is Completed || self is Cancelled || self is ManualReview
    }
}

/// The status graph: one step forward on the way to completion, into
/// cancellation from any step before completion, and out of cancellation
/// into its end or into review.
pub open spec fn legal(from: OrderStatus, to: OrderStatus) -> bool {
    ||| from.progress() is Some && to.progress() is Some && to.progress()->0
        == from.progress()->0 + 1
    ||| from.progress() is Some && !(from is Completed) && to is Cancelling
    ||| from is Cancelling && (to is Cancelled || to is ManualReview)
}

/// Whether an order may move from one status to another.
pub fn is_legal_transition(from: OrderStatus, to: OrderStatus) -> (r: bool)
    ensures
        r == legal(from, to),
{
    match (from, to) {
        (OrderStatus::Pending, OrderStatus::InventoryReserved) => true,
        (OrderStatus::InventoryReserved, OrderStatus::PaymentAuthorized) => true,
        (OrderStatus::PaymentAuthorized, OrderStatus::ReadyForFulfilment) => true,
        (OrderStatus::ReadyForFulfilment, OrderStatus::Completed) => true,
        (OrderStatus::Pending, OrderStatus::Cancelling) => true,
        (OrderStatus::InventoryReserved, OrderStatus::Cancelling) => true,
        (OrderStatus::PaymentAuthorized, OrderStatus::Cancelling) => true,
        (OrderStatus::ReadyForFulfilment, OrderStatus::Cancelling) => true,
        (OrderStatus::Cancelling, OrderStatus::Cancelled) => true,
        (OrderStatus::Cancelling, OrderStatus::ManualReview) => true,
        _ => false,
    }
}

/// No status leads back to itself, and the final ones lead nowhere.
pub proof fn final_statuses_have_no_exit(from: OrderStatus, to: OrderStatus)
    ensures
        legal(from, to) ==> from != to,
        from.is_final() ==> !legal(from, to),
        !from.is_final() ==> exists|next: OrderStatus| legal(from, next),
{
    if !from.is_final() {
        if from is Cancelling {
            assert(legal(from, OrderStatus::Cancelled));
        } else {
            assert(legal(from, OrderStatus::Cancelling));
        }
    }
}

pub const MAX_ITEMS: usize = 100;

pub const MAX_QUANTITY: i64 = 10_000;

/// Why a request for an order is refused.
#[derive(Debug, PartialEq, Eq)]
pub enum ValidationError {
    ItemCountOutOfRange,
    DuplicateSku(String),
    QuantityOutOfRange { sku: String, quantity: i64 },
    NegativeUnitPrice(String),
    InvalidCurrency(String),
    AmountOverflow,
}

/// What a [`ValidationError`] says.
pub enum ValidationErrorView {
    ItemCountOutOfRange,
    DuplicateSku(Seq<char>),
    QuantityOutOfRange { sku: Seq<char>, quantity: i64 },
    NegativeUnitPrice(Seq<char>),
    InvalidCurrency(Seq<char>),
    AmountOverflow,
}

impl View for ValidationError {
    type V = ValidationErrorView;

    open spec fn view(&self) -> ValidationErrorView {
        match *self {
            ValidationError::ItemCountOutOfRange => ValidationErrorView::ItemCountOutOfRange,
            ValidationError::DuplicateSku(sku) => ValidationErrorView::DuplicateSku(sku@),
            ValidationError::QuantityOutOfRange { sku, quantity } => (
            ValidationErrorView::QuantityOutOfRange { sku: sku@, quantity }),
            ValidationError::NegativeUnitPrice(sku) => ValidationErrorView::NegativeUnitPrice(sku@),
            ValidationError::InvalidCurrency(code) => ValidationErrorView::InvalidCurrency(code@),
            ValidationError::AmountOverflow => ValidationErrorView::AmountOverflow,
        }
    }
}

/// The quoted and escaped form that `{:?}` gives a text.
pub uninterp spec fn debug_text(text: Seq<char>) -> Seq<char>;

/// Calls `format!` with `{:?}` on a text.
#[verifier::external_body]
fn debug_quote(text: &str) -> (r: String)
    ensures
        r@ == debug_text(text@),
{
    format!("{text:?}")
}

impl ValidationErrorView {
    /// The error in words.
    pub open spec fn words(self) -> Seq<char> {
        match self {
            ValidationErrorView::ItemCountOutOfRange =>
                "items must contain between 1 and 100 entries"@,
            ValidationErrorView::DuplicateSku(sku) => "duplicate sku in items: "@ + sku,
            ValidationErrorView::QuantityOutOfRange { sku, quantity } => "quantity for sku "@ + sku
                + " must be between 1 and 10000, got "@ + signed_decimal(quantity as int),
            ValidationErrorView::NegativeUnitPrice(sku) => "unit_price_minor for sku "@ + sku
                + " must be non-negative"@,
            ValidationErrorView::InvalidCurrency(code) =>
                "currency must be an uppercase 3-letter ISO-4217-shaped code, got "@ + debug_text(
                code,
            ),
            ValidationErrorView::AmountOverflow => "computed order amount overflowed i64"@,
        }
    }
}

impl ValidationError {
    /// The error in words.
    pub fn message(&self) -> (r: String)
        ensures
            r@ == self@.words(),
    {
        match self {
            ValidationError::ItemCountOutOfRange =>
                "items must contain between 1 and 100 entries".to_owned(),
            ValidationError::DuplicateSku(sku) => {
                let mut out: String = "duplicate sku in items: ".to_owned();
                out.append(sku.as_str());
                out
            },
            ValidationError::QuantityOutOfRange { sku, quantity } => {
                let mut out: String = "quantity for sku ".to_owned();
                out.append(sku.as_str());
                out.append(" must be between 1 and 10000, got ");
                out.append(i64_text(*quantity).as_str());
                out
            },
            ValidationError::NegativeUnitPrice(sku) => {
                let mut out: String = "unit_price_minor for sku ".to_owned();
                out.append(sku.as_str());
                out.append(" must be non-negative");
                out
            },
            ValidationError::InvalidCurrency(code) => {
                let mut out: String =
                    "currency must be an uppercase 3-letter ISO-4217-shaped code, got ".to_owned();
                out.append(debug_quote(code.as_str()).as_str());
                out
            },
            ValidationError::AmountOverflow => "computed order amount overflowed i64".to_owned(),
        }
    }
}

/// One requested line.
#[derive(Debug)]
pub struct ItemRequest {
    pub sku: String,
    pub quantity: i64,
    pub unit_price_minor: i64,
}

impl Clone for ItemRequest {
    fn clone(&self) -> (r: ItemRequest)
        ensures
            r == *self,
    {
        ItemRequest {
            sku: self.sku.clone(),
            quantity: self.quantity,
            unit_price_minor: self.unit_price_minor,
        }
    }
}

/// What an [`ItemRequest`] says.
pub struct ItemView {
    pub sku: Seq<char>,
    pub quantity: i64,
    pub unit_price_minor: i64,
}

impl View for ItemRequest {
    type V = ItemView;

    open spec fn view(&self) -> ItemView {
        ItemView {
            sku: self.sku@,
            quantity: self.quantity,
            unit_price_minor: self.unit_price_minor,
        }
    }
}

/// A request for an order.
#[derive(Debug)]
pub struct CreateOrderRequest {
    pub items: Vec<ItemRequest>,
    pub currency: String,
}

/// What a [`CreateOrderRequest`] says.
pub struct RequestView {
    pub items: Seq<ItemView>,
    pub currency: Seq<char>,
}

impl View for CreateOrderRequest {
    type V = RequestView;

    open spec fn view(&self) -> RequestView {
        RequestView { items: views(self.items@), currency: self.currency@ }
    }
}

/// A valid request with its lines in SKU order and its total in minor units.
#[derive(Debug)]
pub struct NormalizedOrder {
    pub items: Vec<ItemRequest>,
    pub currency: String,
    pub amount_minor: i64,
}

/// What a [`NormalizedOrder`] says.
pub struct NormalizedView {
    pub items: Seq<ItemView>,
    pub currency: Seq<char>,
    pub amount_minor: i64,
}

impl View for NormalizedOrder {
    type V = NormalizedView;

    open spec fn view(&self) -> NormalizedView {
        NormalizedView {
            items: views(self.items@),
            currency: self.currency@,
            amount_minor: self.amount_minor,
        }
    }
}

/// `items` with `item` put behind every line whose SKU does not come after
/// its own.
pub open spec fn placed(items: Seq<ItemView>, item: ItemView) -> Seq<ItemView>
    decreases items.len(),
{
    if items.len() == 0 || !text_before(item.sku, items.last().sku) {
        items.push(item)
    } else {
        placed(items.drop_last(), item).push(items.last())
    }
}

/// The lines in SKU order; lines with equal SKUs keep their order.
pub open spec fn in_sku_order(items: Seq<ItemView>) -> Seq<ItemView>
    decreases items.len(),
{
    if items.len() == 0 {
        items
    } else {
        placed(in_sku_order(items.drop_last()), items.last())
    }
}

/// The first SKU that stands on two neighbouring lines.
pub open spec fn first_repeat(items: Seq<ItemView>) -> Option<Seq<char>>
    decreases items.len(),
{
    if items.len() < 2 {
        None
    } else if items[0].sku == items[1].sku {
        Some(items[0].sku)
    } else {
        first_repeat(items.drop_first())
    }
}

/// The total of the lines in minor units, or the first refusal on the way.
pub open spec fn total(items: Seq<ItemView>) -> Result<int, ValidationErrorView>
    decreases items.len(),
{
    if items.len() == 0 {
        Ok(0)
    } else {
        let item = items.last();
        match total(items.drop_last()) {
            Err(e) => Err(e),
            Ok(before) => if item.quantity < 1 || item.quantity > MAX_QUANTITY {
                Err(
                    (ValidationErrorView::QuantityOutOfRange {
                        sku: item.sku,
                        quantity: item.quantity,
                    }),
                )
            } else if item.unit_price_minor < 0 {
                Err(ValidationErrorView::NegativeUnitPrice(item.sku))
            } else if before + item.quantity * item.unit_price_minor > i64::MAX {
                Err(ValidationErrorView::AmountOverflow)
            } else {
                Ok(before + item.quantity * item.unit_price_minor)
            },
        }
    }
}

/// What becomes of a request.
pub open spec fn normalized(request: RequestView) -> Result<NormalizedView, ValidationErrorView> {
    let items = in_sku_order(request.items);
    if request.items.len() == 0 || request.items.len() > MAX_ITEMS {
        Err(ValidationErrorView::ItemCountOutOfRange)
    } else if !is_currency_code(request.currency) {
        Err(ValidationErrorView::InvalidCurrency(request.currency))
    } else if first_repeat(items) is Some {
        Err(ValidationErrorView::DuplicateSku(first_repeat(items)->0))
    } else {
        match total(items) {
            Err(e) => Err(e),
            Ok(amount) => Ok(
                (NormalizedView { items, currency: request.currency, amount_minor: amount as i64 }),
            ),
        }
    }
}

proof fn lemma_placed_behind(items: Seq<ItemView>, item: ItemView, at: int)
    requires
        0 <= at <= items.len(),
        at > 0 ==> !text_before(item.sku, items[at - 1].sku),
        forall|k: int| at <= k < items.len() ==> text_before(item.sku, #[trigger] items[k].sku),
    ensures
        placed(items, item) == items.insert(at, item),
    decreases items.len(),
{
    if at == items.len() {
        assert(items.insert(at, item) =~= items.push(item));
    } else {
        assert(text_before(item.sku, items[items.len() - 1].sku));
        lemma_placed_behind(items.drop_last(), item, at);
        assert(items.insert(at, item) =~= items.drop_last().insert(at, item).push(items.last()));
    }
}

/// Puts a line in its place among lines in SKU order.
fn place_item(items: &mut Vec<ItemRequest>, item: ItemRequest)
    ensures
        views(final(items)@) == placed(views(old(items)@), item@),
{
    let mut at: usize = items.len();
    let ghost before = views(items@);
    while at > 0 && text_less(item.sku.as_str(), items[at - 1].sku.as_str())
        invariant
            at <= items.len(),
            before == views(items@),
            items@ == old(items)@,
            forall|k: int| at <= k < before.len() ==> text_before(item@.sku, #[trigger] before[k].sku),
        ensures
            at <= items.len(),
            before == views(items@),
            items@ == old(items)@,
            at > 0 ==> !text_before(item@.sku, before[at - 1].sku),
            forall|k: int| at <= k < before.len() ==> text_before(item@.sku, #[trigger] before[k].sku),
        decreases at,
    {
        at = at - 1;
    }
    proof {
        lemma_placed_behind(before, item@, at as int);
    }
    let ghost seen = item@;
    items.insert(at, item);
    assert(views(items@) =~= before.insert(at as int, seen));
}

/// The lines in SKU order.
fn sort_items(items: &Vec<ItemRequest>) -> (r: Vec<ItemRequest>)
    ensures
        views(r@) == in_sku_order(views(items@)),
{
    let mut out: Vec<ItemRequest> = Vec::new();
    let ghost all = views(items@);
    let mut i: usize = 0;
    assert(views(out@) =~= in_sku_order(all.subrange(0, 0)));
    while i < items.len()
        invariant
            i <= items.len(),
            all == views(items@),
            views(out@) == in_sku_order(all.subrange(0, i as int)),
        decreases items.len() - i,
    {
        place_item(&mut out, items[i].clone());
        assert(all.subrange(0, i + 1).drop_last() =~= all.subrange(0, i as int));
        i = i + 1;
    }
    assert(all.subrange(0, i as int) =~= all);
    out
}

/// The first SKU that stands on two neighbouring lines.
fn find_repeat(items: &Vec<ItemRequest>) -> (r: Option<String>)
    ensures
        r is Some <==> first_repeat(views(items@)) is Some,
        r matches Some(sku) ==> sku@ == first_repeat(views(items@))->0,
{
    let ghost all = views(items@);
    let mut i: usize = 0;
    assert(all.subrange(0, all.len() as int) =~= all);
    while items.len() - i > 1
        invariant
            i <= items.len(),
            all == views(items@),
            all.len() == items.len(),
            first_repeat(all) == first_repeat(all.subrange(i as int, all.len() as int)),
        decreases items.len() - i,
    {
        let ghost rest = all.subrange(i as int, all.len() as int);
        assert(rest[0] == all[i as int] && rest[1] == all[i + 1]);
        if text_eq(items[i].sku.as_str(), items[i + 1].sku.as_str()) {
            return Some(items[i].sku.clone());
        }
        assert(rest.drop_first() =~= all.subrange(i + 1, all.len() as int));
        i = i + 1;
    }
    None
}

/// Checks each line and adds it to the total.
fn add_up(items: &Vec<ItemRequest>) -> (r: Result<i64, ValidationError>)
    ensures
        match (r, total(views(items@))) {
            (Ok(amount), Ok(sum)) => amount == sum && 0 <= sum <= i64::MAX,
            (Err(e), Err(refusal)) => e@ == refusal,
            _ => false,
        },
{
    let mut amount_minor: i64 = 0;
    let ghost all = views(items@);
    let mut i: usize = 0;
    while i < items.len()
        invariant
            i <= items.len(),
            all == views(items@),
            all.len() == items.len(),
            amount_minor >= 0,
            total(all.subrange(0, i as int)) == Ok::<int, ValidationErrorView>(amount_minor as int),
        decreases items.len() - i,
    {
        let item = &items[i];
        let ghost upto = all.subrange(0, i + 1);
        proof {
            assert(upto.drop_last() =~= all.subrange(0, i as int));
            assert(upto.last() == item@);
        }
        if item.quantity < 1 || item.quantity > MAX_QUANTITY {
            proof {
                lemma_total_stops(all, i + 1);
            }
            return Err(
                ValidationError::QuantityOutOfRange {
                    sku: item.sku.clone(),
                    quantity: item.quantity,
                },
            );
        }
        if item.unit_price_minor < 0 {
            proof {
                lemma_total_stops(all, i + 1);
            }
            return Err(ValidationError::NegativeUnitPrice(item.sku.clone()));
        }
        assert(0 <= item.quantity * item.unit_price_minor) by (nonlinear_arith)
            requires
                item.quantity >= 1,
                item.unit_price_minor >= 0,
        ;
        let line_total: i64 = match item.quantity.checked_mul(item.unit_price_minor) {
            Some(line_total) => line_total,
            None => {
                proof {
                    lemma_total_stops(all, i + 1);
                }
                return Err(ValidationError::AmountOverflow);
            },
        };
        amount_minor = match amount_minor.checked_add(line_total) {
            Some(sum) => sum,
            None => {
                proof {
                    lemma_total_stops(all, i + 1);
                }
                return Err(ValidationError::AmountOverflow);
            },
        };
        i = i + 1;
    }
    assert(all.subrange(0, i as int) =~= all);
    Ok(amount_minor)
}

proof fn lemma_total_stops(items: Seq<ItemView>, n: int)
    requires
        0 <= n <= items.len(),
        total(items.subrange(0, n)) is Err,
    ensures
        total(items) == total(items.subrange(0, n)),
    decreases items.len(),
{
    if n == items.len() {
        assert(items.subrange(0, n) =~= items);
    } else {
        assert(items.drop_last().subrange(0, n) =~= items.subrange(0, n));
        lemma_total_stops(items.drop_last(), n);
    }
}

/// Checks a request and puts it in its normal form: the number of lines, the
/// currency, repeated SKUs, then each line in SKU order.
pub fn validate_and_normalize(req: CreateOrderRequest) -> (r: Result<NormalizedOrder, ValidationError>)
    ensures
        match (r, normalized(req@)) {
            (Ok(order), Ok(normal)) => order@ == normal,
            (Err(e), Err(refusal)) => e@ == refusal,
            _ => false,
        },
{
    if req.items.len() == 0 || req.items.len() > MAX_ITEMS {
        return Err(ValidationError::ItemCountOutOfRange);
    }
    if !currency_code_shaped(req.currency.as_str()) {
        return Err(ValidationError::InvalidCurrency(req.currency));
    }
    let items: Vec<ItemRequest> = sort_items(&req.items);
    match find_repeat(&items) {
        Some(sku) => {
            return Err(ValidationError::DuplicateSku(sku));
        },
        None => {},
    }
    match add_up(&items) {
        Ok(amount_minor) => Ok(NormalizedOrder { items, currency: req.currency, amount_minor }),
        Err(e) => Err(e),
    }
}

/// The SKUs of the lines.
pub open spec fn skus(items: Seq<ItemView>) -> Seq<Seq<char>> {
    Seq::new(items.len(), |i: int| items[i].sku)
}

/// No line comes after one with a later SKU.
pub open spec fn sku_sorted(items: Seq<ItemView>) -> bool {
    forall|i: int, j: int|
        0 <= i < j < items.len() ==> !text_before(#[trigger] items[j].sku, #[trigger] items[i].sku)
}

proof fn lemma_placed_keeps_order(items: Seq<ItemView>, item: ItemView)
    requires
        sku_sorted(items),
    ensures
        sku_sorted(placed(items, item)),
        placed(items, item).len() == items.len() + 1,
        placed(items, item).to_multiset() == items.to_multiset().insert(item),
        forall|k: int|
            0 <= k <= items.len() ==> (#[trigger] placed(items, item)[k] == item || items.contains(
                placed(items, item)[k],
            )),
    decreases items.len(),
{
    broadcast use vstd::seq_lib::group_to_multiset_ensures;

    let out = placed(items, item);
    if items.len() == 0 || !text_before(item.sku, items.last().sku) {
        assert forall|i: int, j: int| 0 <= i < j < out.len() implies !text_before(
            #[trigger] out[j].sku,
            #[trigger] out[i].sku,
        ) by {
            if j == items.len() && text_before(item.sku, items[i].sku) {
                let last = items.last();
                if i < items.len() - 1 {
                    lemma_text_before_total(last.sku, item.sku);
                    assert(!text_before(items[items.len() - 1].sku, items[i].sku));
                    if text_before(last.sku, item.sku) {
                        lemma_text_before_transitive(last.sku, item.sku, items[i].sku);
                    }
                }
            }
        }
        assert forall|k: int| 0 <= k <= items.len() implies (#[trigger] out[k] == item
            || items.contains(out[k])) by {
            if k < items.len() {
                assert(items.contains(items[k]));
            }
        }
    } else {
        let front = items.drop_last();
        let last = items.last();
        lemma_placed_keeps_order(front, item);
        assert(items =~= front.push(last));
        let inner = placed(front, item);
        assert(out == inner.push(last));
        assert forall|i: int, j: int| 0 <= i < j < out.len() implies !text_before(
            #[trigger] out[j].sku,
            #[trigger] out[i].sku,
        ) by {
            if j == inner.len() {
                if inner[i] == item {
                    lemma_text_before_asymmetric(item.sku, last.sku);
                } else {
                    let k = choose|k: int| 0 <= k < front.len() && front[k] == inner[i];
                    assert(items[k] == inner[i]);
                    assert(!text_before(items[items.len() - 1].sku, items[k].sku));
                }
            }
        }
        assert forall|k: int| 0 <= k <= items.len() implies (#[trigger] out[k] == item
            || items.contains(out[k])) by {
            if k < inner.len() {
                if inner[k] != item {
                    let m = choose|m: int| 0 <= m < front.len() && front[m] == inner[k];
                    assert(items[m] == out[k]);
                }
            } else {
                assert(items[items.len() - 1] == out[k]);
            }
        }
        assert(inner.push(last).to_multiset() == inner.to_multiset().insert(last));
        assert(items.to_multiset() == front.to_multiset().insert(last));
        assert(front.to_multiset().insert(item).insert(last)
            =~= front.to_multiset().insert(last).insert(item));
    }
}

/// Normalization only reorders the lines: they come out in SKU order, and
/// each as often as it went in.
pub proof fn normal_order_is_a_sorted_permutation(items: Seq<ItemView>)
    ensures
        sku_sorted(in_sku_order(items)),
        in_sku_order(items).len() == items.len(),
        in_sku_order(items).to_multiset() == items.to_multiset(),
    decreases items.len(),
{
    broadcast use vstd::seq_lib::group_to_multiset_ensures;

    if items.len() > 0 {
        let front = items.drop_last();
        normal_order_is_a_sorted_permutation(front);
        lemma_placed_keeps_order(in_sku_order(front), items.last());
        assert(items =~= front.push(items.last()));
    }
}

proof fn lemma_skus_of_permutation(a: Seq<ItemView>, b: Seq<ItemView>)
    requires
        a.to_multiset() == b.to_multiset(),
    ensures
        skus(a).to_multiset() == skus(b).to_multiset(),
    decreases a.len(),
{
    broadcast use vstd::seq_lib::group_to_multiset_ensures;

    assert(a.len() == a.to_multiset().len());
    assert(b.len() == b.to_multiset().len());
    if a.len() == 0 {
        assert(skus(a) =~= skus(b));
    } else {
        let last = a.last();
        assert(a.contains(a[a.len() - 1]));
        assert(a.to_multiset().count(last) > 0);
        assert(b.contains(last));
        let k = choose|k: int| 0 <= k < b.len() && b[k] == last;
        let front = a.drop_last();
        let rest = b.remove(k);
        assert(a.remove(a.len() - 1) =~= front);
        lemma_skus_of_permutation(front, rest);
        assert(skus(a) =~= skus(front).push(last.sku));
        assert(skus(rest) =~= skus(b).remove(k));
        assert(skus(b)[k] == last.sku);
        assert(skus(b).contains(skus(b)[k]));
        assert(skus(b).to_multiset() =~= skus(b).remove(k).to_multiset().insert(last.sku));
    }
}

proof fn lemma_first_repeat_by_skus(a: Seq<ItemView>, b: Seq<ItemView>)
    requires
        skus(a) == skus(b),
    ensures
        first_repeat(a) == first_repeat(b),
    decreases a.len(),
{
    assert(skus(a).len() == a.len());
    assert(skus(b).len() == b.len());
    if a.len() >= 2 {
        assert(skus(a)[0] == skus(b)[0] && skus(a)[1] == skus(b)[1]);
        assert(skus(a.drop_first()) =~= skus(a).drop_first());
        assert(skus(b.drop_first()) =~= skus(b).drop_first());
        lemma_first_repeat_by_skus(a.drop_first(), b.drop_first());
    }
}

proof fn lemma_no_repeat_means_strict(items: Seq<ItemView>, i: int, j: int)
    requires
        sku_sorted(items),
        first_repeat(items) is None,
        0 <= i < j < items.len(),
    ensures
        text_before(items[i].sku, items[j].sku),
    decreases items.len(),
{
    let rest = items.drop_first();
    assert forall|x: int, y: int| 0 <= x < y < rest.len() implies !text_before(
        #[trigger] rest[y].sku,
        #[trigger] rest[x].sku,
    ) by {
        assert(rest[y] == items[y + 1] && rest[x] == items[x + 1]);
    }
    if i > 0 {
        lemma_no_repeat_means_strict(rest, i - 1, j - 1);
    } else {
        assert(!text_before(items[1].sku, items[0].sku));
        lemma_text_before_total(items[0].sku, items[1].sku);
        if j > 1 {
            lemma_no_repeat_means_strict(rest, 0, j - 1);
            lemma_text_before_transitive(items[0].sku, items[1].sku, items[j].sku);
        }
    }
}

proof fn lemma_sku_order_is_total()
    ensures
        total_ordering(|x: Seq<char>, y: Seq<char>| !text_before(y, x)),
{
    let leq = |x: Seq<char>, y: Seq<char>| !text_before(y, x);
    assert forall|x: Seq<char>| #[trigger] leq(x, x) by {
        lemma_text_before_irreflexive(x);
    }
    assert forall|x: Seq<char>, y: Seq<char>| #[trigger] leq(x, y) && #[trigger] leq(y, x) implies x
        == y by {
        lemma_text_before_total(x, y);
    }
    assert forall|x: Seq<char>, y: Seq<char>, z: Seq<char>| #[trigger]
        leq(x, y) && #[trigger] leq(y, z) implies leq(x, z) by {
        if text_before(z, x) {
            lemma_text_before_total(x, y);
            lemma_text_before_total(y, z);
            if x == y {
            } else if text_before(x, y) {
                if text_before(y, z) {
                    lemma_text_before_transitive(x, y, z);
                }
                lemma_text_before_asymmetric(z, x);
            }
        }
    }
    assert forall|x: Seq<char>, y: Seq<char>| #[trigger] leq(x, y) || #[trigger] leq(y, x) by {
        if text_before(y, x) {
            lemma_text_before_asymmetric(y, x);
        }
    }
}

/// Two requests that differ only in the order of their lines become the same
/// order, or are refused for the same reason.
pub proof fn normalization_ignores_line_order(a: RequestView, b: RequestView)
    requires
        a.currency == b.currency,
        a.items.to_multiset() == b.items.to_multiset(),
    ensures
        normalized(a) == normalized(b),
{
    broadcast use vstd::seq_lib::group_to_multiset_ensures;

    assert(a.items.len() == a.items.to_multiset().len());
    assert(b.items.len() == b.items.to_multiset().len());
    let x = in_sku_order(a.items);
    let y = in_sku_order(b.items);
    normal_order_is_a_sorted_permutation(a.items);
    normal_order_is_a_sorted_permutation(b.items);
    lemma_skus_of_permutation(x, y);
    let leq = |p: Seq<char>, q: Seq<char>| !text_before(q, p);
    lemma_sku_order_is_total();
    assert(sorted_by(skus(x), leq));
    assert(sorted_by(skus(y), leq));
    vstd::seq_lib::lemma_sorted_unique(skus(x), skus(y), leq);
    lemma_first_repeat_by_skus(x, y);
    if first_repeat(x) is None {
        assert forall|i: int| 0 <= i < x.len() implies x[i] == y[i] by {
            assert(x.contains(x[i]));
            assert(x.to_multiset().count(x[i]) > 0);
            assert(y.contains(x[i]));
            let j = choose|j: int| 0 <= j < y.len() && y[j] == x[i];
            assert(skus(y)[j] == skus(x)[i]);
            assert(skus(y)[i] == skus(x)[i]);
            lemma_text_before_irreflexive(y[j].sku);
            if i < j {
                lemma_no_repeat_means_strict(y, i, j);
            } else if j < i {
                lemma_no_repeat_means_strict(y, j, i);
            }
        }
        assert(x =~= y);
    }
}

/// An accepted order has between one and a hundred lines in strictly
/// ascending SKU order, and every quantity and price is in range.
pub proof fn normalized_orders_are_valid(request: RequestView)
    requires
        normalized(request) is Ok,
    ensures
        ({
            let order = normalized(request)->Ok_0;
            &&& 1 <= order.items.len() <= MAX_ITEMS
            &&& is_currency_code(order.currency)
            &&& order.amount_minor >= 0
            &&& forall|i: int, j: int|
                0 <= i < j < order.items.len() ==> text_before(
                    #[trigger] order.items[i].sku,
                    #[trigger] order.items[j].sku,
                )
            &&& forall|i: int|
                0 <= i < order.items.len() ==> 1 <= (#[trigger] order.items[i]).quantity
                    <= MAX_QUANTITY && order.items[i].unit_price_minor >= 0
        }),
{
    let order = normalized(request)->Ok_0;
    normal_order_is_a_sorted_permutation(request.items);
    assert forall|i: int, j: int| 0 <= i < j < order.items.len() implies text_before(
        #[trigger] order.items[i].sku,
        #[trigger] order.items[j].sku,
    ) by {
        lemma_no_repeat_means_strict(order.items, i, j);
    }
    lemma_total_bounds(order.items);
}

proof fn lemma_total_bounds(items: Seq<ItemView>)
    requires
        total(items) is Ok,
    ensures
        0 <= total(items)->Ok_0 <= i64::MAX,
        forall|i: int|
            0 <= i < items.len() ==> 1 <= (#[trigger] items[i]).quantity <= MAX_QUANTITY
                && items[i].unit_price_minor >= 0,
    decreases items.len(),
{
    if items.len() > 0 {
        lemma_total_bounds(items.drop_last());
        let item = items.last();
        assert(0 <= item.quantity * item.unit_price_minor) by (nonlinear_arith)
            requires
                item.quantity >= 1,
                item.unit_price_minor >= 0,
        ;
        assert forall|i: int| 0 <= i < items.len() implies 1 <= (#[trigger] items[i]).quantity
            <= MAX_QUANTITY && items[i].unit_price_minor >= 0 by {
            if i < items.len() - 1 {
                assert(items.drop_last()[i] == items[i]);
            }
        }
    }
}

/// The status graph: the four steps to completion, cancellation from each
/// status before it, and the two ways out of cancellation; nothing else.
pub proof fn the_status_graph(from: OrderStatus, to: OrderStatus)
    ensures
        legal(from, to) <==> {
            ||| from is Pending && (to is InventoryReserved || to is Cancelling)
            ||| from is InventoryReserved && (to is PaymentAuthorized || to is Cancelling)
            ||| from is PaymentAuthorized && (to is ReadyForFulfilment || to is Cancelling)
            ||| from is ReadyForFulfilment && (to is Completed || to is Cancelling)
            ||| from is Cancelling && (to is Cancelled || to is ManualReview)
        },
{
}

/// The amount of an accepted order is the sum over the lines of the request,
/// as they were asked for, of quantity times unit price.
pub proof fn accepted_orders_cost_the_sum_of_their_lines(request: RequestView)
    requires
        normalized(request) is Ok,
    ensures
        normalized(request)->Ok_0.amount_minor == request.items.fold_left(
            0int,
            |sum: int, line: ItemView| sum + line.quantity * line.unit_price_minor,
        ),
{
    let f = |sum: int, line: ItemView| sum + line.quantity * line.unit_price_minor;
    let items = in_sku_order(request.items);
    lemma_total_is_the_sum(items, f);
    lemma_total_bounds(items);
    lemma_sum_ignores_order(request.items, items, f);
}

/// A request is accepted exactly when it has one to a hundred lines, each of
/// its own SKU, with one to ten thousand pieces at a price that is not
/// negative, in a currency of three capital letters, and their sum can be
/// counted.
pub proof fn requests_are_accepted_exactly_when_valid(request: RequestView)
    ensures
        normalized(request) is Ok <==> {
            &&& 1 <= request.items.len() <= 100
            &&& request.currency.len() == 3
            &&& forall|i: int| 0 <= i < 3 ==> 'A' <= #[trigger] request.currency[i] <= 'Z'
            &&& forall|i: int, j: int|
                0 <= i < j < request.items.len() ==> (#[trigger] request.items[i]).sku != (
                #[trigger] request.items[j]).sku
            &&& forall|i: int|
                0 <= i < request.items.len() ==> 1 <= (#[trigger] request.items[i]).quantity
                    <= 10_000 && request.items[i].unit_price_minor >= 0
            &&& request.items.fold_left(
                0int,
                |sum: int, line: ItemView| sum + line.quantity * line.unit_price_minor,
            ) <= i64::MAX
        },
{
    let f = |sum: int, line: ItemView| sum + line.quantity * line.unit_price_minor;
    let items = in_sku_order(request.items);
    normal_order_is_a_sorted_permutation(request.items);
    lemma_sum_ignores_order(request.items, items, f);
    lemma_repeats(request.items);
    lemma_same_members(request.items, items);
    lemma_same_members(items, request.items);
    if total(items) is Ok {
        lemma_total_is_the_sum(items, f);
        lemma_total_bounds(items);
        assert forall|i: int| 0 <= i < request.items.len() implies 1 <= (
        #[trigger] request.items[i]).quantity <= 10_000 && request.items[i].unit_price_minor >= 0 by {
            assert(items.contains(request.items[i]));
        }
    }
    if (forall|i: int|
        0 <= i < request.items.len() ==> 1 <= (#[trigger] request.items[i]).quantity <= 10_000
            && request.items[i].unit_price_minor >= 0) && request.items.fold_left(0int, f)
        <= i64::MAX {
        assert forall|i: int| 0 <= i < items.len() implies 1 <= (#[trigger] items[i]).quantity
            <= 10_000 && items[i].unit_price_minor >= 0 by {
            assert(request.items.contains(items[i]));
        }
        lemma_valid_lines_add_up(items, f);
    }
}

/// A refusal names its cause: the number of lines first, then the currency,
/// then a SKU that two lines share, then a line whose quantity or price is
/// out of range; and where all lines are in range, a sum that cannot be
/// counted.
pub proof fn refusals_name_their_cause(request: RequestView)
    requires
        normalized(request) is Err,
    ensures
        ({
            let e = normalized(request)->Err_0;
            let counted = 1 <= request.items.len() <= 100;
            let priced = request.currency.len() == 3 && forall|i: int|
                0 <= i < 3 ==> 'A' <= #[trigger] request.currency[i] <= 'Z';
            let distinct = forall|i: int, j: int|
                0 <= i < j < request.items.len() ==> (#[trigger] request.items[i]).sku != (
                #[trigger] request.items[j]).sku;
            &&& e is ItemCountOutOfRange <==> !counted
            &&& e is InvalidCurrency <==> counted && !priced
            &&& e is InvalidCurrency ==> e->InvalidCurrency_0 == request.currency
            &&& e is DuplicateSku <==> counted && priced && !distinct
            &&& e is DuplicateSku ==> exists|i: int, j: int|
                0 <= i < j < request.items.len() && (#[trigger] request.items[i]).sku
                    == e->DuplicateSku_0 && (#[trigger] request.items[j]).sku == e->DuplicateSku_0
            &&& e is QuantityOutOfRange ==> exists|i: int|
                0 <= i < request.items.len() && (#[trigger] request.items[i]).sku
                    == e->QuantityOutOfRange_sku && request.items[i].quantity
                    == e->QuantityOutOfRange_quantity && !(1 <= request.items[i].quantity <= 10_000)
            &&& e is NegativeUnitPrice ==> exists|i: int|
                0 <= i < request.items.len() && (#[trigger] request.items[i]).sku
                    == e->NegativeUnitPrice_0 && request.items[i].unit_price_minor < 0
            &&& counted && priced && distinct && (forall|i: int|
                0 <= i < request.items.len() ==> 1 <= (#[trigger] request.items[i]).quantity
                    <= 10_000 && request.items[i].unit_price_minor >= 0) ==> {
                &&& e is AmountOverflow
                &&& request.items.fold_left(
                    0int,
                    |sum: int, line: ItemView| sum + line.quantity * line.unit_price_minor,
                ) > i64::MAX
            }
        }),
{
    let items = in_sku_order(request.items);
    normal_order_is_a_sorted_permutation(request.items);
    requests_are_accepted_exactly_when_valid(request);
    lemma_repeats(request.items);
    lemma_same_members(items, request.items);
    if first_repeat(items) is Some {
        lemma_repeated_sku(request.items, first_repeat(items)->0);
    }
    if total(items) is Err {
        lemma_refused_line(items);
        let e = total(items)->Err_0;
        if !(e is AmountOverflow) {
            let k = choose|k: int| 0 <= k < items.len() && refuses(e, #[trigger] items[k]);
            assert(request.items.contains(items[k]));
            let m = choose|m: int| 0 <= m < request.items.len() && request.items[m] == items[k];
            assert(refuses(e, request.items[m]));
        }
    }
}

/// The accepted order holds the lines that were asked for and no others, each
/// as it was asked for, in SKU order, and its currency.
pub proof fn accepted_orders_hold_the_lines_asked_for(request: RequestView)
    requires
        normalized(request) is Ok,
    ensures
        ({
            let order = normalized(request)->Ok_0;
            &&& order.currency == request.currency
            &&& order.items.len() == request.items.len()
            &&& order.items.to_multiset() == request.items.to_multiset()
            &&& forall|i: int|
                0 <= i < request.items.len() ==> order.items.contains(#[trigger] request.items[i])
            &&& forall|i: int|
                0 <= i < order.items.len() ==> request.items.contains(#[trigger] order.items[i])
        }),
{
    normal_order_is_a_sorted_permutation(request.items);
    lemma_same_members(request.items, in_sku_order(request.items));
    lemma_same_members(in_sku_order(request.items), request.items);
}

/// The refusal is one of the line.
spec fn refuses(e: ValidationErrorView, line: ItemView) -> bool {
    ||| e is QuantityOutOfRange && e->QuantityOutOfRange_sku == line.sku
        && e->QuantityOutOfRange_quantity == line.quantity && !(1 <= line.quantity <= 10_000)
    ||| e is NegativeUnitPrice && e->NegativeUnitPrice_0 == line.sku && line.unit_price_minor < 0
}

proof fn lemma_refused_line(items: Seq<ItemView>)
    requires
        total(items) is Err,
    ensures
        total(items)->Err_0 is AmountOverflow || exists|k: int|
            0 <= k < items.len() && refuses(total(items)->Err_0, #[trigger] items[k]),
    decreases items.len(),
{
    let front = items.drop_last();
    if total(front) is Err {
        lemma_refused_line(front);
        let e = total(front)->Err_0;
        if !(e is AmountOverflow) {
            let k = choose|k: int| 0 <= k < front.len() && refuses(e, #[trigger] front[k]);
            assert(refuses(e, items[k]));
        }
    } else if !(total(items)->Err_0 is AmountOverflow) {
        assert(refuses(total(items)->Err_0, items[items.len() - 1]));
    }
}

proof fn lemma_same_members(a: Seq<ItemView>, b: Seq<ItemView>)
    requires
        a.to_multiset() == b.to_multiset(),
    ensures
        forall|i: int| 0 <= i < a.len() ==> b.contains(#[trigger] a[i]),
{
    broadcast use vstd::seq_lib::group_to_multiset_ensures;

    assert forall|i: int| 0 <= i < a.len() implies b.contains(#[trigger] a[i]) by {
        assert(a.contains(a[i]));
        assert(a.to_multiset().count(a[i]) > 0);
    }
}

proof fn lemma_sum_ignores_order(
    a: Seq<ItemView>,
    b: Seq<ItemView>,
    f: spec_fn(int, ItemView) -> int,
)
    requires
        b == in_sku_order(a),
        forall|sum: int, line: ItemView| #[trigger]
            f(sum, line) == sum + line.quantity * line.unit_price_minor,
    ensures
        a.fold_left(0int, f) == b.fold_left(0int, f),
{
    normal_order_is_a_sorted_permutation(a);
    assert forall|x: ItemView, y: ItemView, v: int| #[trigger] f(f(v, x), y) == f(f(v, y), x) by {
        assert(f(v, x) == v + x.quantity * x.unit_price_minor);
        assert(f(v, y) == v + y.quantity * y.unit_price_minor);
    }
    vstd::seq_lib::lemma_fold_left_permutation(a, b, f, 0int);
}

proof fn lemma_total_is_the_sum(items: Seq<ItemView>, f: spec_fn(int, ItemView) -> int)
    requires
        total(items) is Ok,
        forall|sum: int, line: ItemView| #[trigger]
            f(sum, line) == sum + line.quantity * line.unit_price_minor,
    ensures
        total(items)->Ok_0 == items.fold_left(0int, f),
    decreases items.len(),
{
    if items.len() > 0 {
        lemma_total_is_the_sum(items.drop_last(), f);
    }
}

proof fn lemma_valid_lines_add_up(items: Seq<ItemView>, f: spec_fn(int, ItemView) -> int)
    requires
        forall|i: int|
            0 <= i < items.len() ==> 1 <= (#[trigger] items[i]).quantity <= 10_000
                && items[i].unit_price_minor >= 0,
        items.fold_left(0int, f) <= i64::MAX,
        forall|sum: int, line: ItemView| #[trigger]
            f(sum, line) == sum + line.quantity * line.unit_price_minor,
    ensures
        total(items) is Ok,
    decreases items.len(),
{
    if items.len() > 0 {
        let front = items.drop_last();
        let last = items[items.len() - 1];
        assert(0 <= last.quantity * last.unit_price_minor) by (nonlinear_arith)
            requires
                last.quantity >= 1,
                last.unit_price_minor >= 0,
        ;
        assert forall|i: int| 0 <= i < front.len() implies 1 <= (#[trigger] front[i]).quantity
            <= 10_000 && front[i].unit_price_minor >= 0 by {
            assert(front[i] == items[i]);
        }
        lemma_valid_lines_add_up(front, f);
        lemma_total_is_the_sum(front, f);
    }
}

/// Lines in SKU order have a repeat exactly where two of the lines that were
/// asked for share a SKU.
proof fn lemma_repeats(items: Seq<ItemView>)
    ensures
        first_repeat(in_sku_order(items)) is None <==> forall|i: int, j: int|
            0 <= i < j < items.len() ==> (#[trigger] items[i]).sku != (#[trigger] items[j]).sku,
{
    let ordered = in_sku_order(items);
    normal_order_is_a_sorted_permutation(items);
    lemma_skus_of_permutation(items, ordered);
    if first_repeat(ordered) is None {
        assert(skus(ordered).no_duplicates()) by {
            assert forall|i: int, j: int|
                0 <= i < skus(ordered).len() && 0 <= j < skus(ordered).len() && i
                    != j implies skus(ordered)[i] != skus(ordered)[j] by {
                lemma_text_before_irreflexive(ordered[i].sku);
                if i < j {
                    lemma_no_repeat_means_strict(ordered, i, j);
                } else {
                    lemma_no_repeat_means_strict(ordered, j, i);
                }
            }
        }
        skus(ordered).lemma_multiset_has_no_duplicates();
        skus(items).lemma_multiset_has_no_duplicates_conv();
        assert forall|i: int, j: int| 0 <= i < j < items.len() implies (#[trigger] items[i]).sku != (
        #[trigger] items[j]).sku by {
            assert(skus(items)[i] != skus(items)[j]);
        }
    } else {
        lemma_repeated_sku(items, first_repeat(ordered)->0);
    }
}

proof fn lemma_repeated_sku(items: Seq<ItemView>, sku: Seq<char>)
    requires
        first_repeat(in_sku_order(items)) == Some(sku),
    ensures
        exists|i: int, j: int|
            0 <= i < j < items.len() && (#[trigger] items[i]).sku == sku && (
            #[trigger] items[j]).sku == sku,
{
    broadcast use vstd::seq_lib::group_to_multiset_ensures;

    let ordered = in_sku_order(items);
    normal_order_is_a_sorted_permutation(items);
    lemma_skus_of_permutation(items, ordered);
    let k = lemma_first_repeat_place(ordered);
    if forall|i: int, j: int|
        0 <= i < j < items.len() ==> !((#[trigger] items[i]).sku == sku && (
        #[trigger] items[j]).sku == sku) {
        lemma_sku_counted_once(items, sku);
        lemma_sku_counted_twice(ordered, k);
    }
}

proof fn lemma_first_repeat_place(items: Seq<ItemView>) -> (k: int)
    requires
        first_repeat(items) is Some,
    ensures
        0 <= k < items.len() - 1,
        items[k].sku == first_repeat(items)->0,
        items[k + 1].sku == first_repeat(items)->0,
    decreases items.len(),
{
    if items[0].sku == items[1].sku {
        0
    } else {
        let k = lemma_first_repeat_place(items.drop_first());
        assert(items.drop_first()[k] == items[k + 1]);
        assert(items.drop_first()[k + 1] == items[k + 2]);
        k + 1
    }
}

proof fn lemma_sku_counted_once(items: Seq<ItemView>, sku: Seq<char>)
    requires
        forall|i: int, j: int|
            0 <= i < j < items.len() ==> !((#[trigger] items[i]).sku == sku && (
            #[trigger] items[j]).sku == sku),
    ensures
        skus(items).to_multiset().count(sku) <= 1,
    decreases items.len(),
{
    broadcast use vstd::seq_lib::group_to_multiset_ensures;

    if items.len() > 0 {
        let front = items.drop_last();
        let n = items.len() - 1;
        assert(skus(items) =~= skus(front).push(items[n].sku));
        assert forall|i: int, j: int| 0 <= i < j < front.len() implies !((
        #[trigger] front[i]).sku == sku && (#[trigger] front[j]).sku == sku) by {
            assert(front[i] == items[i] && front[j] == items[j]);
        }
        lemma_sku_counted_once(front, sku);
        if items[n].sku == sku {
            if skus(front).contains(sku) {
                let i = choose|i: int| 0 <= i < skus(front).len() && skus(front)[i] == sku;
                assert(items[i].sku == sku);
            }
            assert(skus(front).to_multiset().count(sku) == 0);
        }
    }
}

proof fn lemma_sku_counted_twice(items: Seq<ItemView>, k: int)
    requires
        0 <= k < items.len() - 1,
        items[k].sku == items[k + 1].sku,
    ensures
        skus(items).to_multiset().count(items[k].sku) >= 2,
{
    broadcast use vstd::seq_lib::group_to_multiset_ensures;

    let all = skus(items);
    let sku = items[k].sku;
    let rest = all.remove(k);
    assert(all[k] == sku);
    assert(rest[k] == sku) by {
        assert(rest[k] == all[k + 1]);
    }
    assert(rest.contains(sku));
    assert(rest.to_multiset().count(sku) >= 1);
    assert(all =~= rest.insert(k, sku));
    vstd::seq_lib::to_multiset_insert(rest, k, sku);
}

/// The line is in range: one to ten thousand pieces at a price that is not
/// negative.
pub open spec fn in_range(line: ItemView) -> bool {
    1 <= line.quantity <= 10_000 && line.unit_price_minor >= 0
}

/// Of several lines at fault the one with the first SKU is named, by its
/// quantity before its price; of several SKUs that are asked for twice, the
/// first.
pub proof fn refusals_name_the_first_line_at_fault(request: RequestView)
    requires
        normalized(request) is Err,
    ensures
        ({
            let e = normalized(request)->Err_0;
            &&& e matches ValidationErrorView::DuplicateSku(sku) ==> forall|i: int, j: int|
                0 <= i < j < request.items.len() && (#[trigger] request.items[i]).sku == (
                #[trigger] request.items[j]).sku ==> !text_before(request.items[i].sku, sku)
            &&& e matches ValidationErrorView::QuantityOutOfRange { sku, quantity } ==> !(1
                <= quantity <= 10_000) && forall|i: int|
                0 <= i < request.items.len() && text_before((#[trigger] request.items[i]).sku, sku)
                    ==> in_range(request.items[i])
            &&& e matches ValidationErrorView::NegativeUnitPrice(sku) ==> forall|i: int|
                0 <= i < request.items.len() ==> {
                    &&& text_before((#[trigger] request.items[i]).sku, sku) ==> in_range(
                        request.items[i],
                    )
                    &&& request.items[i].sku == sku ==> 1 <= request.items[i].quantity <= 10_000
                }
        }),
{
    let items = in_sku_order(request.items);
    normal_order_is_a_sorted_permutation(request.items);
    lemma_same_members(request.items, items);
    if total(items) is Err {
        lemma_refused_line(items);
    }
    if first_repeat(items) is Some {
        let sku = first_repeat(items)->0;
        assert forall|i: int, j: int|
            0 <= i < j < request.items.len() && (#[trigger] request.items[i]).sku == (
            #[trigger] request.items[j]).sku implies !text_before(request.items[i].sku, sku) by {
            lemma_sku_of_two_lines(request.items, i, j);
        }
    } else if total(items) is Err && !(total(items)->Err_0 is AmountOverflow) {
        let k = lemma_first_fault(items);
        assert forall|i: int|
            0 <= i < request.items.len() && text_before(
                (#[trigger] request.items[i]).sku,
                items[k].sku,
            ) implies in_range(request.items[i]) by {
            assert(items.contains(request.items[i]));
            let j = choose|j: int| 0 <= j < items.len() && items[j] == request.items[i];
            if j >= k {
                lemma_text_before_irreflexive(items[k].sku);
                assert(items[j].sku != items[k].sku ==> j > k);
            }
        }
        assert forall|i: int|
            0 <= i < request.items.len() && (#[trigger] request.items[i]).sku
                == items[k].sku implies request.items[i] == items[k] by {
            assert(items.contains(request.items[i]));
            let j = choose|j: int| 0 <= j < items.len() && items[j] == request.items[i];
            lemma_text_before_irreflexive(items[k].sku);
            if j < k {
                lemma_no_repeat_means_strict(items, j, k);
            } else if k < j {
                lemma_no_repeat_means_strict(items, k, j);
            }
        }
    }
}

proof fn lemma_first_fault(items: Seq<ItemView>) -> (k: int)
    requires
        total(items) is Err,
        !(total(items)->Err_0 is AmountOverflow),
    ensures
        0 <= k < items.len(),
        forall|j: int| 0 <= j < k ==> in_range(#[trigger] items[j]),
        1 <= items[k].quantity <= 10_000 ==> total(items)->Err_0
            == ValidationErrorView::NegativeUnitPrice(items[k].sku),
        !(1 <= items[k].quantity <= 10_000) ==> total(items)->Err_0 == (
        ValidationErrorView::QuantityOutOfRange {
            sku: items[k].sku,
            quantity: items[k].quantity,
        }),
    decreases items.len(),
{
    let front = items.drop_last();
    if total(front) is Err {
        let k = lemma_first_fault(front);
        assert forall|j: int| 0 <= j < k implies in_range(#[trigger] items[j]) by {
            assert(front[j] == items[j]);
        }
        assert(front[k] == items[k]);
        k
    } else {
        lemma_total_bounds(front);
        assert forall|j: int| 0 <= j < front.len() implies in_range(#[trigger] items[j]) by {
            assert(front[j] == items[j]);
        }
        items.len() - 1
    }
}

/// A SKU that stands before the first repeat in SKU order stands on one line
/// only.
proof fn lemma_sku_of_two_lines(items: Seq<ItemView>, i: int, j: int)
    requires
        0 <= i < j < items.len(),
        items[i].sku == items[j].sku,
        first_repeat(in_sku_order(items)) is Some,
    ensures
        !text_before(items[i].sku, first_repeat(in_sku_order(items))->0),
{
    broadcast use vstd::seq_lib::group_to_multiset_ensures;

    let ordered = in_sku_order(items);
    let sku = items[i].sku;
    normal_order_is_a_sorted_permutation(items);
    lemma_skus_of_permutation(items, ordered);
    lemma_two_of_a_sku(items, i, j);
    if text_before(sku, first_repeat(ordered)->0) {
        lemma_alone_before_repeat(ordered, sku);
    }
}

proof fn lemma_two_of_a_sku(items: Seq<ItemView>, i: int, j: int)
    requires
        0 <= i < j < items.len(),
        items[i].sku == items[j].sku,
    ensures
        skus(items).to_multiset().count(items[i].sku) >= 2,
{
    broadcast use vstd::seq_lib::group_to_multiset_ensures;

    let all = skus(items);
    let sku = items[i].sku;
    let rest = all.remove(j);
    assert(rest[i] == all[i]);
    assert(rest.contains(sku));
    assert(rest.to_multiset().count(sku) >= 1);
    assert(all =~= rest.insert(j, sku));
    vstd::seq_lib::to_multiset_insert(rest, j, sku);
}

proof fn lemma_alone_before_repeat(items: Seq<ItemView>, sku: Seq<char>)
    requires
        sku_sorted(items),
        first_repeat(items) is Some,
        text_before(sku, first_repeat(items)->0),
    ensures
        skus(items).to_multiset().count(sku) <= 1,
{
    lemma_text_before_irreflexive(sku);
    let place = lemma_first_repeat_at(items);
    assert forall|i: int, j: int| 0 <= i < j < items.len() implies !((
    #[trigger] items[i]).sku == sku && (#[trigger] items[j]).sku == sku) by {
        if items[i].sku == sku && items[j].sku == sku {
            if j > place {
                assert(!text_before(items[j].sku, items[place].sku));
            } else if i + 1 < j {
                assert(!text_before(items[j].sku, items[i + 1].sku));
                assert(!text_before(items[i + 1].sku, items[i].sku));
                lemma_text_before_total(items[i].sku, items[i + 1].sku);
            }
        }
    }
    lemma_sku_counted_once(items, sku);
}

proof fn lemma_first_repeat_at(items: Seq<ItemView>) -> (k: int)
    requires
        first_repeat(items) is Some,
    ensures
        0 <= k < items.len() - 1,
        items[k].sku == first_repeat(items)->0,
        items[k + 1].sku == first_repeat(items)->0,
        forall|j: int| 0 <= j < k ==> (#[trigger] items[j]).sku != items[j + 1].sku,
    decreases items.len(),
{
    if items[0].sku == items[1].sku {
        0
    } else {
        let rest = items.drop_first();
        let k = lemma_first_repeat_at(rest);
        assert(rest[k] == items[k + 1]);
        assert(rest[k + 1] == items[k + 2]);
        assert forall|j: int| 0 <= j < k + 1 implies (#[trigger] items[j]).sku != items[j
            + 1].sku by {
            if j > 0 {
                assert(rest[j - 1] == items[j]);
                assert(rest[j] == items[j + 1]);
            }
        }
        k + 1
    }
}

/// Every status has a name of its own.
pub proof fn statuses_have_names(status: OrderStatus)
    ensures
        status is Pending ==> status.name() == "PENDING"@,
        status is InventoryReserved ==> status.name() == "INVENTORY_RESERVED"@,
        status is PaymentAuthorized ==> status.name() == "PAYMENT_AUTHORIZED"@,
        status is ReadyForFulfilment ==> status.name() == "READY_FOR_FULFILMENT"@,
        status is Completed ==> status.name() == "COMPLETED"@,
        status is Cancelling ==> status.name() == "CANCELLING"@,
        status is Cancelled ==> status.name() == "CANCELLED"@,
        status is ManualReview ==> status.name() == "MANUAL_REVIEW"@,
{
}

/// The words for a refusal tell which line is at fault and how.
pub proof fn refusals_tell_why(e: ValidationErrorView)
    ensures
        e is ItemCountOutOfRange ==> e.words() == "items must contain between 1 and 100 entries"@,
        e matches ValidationErrorView::DuplicateSku(sku) ==> e.words()
            == "duplicate sku in items: "@ + sku,
        e matches ValidationErrorView::QuantityOutOfRange { sku, quantity } ==> e.words()
            == "quantity for sku "@ + sku + " must be between 1 and 10000, got "@ + signed_decimal(
            quantity as int,
        ),
        e matches ValidationErrorView::NegativeUnitPrice(sku) ==> e.words()
            == "unit_price_minor for sku "@ + sku + " must be non-negative"@,
        e matches ValidationErrorView::InvalidCurrency(code) ==> e.words()
            == "currency must be an uppercase 3-letter ISO-4217-shaped code, got "@ + debug_text(
            code,
        ),
        e is AmountOverflow ==> e.words() == "computed order amount overflowed i64"@,
{
}

}
