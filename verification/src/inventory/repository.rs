//! Stock and reservations: stock is set aside for an order as a whole or not
//! at all, once per order, and given back at most once.

use vstd::prelude::*;

use crate::domain_common::is_version_7;
use crate::ids::fresh_id;
use crate::inventory::domain::{
    lines_valid, LineView, ReservationLine, ReservationStatus,
};
use crate::model::{copy_opt_text, opt_view, views};
use crate::text::text_eq;
use crate::time::Timestamp;

verus! {

/// The stock of a SKU.
#[derive(Debug)]
pub struct StockRow {
    pub sku: String,
    pub available_qty: i64,
    pub reserved_qty: i64,
    pub fulfilled_qty: i64,
    pub version: i64,
    pub created_at: Timestamp,
    pub updated_at: Timestamp,
}

impl Clone for StockRow {
    fn clone(&self) -> (r: StockRow)
        ensures
            r == *self,
    {
        StockRow {
            sku: self.sku.clone(),
            available_qty: self.available_qty,
            reserved_qty: self.reserved_qty,
            fulfilled_qty: self.fulfilled_qty,
            version: self.version,
            created_at: self.created_at,
            updated_at: self.updated_at,
        }
    }
}

/// What a [`StockRow`] says.
pub struct StockView {
    pub sku: Seq<char>,
    pub available_qty: i64,
    pub reserved_qty: i64,
    pub fulfilled_qty: i64,
    pub version: i64,
    pub created_at: Timestamp,
    pub updated_at: Timestamp,
}

impl View for StockRow {
    type V = StockView;

    open spec fn view(&self) -> StockView {
        StockView {
            sku: self.sku@,
            available_qty: self.available_qty,
            reserved_qty: self.reserved_qty,
            fulfilled_qty: self.fulfilled_qty,
            version: self.version,
            created_at: self.created_at,
            updated_at: self.updated_at,
        }
    }
}

/// A reservation.
#[derive(Debug)]
pub struct ReservationRow {
    pub id: u128,
    pub order_id: u128,
    pub status: ReservationStatus,
    pub reason_code: Option<String>,
    pub version: i64,
    pub created_at: Timestamp,
    pub updated_at: Timestamp,
}

impl Clone for ReservationRow {
    fn clone(&self) -> (r: ReservationRow)
        ensures
            r == *self,
    {
        ReservationRow {
            id: self.id,
            order_id: self.order_id,
            status: self.status,
            reason_code: copy_opt_text(&self.reason_code),
            version: self.version,
            created_at: self.created_at,
            updated_at: self.updated_at,
        }
    }
}

/// What a [`ReservationRow`] says.
pub struct ReservationView {
    pub id: u128,
    pub order_id: u128,
    pub status: ReservationStatus,
    pub reason_code: Option<Seq<char>>,
    pub version: i64,
    pub created_at: Timestamp,
    pub updated_at: Timestamp,
}

impl View for ReservationRow {
    type V = ReservationView;

    open spec fn view(&self) -> ReservationView {
        ReservationView {
            id: self.id,
            order_id: self.order_id,
            status: self.status,
            reason_code: opt_view(self.reason_code),
            version: self.version,
            created_at: self.created_at,
            updated_at: self.updated_at,
        }
    }
}

/// Nothing is owed, and the whole of a SKU can be counted.
pub open spec fn stock_valid(stock: Seq<StockView>) -> bool {
    &&& forall|i: int|
        0 <= i < stock.len() ==> {
            let row = #[trigger] stock[i];
            &&& row.available_qty >= 0
            &&& row.reserved_qty >= 0
            &&& row.available_qty + row.reserved_qty <= i64::MAX
            &&& row.version < i64::MAX
        }
    &&& forall|i: int, j: int|
        0 <= i < j < stock.len() ==> (#[trigger] stock[i]).sku != (#[trigger] stock[j]).sku
}

/// Sets the stock of a SKU: of a known one only what is available, of a new
/// one everything.
pub fn seed_stock(existing: Option<StockRow>, sku: &str, available_qty: i64, now: Timestamp) -> (r:
    StockRow)
    ensures
        match existing {
            Some(row) => r@ == (StockView { available_qty, updated_at: now, ..row@ }),
            None => r@ == (StockView {
                sku: sku@,
                available_qty,
                reserved_qty: 0,
                fulfilled_qty: 0,
                version: 1,
                created_at: now,
                updated_at: now,
            }),
        },
{
    match existing {
        Some(row) => {
            let mut row = row;
            row.available_qty = available_qty;
            row.updated_at = now;
            row
        },
        None => StockRow {
            sku: sku.to_owned(),
            available_qty,
            reserved_qty: 0,
            fulfilled_qty: 0,
            version: 1,
            created_at: now,
            updated_at: now,
        },
    }
}

/// How much of a SKU the lines ask for.
pub open spec fn quantity_of(lines: Seq<LineView>, sku: Seq<char>) -> Option<i64>
    decreases lines.len(),
{
    if lines.len() == 0 {
        None
    } else if lines.first().sku == sku {
        Some(lines.first().quantity)
    } else {
        quantity_of(lines.drop_first(), sku)
    }
}

/// The stock of a SKU.
pub open spec fn row_of(stock: Seq<StockView>, sku: Seq<char>) -> Option<StockView>
    decreases stock.len(),
{
    if stock.len() == 0 {
        None
    } else if stock.first().sku == sku {
        Some(stock.first())
    } else {
        row_of(stock.drop_first(), sku)
    }
}

/// Why the first line that cannot be met cannot be met.
pub open spec fn shortage(stock: Seq<StockView>, lines: Seq<LineView>) -> Option<Seq<char>>
    decreases lines.len(),
{
    if lines.len() == 0 {
        None
    } else {
        let line = lines.first();
        match row_of(stock, line.sku) {
            None => Some("SKU_NOT_FOUND"@),
            Some(row) => if row.available_qty < line.quantity {
                Some("INSUFFICIENT_STOCK"@)
            } else {
                shortage(stock, lines.drop_first())
            },
        }
    }
}

/// A row after `quantity` of it was set aside.
pub open spec fn row_reserved(row: StockView, quantity: i64, now: Timestamp) -> StockView {
    StockView {
        available_qty: (row.available_qty - quantity) as i64,
        reserved_qty: (row.reserved_qty + quantity) as i64,
        version: (row.version + 1) as i64,
        updated_at: now,
        ..row
    }
}

/// A row after `quantity` of it was given back.
pub open spec fn row_released(row: StockView, quantity: i64, now: Timestamp) -> StockView {
    StockView {
        available_qty: (row.available_qty + quantity) as i64,
        reserved_qty: (row.reserved_qty - quantity) as i64,
        version: (row.version + 1) as i64,
        updated_at: now,
        ..row
    }
}

/// The stock after the lines were set aside.
pub open spec fn stock_reserved(stock: Seq<StockView>, lines: Seq<LineView>, now: Timestamp) -> Seq<
    StockView,
> {
    Seq::new(
        stock.len(),
        |i: int|
            match quantity_of(lines, stock[i].sku) {
                Some(quantity) => row_reserved(stock[i], quantity, now),
                None => stock[i],
            },
    )
}

/// The stock after the lines were given back.
pub open spec fn stock_released(stock: Seq<StockView>, lines: Seq<LineView>, now: Timestamp) -> Seq<
    StockView,
> {
    Seq::new(
        stock.len(),
        |i: int|
            match quantity_of(lines, stock[i].sku) {
                Some(quantity) => row_released(stock[i], quantity, now),
                None => stock[i],
            },
    )
}

/// What a reservation comes to.
#[derive(Debug)]
pub struct ReserveOutcome {
    pub reservation_id: u128,
    pub status: ReservationStatus,
    pub reason_code: Option<String>,
    /// Whether this request decided, rather than repeat a decision.
    pub created: bool,
}

/// What a [`ReserveOutcome`] says.
pub struct ReserveView {
    pub reservation_id: u128,
    pub status: ReservationStatus,
    pub reason_code: Option<Seq<char>>,
    pub created: bool,
}

impl View for ReserveOutcome {
    type V = ReserveView;

    open spec fn view(&self) -> ReserveView {
        ReserveView {
            reservation_id: self.reservation_id,
            status: self.status,
            reason_code: opt_view(self.reason_code),
            created: self.created,
        }
    }
}

/// What a reservation comes to, and the reservation and the stock after it.
pub struct ReserveResult {
    pub outcome: ReserveView,
    pub reservation: Option<ReservationView>,
    pub stock: Seq<StockView>,
}

/// A reservation that is decided now.
pub open spec fn new_reservation(
    id: u128,
    order_id: u128,
    status: ReservationStatus,
    reason_code: Option<Seq<char>>,
    now: Timestamp,
) -> ReservationView {
    ReservationView {
        id,
        order_id,
        status,
        reason_code,
        version: 1,
        created_at: now,
        updated_at: now,
    }
}

/// Setting stock aside for an order: a decided reservation is repeated; if
/// any line cannot be met the reservation is rejected and the stock stays;
/// otherwise every line is set aside.
pub open spec fn reservation(
    existing: Option<ReservationView>,
    order_id: u128,
    lines: Seq<LineView>,
    stock: Seq<StockView>,
    id: u128,
    now: Timestamp,
) -> ReserveResult {
    match existing {
        Some(decided) => ReserveResult {
            outcome: ReserveView {
                reservation_id: decided.id,
                status: decided.status,
                reason_code: decided.reason_code,
                created: false,
            },
            reservation: None,
            stock,
        },
        None => match shortage(stock, lines) {
            Some(reason) => ReserveResult {
                outcome: ReserveView {
                    reservation_id: id,
                    status: ReservationStatus::Rejected,
                    reason_code: Some(reason),
                    created: true,
                },
                reservation: Some(
                    new_reservation(id, order_id, ReservationStatus::Rejected, Some(reason), now),
                ),
                stock,
            },
            None => ReserveResult {
                outcome: ReserveView {
                    reservation_id: id,
                    status: ReservationStatus::Active,
                    reason_code: None,
                    created: true,
                },
                reservation: Some(
                    new_reservation(id, order_id, ReservationStatus::Active, None, now),
                ),
                stock: stock_reserved(stock, lines, now),
            },
        },
    }
}

/// How much of a SKU the lines ask for.
fn find_quantity(lines: &Vec<ReservationLine>, sku: &str) -> (r: Option<i64>)
    ensures
        r == quantity_of(views(lines@), sku@),
{
    let ghost all = views(lines@);
    let mut i: usize = 0;
    assert(all.subrange(0, all.len() as int) =~= all);
    while i < lines.len()
        invariant
            i <= lines.len(),
            all == views(lines@),
            all.len() == lines.len(),
            quantity_of(all, sku@) == quantity_of(all.subrange(i as int, all.len() as int), sku@),
        decreases lines.len() - i,
    {
        let ghost rest = all.subrange(i as int, all.len() as int);
        assert(rest.first() == all[i as int]);
        if text_eq(lines[i].sku.as_str(), sku) {
            return Some(lines[i].quantity);
        }
        assert(rest.drop_first() =~= all.subrange(i + 1, all.len() as int));
        i = i + 1;
    }
    None
}

/// How much of a SKU is available.
fn find_available(stock: &Vec<StockRow>, sku: &str) -> (r: Option<i64>)
    ensures
        match (r, row_of(views(stock@), sku@)) {
            (Some(available), Some(row)) => available == row.available_qty,
            (None, None) => true,
            _ => false,
        },
{
    let ghost all = views(stock@);
    let mut i: usize = 0;
    assert(all.subrange(0, all.len() as int) =~= all);
    while i < stock.len()
        invariant
            i <= stock.len(),
            all == views(stock@),
            all.len() == stock.len(),
            row_of(all, sku@) == row_of(all.subrange(i as int, all.len() as int), sku@),
        decreases stock.len() - i,
    {
        let ghost rest = all.subrange(i as int, all.len() as int);
        assert(rest.first() == all[i as int]);
        if text_eq(stock[i].sku.as_str(), sku) {
            return Some(stock[i].available_qty);
        }
        assert(rest.drop_first() =~= all.subrange(i + 1, all.len() as int));
        i = i + 1;
    }
    None
}

/// Why the first line that cannot be met cannot be met.
fn find_shortage(stock: &Vec<StockRow>, lines: &Vec<ReservationLine>) -> (r: Option<&'static str>)
    ensures
        match (r, shortage(views(stock@), views(lines@))) {
            (Some(reason), Some(owed)) => reason@ == owed,
            (None, None) => true,
            _ => false,
        },
{
    let ghost all = views(lines@);
    let ghost rows = views(stock@);
    let mut i: usize = 0;
    assert(all.subrange(0, all.len() as int) =~= all);
    while i < lines.len()
        invariant
            i <= lines.len(),
            all == views(lines@),
            all.len() == lines.len(),
            rows == views(stock@),
            shortage(rows, all) == shortage(rows, all.subrange(i as int, all.len() as int)),
        decreases lines.len() - i,
    {
        let ghost rest = all.subrange(i as int, all.len() as int);
        assert(rest.first() == all[i as int]);
        match find_available(stock, lines[i].sku.as_str()) {
            None => {
                return Some("SKU_NOT_FOUND");
            },
            Some(available) => {
                if available < lines[i].quantity {
                    return Some("INSUFFICIENT_STOCK");
                }
            },
        }
        assert(rest.drop_first() =~= all.subrange(i + 1, all.len() as int));
        i = i + 1;
    }
    None
}

proof fn lemma_quantity_is_listed(lines: Seq<LineView>, sku: Seq<char>)
    requires
        quantity_of(lines, sku) is Some,
    ensures
        exists|i: int|
            0 <= i < lines.len() && (#[trigger] lines[i]).sku == sku && lines[i].quantity
                == quantity_of(lines, sku)->0,
    decreases lines.len(),
{
    if lines.first().sku == sku {
        assert(lines[0].sku == sku);
    } else {
        let rest = lines.drop_first();
        lemma_quantity_is_listed(rest, sku);
        let i = choose|i: int|
            0 <= i < rest.len() && (#[trigger] rest[i]).sku == sku && rest[i].quantity
                == quantity_of(rest, sku)->0;
        assert(lines[i + 1] == rest[i]);
    }
}

proof fn lemma_row_of(stock: Seq<StockView>, i: int)
    requires
        stock_valid(stock),
        0 <= i < stock.len(),
    ensures
        row_of(stock, stock[i].sku) == Some(stock[i]),
    decreases stock.len(),
{
    if i > 0 {
        let rest = stock.drop_first();
        assert forall|a: int, b: int| 0 <= a < b < rest.len() implies (#[trigger] rest[a]).sku != (
        #[trigger] rest[b]).sku by {
            assert(rest[a] == stock[a + 1] && rest[b] == stock[b + 1]);
        }
        assert forall|a: int| 0 <= a < rest.len() implies {
            let row = #[trigger] rest[a];
            &&& row.available_qty >= 0
            &&& row.reserved_qty >= 0
            &&& row.available_qty + row.reserved_qty <= i64::MAX
            &&& row.version < i64::MAX
        } by {
            assert(rest[a] == stock[a + 1]);
        }
        lemma_row_of(rest, i - 1);
        assert(rest[i - 1] == stock[i]);
        assert(stock[0].sku != stock[i].sku);
    }
}

proof fn lemma_no_shortage(stock: Seq<StockView>, lines: Seq<LineView>, k: int)
    requires
        shortage(stock, lines) is None,
        0 <= k < lines.len(),
    ensures
        row_of(stock, lines[k].sku) is Some,
        row_of(stock, lines[k].sku)->0.available_qty >= lines[k].quantity,
    decreases lines.len(),
{
    if k > 0 {
        lemma_no_shortage(stock, lines.drop_first(), k - 1);
        assert(lines.drop_first()[k - 1] == lines[k]);
    }
}

/// Every row has as much available as the lines ask of it.
proof fn lemma_rows_suffice(stock: Seq<StockView>, lines: Seq<LineView>, i: int)
    requires
        stock_valid(stock),
        lines_valid(lines),
        shortage(stock, lines) is None,
        0 <= i < stock.len(),
        quantity_of(lines, stock[i].sku) is Some,
    ensures
        0 < quantity_of(lines, stock[i].sku)->0 <= stock[i].available_qty,
{
    let sku = stock[i].sku;
    lemma_quantity_is_listed(lines, sku);
    let k = choose|k: int|
        0 <= k < lines.len() && (#[trigger] lines[k]).sku == sku && lines[k].quantity
            == quantity_of(lines, sku)->0;
    lemma_no_shortage(stock, lines, k);
    lemma_row_of(stock, i);
    assert(lines[k].quantity > 0);
}

impl StockRow {
    /// Sets `quantity` aside.
    fn set_aside(&mut self, quantity: i64, now: Timestamp)
        requires
            0 < quantity <= old(self).available_qty,
            old(self).reserved_qty + quantity <= i64::MAX,
            old(self).version < i64::MAX,
        ensures
            final(self)@ == row_reserved(old(self)@, quantity, now),
    {
        self.available_qty = self.available_qty - quantity;
        self.reserved_qty = self.reserved_qty + quantity;
        self.version = self.version + 1;
        self.updated_at = now;
    }

    /// Gives `quantity` back.
    fn give_back(&mut self, quantity: i64, now: Timestamp)
        requires
            0 < quantity <= old(self).reserved_qty,
            old(self).available_qty + quantity <= i64::MAX,
            old(self).version < i64::MAX,
        ensures
            final(self)@ == row_released(old(self)@, quantity, now),
    {
        self.available_qty = self.available_qty + quantity;
        self.reserved_qty = self.reserved_qty - quantity;
        self.version = self.version + 1;
        self.updated_at = now;
    }
}

/// Decides the reservation of an order under the given identifier. `stock`
/// holds the rows of the SKUs that the lines name; the second result is the
/// reservation to store, where it is new.
pub fn decide_reservation(
    existing: Option<&ReservationRow>,
    order_id: u128,
    lines: &Vec<ReservationLine>,
    stock: &mut Vec<StockRow>,
    id: u128,
    now: Timestamp,
) -> (r: (ReserveOutcome, Option<ReservationRow>))
    requires
        stock_valid(views(old(stock)@)),
        lines_valid(views(lines@)),
    ensures
        ({
            let owed = reservation(
                opt_view(existing),
                order_id,
                views(lines@),
                views(old(stock)@),
                id,
                now,
            );
            &&& r.0@ == owed.outcome
            &&& opt_view(r.1) == owed.reservation
            &&& views(final(stock)@) == owed.stock
        }),
{
    match existing {
        Some(decided) => {
            return (
                ReserveOutcome {
                    reservation_id: decided.id,
                    status: decided.status,
                    reason_code: copy_opt_text(&decided.reason_code),
                    created: false,
                },
                None,
            );
        },
        None => {},
    }
    match find_shortage(stock, lines) {
        Some(reason) => {
            return (
                ReserveOutcome {
                    reservation_id: id,
                    status: ReservationStatus::Rejected,
                    reason_code: Some(reason.to_owned()),
                    created: true,
                },
                Some(
                    ReservationRow {
                        id,
                        order_id,
                        status: ReservationStatus::Rejected,
                        reason_code: Some(reason.to_owned()),
                        version: 1,
                        created_at: now,
                        updated_at: now,
                    },
                ),
            );
        },
        None => {},
    }
    let ghost before = views(stock@);
    let ghost asked = views(lines@);
    let mut i: usize = 0;
    while i < stock.len()
        invariant
            i <= stock.len(),
            stock@.len() == before.len(),
            asked == views(lines@),
            stock_valid(before),
            lines_valid(asked),
            shortage(before, asked) is None,
            forall|k: int|
                0 <= k < i ==> (#[trigger] stock@[k])@ == stock_reserved(before, asked, now)[k],
            forall|k: int| i <= k < stock@.len() ==> (#[trigger] stock@[k])@ == before[k],
        decreases stock.len() - i,
    {
        assert(stock@[i as int]@ == before[i as int]);
        match find_quantity(lines, stock[i].sku.as_str()) {
            Some(quantity) => {
                proof {
                    lemma_rows_suffice(before, asked, i as int);
                    assert(before[i as int].available_qty >= 0);
                }
                let ghost held = stock@;
                stock[i].set_aside(quantity, now);
                assert(forall|k: int| 0 <= k < held.len() && k != i ==> stock@[k] == held[k]);
            },
            None => {},
        }
        i = i + 1;
    }
    assert(views(stock@) =~= stock_reserved(before, asked, now));
    (
        ReserveOutcome {
            reservation_id: id,
            status: ReservationStatus::Active,
            reason_code: None,
            created: true,
        },
        Some(
            ReservationRow {
                id,
                order_id,
                status: ReservationStatus::Active,
                reason_code: None,
                version: 1,
                created_at: now,
                updated_at: now,
            },
        ),
    )
}

/// Decides the reservation of an order under a fresh identifier.
pub fn reserve(
    existing: Option<&ReservationRow>,
    order_id: u128,
    lines: &Vec<ReservationLine>,
    stock: &mut Vec<StockRow>,
    now: Timestamp,
) -> (r: (ReserveOutcome, Option<ReservationRow>))
    requires
        stock_valid(views(old(stock)@)),
        lines_valid(views(lines@)),
    ensures
        ({
            let owed = reservation(
                opt_view(existing),
                order_id,
                views(lines@),
                views(old(stock)@),
                r.0.reservation_id,
                now,
            );
            &&& r.0@ == owed.outcome
            &&& opt_view(r.1) == owed.reservation
            &&& views(final(stock)@) == owed.stock
            &&& r.0.created ==> is_version_7(r.0.reservation_id)
        }),
{
    decide_reservation(existing, order_id, lines, stock, fresh_id(), now)
}

/// What a release comes to.
#[derive(Debug, Clone, Copy, PartialEq, Eq, Structural)]
pub struct ReleaseOutcome {
    pub reservation_id: u128,
    /// Whether this request gave the stock back, rather than find it given
    /// back or never taken.
    pub created: bool,
}

/// Why a release fails.
#[derive(Debug, Clone, Copy, PartialEq, Eq, Structural)]
pub enum ReleaseError {
    NotFound(u128),
}

impl ReleaseError {
    /// The error in words.
    pub open spec fn words(self) -> Seq<char> {
        "no reservation found for order "@ + crate::text::uuid_text(self->NotFound_0)
    }

    /// The error in words.
    pub fn message(&self) -> (r: String)
        ensures
            r@ == self.words(),
    {
        match self {
            ReleaseError::NotFound(order_id) => crate::text::join(
                "no reservation found for order ",
                crate::ids::id_text(*order_id).as_str(),
            ),
        }
    }
}

/// The reservation after its stock was given back.
pub open spec fn reservation_released(row: ReservationView, now: Timestamp) -> ReservationView {
    ReservationView {
        status: ReservationStatus::Released,
        version: (row.version + 1) as i64,
        updated_at: now,
        ..row
    }
}

/// The stock holds what the lines took from it.
pub open spec fn stock_holds(stock: Seq<StockView>, lines: Seq<LineView>) -> bool {
    forall|i: int|
        0 <= i < stock.len() ==> (quantity_of(lines, (#[trigger] stock[i]).sku) is Some ==> 0
            < quantity_of(lines, stock[i].sku)->0 <= stock[i].reserved_qty)
}

/// Gives the stock of an order's reservation back. Only an active reservation
/// has stock to give back; any other stays as it is. The second result is
/// the reservation to store, where it changed.
pub fn release(
    reservation: Option<ReservationRow>,
    items: &Vec<ReservationLine>,
    stock: &mut Vec<StockRow>,
    order_id: u128,
    now: Timestamp,
) -> (r: Result<(ReleaseOutcome, Option<ReservationRow>), ReleaseError>)
    requires
        stock_valid(views(old(stock)@)),
        reservation matches Some(row) ==> row.status is Active ==> row.version < i64::MAX
            && stock_holds(views(old(stock)@), views(items@)),
    ensures
        match reservation {
            None => r == Err::<(ReleaseOutcome, Option<ReservationRow>), ReleaseError>(
                ReleaseError::NotFound(order_id),
            ) && final(stock)@ == old(stock)@,
            Some(row) => if row.status is Active {
                &&& r matches Ok((outcome, changed)) && outcome == (ReleaseOutcome {
                    reservation_id: row.id,
                    created: true,
                }) && opt_view(changed) == Some(reservation_released(row@, now))
                &&& views(final(stock)@) == stock_released(views(old(stock)@), views(items@), now)
            } else {
                &&& r matches Ok((outcome, changed)) && outcome == (ReleaseOutcome {
                    reservation_id: row.id,
                    created: false,
                }) && changed is None
                &&& final(stock)@ == old(stock)@
            },
        },
{
    let mut row: ReservationRow = match reservation {
        Some(row) => row,
        None => {
            return Err(ReleaseError::NotFound(order_id));
        },
    };
    if row.status != ReservationStatus::Active {
        return Ok((ReleaseOutcome { reservation_id: row.id, created: false }, None));
    }
    let ghost before = views(stock@);
    let ghost taken = views(items@);
    let mut i: usize = 0;
    while i < stock.len()
        invariant
            i <= stock.len(),
            stock@.len() == before.len(),
            taken == views(items@),
            stock_valid(before),
            stock_holds(before, taken),
            forall|k: int|
                0 <= k < i ==> (#[trigger] stock@[k])@ == stock_released(before, taken, now)[k],
            forall|k: int| i <= k < stock@.len() ==> (#[trigger] stock@[k])@ == before[k],
        decreases stock.len() - i,
    {
        assert(stock@[i as int]@ == before[i as int]);
        match find_quantity(items, stock[i].sku.as_str()) {
            Some(quantity) => {
                assert(0 < quantity <= before[i as int].reserved_qty);
                let ghost held = stock@;
                stock[i].give_back(quantity, now);
                assert(forall|k: int| 0 <= k < held.len() && k != i ==> stock@[k] == held[k]);
            },
            None => {},
        }
        i = i + 1;
    }
    assert(views(stock@) =~= stock_released(before, taken, now));
    row.status = ReservationStatus::Released;
    row.version = row.version + 1;
    row.updated_at = now;
    Ok((ReleaseOutcome { reservation_id: row.id, created: true }, Some(row)))
}

/// The stock of each SKU, available and reserved together, is the same after
/// a reservation as before; nothing is ever owed; and a reservation that is
/// not granted takes nothing.
pub proof fn reservations_conserve_stock(
    existing: Option<ReservationView>,
    order_id: u128,
    lines: Seq<LineView>,
    stock: Seq<StockView>,
    id: u128,
    now: Timestamp,
)
    requires
        stock_valid(stock),
        lines_valid(lines),
    ensures
        ({
            let result = reservation(existing, order_id, lines, stock, id, now);
            &&& result.stock.len() == stock.len()
            &&& forall|i: int|
                0 <= i < stock.len() ==> {
                    let row = #[trigger] result.stock[i];
                    &&& row.sku == stock[i].sku
                    &&& row.available_qty >= 0
                    &&& row.reserved_qty >= stock[i].reserved_qty
                    &&& row.available_qty + row.reserved_qty == stock[i].available_qty
                        + stock[i].reserved_qty
                }
            &&& !(result.outcome.created && result.outcome.status is Active) ==> result.stock
                == stock
        }),
{
    let result = reservation(existing, order_id, lines, stock, id, now);
    assert forall|i: int| 0 <= i < stock.len() implies {
        let row = #[trigger] result.stock[i];
        &&& row.sku == stock[i].sku
        &&& row.available_qty >= 0
        &&& row.reserved_qty >= stock[i].reserved_qty
        &&& row.available_qty + row.reserved_qty == stock[i].available_qty + stock[i].reserved_qty
    } by {
        assert(stock[i].available_qty >= 0);
        if existing is None && shortage(stock, lines) is None && quantity_of(
            lines,
            stock[i].sku,
        ) is Some {
            lemma_rows_suffice(stock, lines, i);
        }
    }
}

/// A granted reservation takes exactly what each line asks for, from every
/// SKU that the lines name and from no other.
pub proof fn granted_reservations_take_every_line(
    order_id: u128,
    lines: Seq<LineView>,
    stock: Seq<StockView>,
    id: u128,
    now: Timestamp,
    k: int,
)
    requires
        stock_valid(stock),
        lines_valid(lines),
        reservation(None, order_id, lines, stock, id, now).outcome.status is Active,
        0 <= k < lines.len(),
    ensures
        row_of(stock, lines[k].sku) is Some,
        row_of(reservation(None, order_id, lines, stock, id, now).stock, lines[k].sku) == Some(
            row_reserved(row_of(stock, lines[k].sku)->0, lines[k].quantity, now),
        ),
{
    lemma_no_shortage(stock, lines, k);
    lemma_quantity_of(lines, k);
    lemma_row_after(stock, lines, now, lines[k].sku);
}

proof fn lemma_quantity_of(lines: Seq<LineView>, k: int)
    requires
        lines_valid(lines),
        0 <= k < lines.len(),
    ensures
        quantity_of(lines, lines[k].sku) == Some(lines[k].quantity),
    decreases lines.len(),
{
    if k > 0 {
        let rest = lines.drop_first();
        assert forall|i: int| 0 <= i < rest.len() implies (#[trigger] rest[i]).quantity > 0 by {
            assert(rest[i] == lines[i + 1]);
        }
        assert forall|i: int, j: int| 0 <= i < j < rest.len() implies (#[trigger] rest[i]).sku != (
        #[trigger] rest[j]).sku by {
            assert(rest[i] == lines[i + 1] && rest[j] == lines[j + 1]);
        }
        lemma_quantity_of(rest, k - 1);
        assert(rest[k - 1] == lines[k]);
        assert(lines[0].sku != lines[k].sku);
    }
}

proof fn lemma_row_after(stock: Seq<StockView>, lines: Seq<LineView>, now: Timestamp, sku: Seq<char>)
    requires
        row_of(stock, sku) is Some,
        quantity_of(lines, sku) is Some,
    ensures
        row_of(stock_reserved(stock, lines, now), sku) == Some(
            row_reserved(row_of(stock, sku)->0, quantity_of(lines, sku)->0, now),
        ),
    decreases stock.len(),
{
    let after = stock_reserved(stock, lines, now);
    assert(after.first() == after[0]);
    if stock.first().sku != sku {
        lemma_row_after(stock.drop_first(), lines, now, sku);
        assert(after.drop_first() =~= stock_reserved(stock.drop_first(), lines, now));
    }
}

/// Giving a granted reservation back restores what is available and what is
/// reserved of every SKU.
pub proof fn release_undoes_reservation(
    order_id: u128,
    lines: Seq<LineView>,
    stock: Seq<StockView>,
    id: u128,
    now: Timestamp,
    later: Timestamp,
)
    requires
        stock_valid(stock),
        lines_valid(lines),
        reservation(None, order_id, lines, stock, id, now).outcome.status is Active,
    ensures
        ({
            let taken = reservation(None, order_id, lines, stock, id, now).stock;
            let restored = stock_released(taken, lines, later);
            &&& stock_holds(taken, lines)
            &&& restored.len() == stock.len()
            &&& forall|i: int|
                0 <= i < stock.len() ==> {
                    let row = #[trigger] restored[i];
                    &&& row.sku == stock[i].sku
                    &&& row.available_qty == stock[i].available_qty
                    &&& row.reserved_qty == stock[i].reserved_qty
                    &&& row.fulfilled_qty == stock[i].fulfilled_qty
                }
        }),
{
    let taken = reservation(None, order_id, lines, stock, id, now).stock;
    let restored = stock_released(taken, lines, later);
    assert forall|i: int|
        0 <= i < taken.len() && quantity_of(lines, (#[trigger] taken[i]).sku) is Some implies 0
        < quantity_of(lines, taken[i].sku)->0 <= taken[i].reserved_qty by {
        assert(taken[i].sku == stock[i].sku);
        lemma_rows_suffice(stock, lines, i);
        assert(stock[i].reserved_qty >= 0);
    }
    assert forall|i: int| 0 <= i < stock.len() implies {
        let row = #[trigger] restored[i];
        &&& row.sku == stock[i].sku
        &&& row.available_qty == stock[i].available_qty
        &&& row.reserved_qty == stock[i].reserved_qty
        &&& row.fulfilled_qty == stock[i].fulfilled_qty
    } by {
        assert(taken[i].sku == stock[i].sku);
        if quantity_of(lines, stock[i].sku) is Some {
            lemma_rows_suffice(stock, lines, i);
        }
    }
}

/// Whether the stock is in order.
pub fn stock_in_order(stock: &Vec<StockRow>) -> (r: bool)
    ensures
        r == stock_valid(views(stock@)),
{
    let ghost rows = views(stock@);
    let mut i: usize = 0;
    while i < stock.len()
        invariant
            i <= stock.len(),
            rows == views(stock@),
            rows.len() == stock.len(),
            forall|k: int|
                0 <= k < i ==> {
                    let row = #[trigger] rows[k];
                    &&& row.available_qty >= 0
                    &&& row.reserved_qty >= 0
                    &&& row.available_qty + row.reserved_qty <= i64::MAX
                    &&& row.version < i64::MAX
                },
            forall|a: int, b: int|
                0 <= a < b < i ==> (#[trigger] rows[a]).sku != (#[trigger] rows[b]).sku,
        decreases stock.len() - i,
    {
        let row = &stock[i];
        assert(rows[i as int] == row@);
        if row.available_qty < 0 || row.reserved_qty < 0 || row.available_qty as i128
            + row.reserved_qty as i128 > i64::MAX as i128 || row.version == i64::MAX {
            return false;
        }
        let mut j: usize = 0;
        while j < i
            invariant
                j <= i < stock.len(),
                rows == views(stock@),
                rows.len() == stock.len(),
                forall|a: int| 0 <= a < j ==> (#[trigger] rows[a]).sku != rows[i as int].sku,
            decreases i - j,
        {
            if text_eq(stock[j].sku.as_str(), stock[i].sku.as_str()) {
                assert(rows[j as int].sku == rows[i as int].sku);
                return false;
            }
            assert(rows[j as int].sku != rows[i as int].sku);
            j = j + 1;
        }
        i = i + 1;
    }
    true
}

/// Whether the stock holds what the lines took from it.
pub fn stock_holds_lines(stock: &Vec<StockRow>, lines: &Vec<ReservationLine>) -> (r: bool)
    ensures
        r == stock_holds(views(stock@), views(lines@)),
{
    let ghost rows = views(stock@);
    let ghost taken = views(lines@);
    let mut i: usize = 0;
    while i < stock.len()
        invariant
            i <= stock.len(),
            rows == views(stock@),
            rows.len() == stock.len(),
            taken == views(lines@),
            forall|k: int|
                0 <= k < i ==> (quantity_of(taken, (#[trigger] rows[k]).sku) is Some ==> 0
                    < quantity_of(taken, rows[k].sku)->0 <= rows[k].reserved_qty),
        decreases stock.len() - i,
    {
        assert(rows[i as int] == stock@[i as int]@);
        match find_quantity(lines, stock[i].sku.as_str()) {
            Some(quantity) => {
                if quantity <= 0 || quantity > stock[i].reserved_qty {
                    return false;
                }
            },
            None => {},
        }
        i = i + 1;
    }
    true
}

/// The stock stays in order: after a reservation, and after a release of what
/// it holds.
pub proof fn stock_stays_valid(
    existing: Option<ReservationView>,
    order_id: u128,
    lines: Seq<LineView>,
    stock: Seq<StockView>,
    id: u128,
    now: Timestamp,
)
    requires
        stock_valid(stock),
        forall|i: int| 0 <= i < stock.len() ==> (#[trigger] stock[i]).version < i64::MAX - 1,
    ensures
        lines_valid(lines) ==> stock_valid(
            reservation(existing, order_id, lines, stock, id, now).stock,
        ),
        stock_holds(stock, lines) ==> stock_valid(stock_released(stock, lines, now)),
{
    if lines_valid(lines) {
        reservations_conserve_stock(existing, order_id, lines, stock, id, now);
        let after = reservation(existing, order_id, lines, stock, id, now).stock;
        assert forall|i: int| 0 <= i < after.len() implies {
            let row = #[trigger] after[i];
            &&& row.available_qty >= 0
            &&& row.reserved_qty >= 0
            &&& row.available_qty + row.reserved_qty <= i64::MAX
            &&& row.version < i64::MAX
        } by {
            assert(stock[i].reserved_qty >= 0);
            assert(stock[i].version < i64::MAX - 1);
        }
        assert forall|i: int, j: int| 0 <= i < j < after.len() implies (#[trigger] after[i]).sku != (
        #[trigger] after[j]).sku by {
            assert(stock[i].sku != stock[j].sku);
        }
    }
    if stock_holds(stock, lines) {
        let after = stock_released(stock, lines, now);
        assert forall|i: int| 0 <= i < after.len() implies {
            let row = #[trigger] after[i];
            &&& row.available_qty >= 0
            &&& row.reserved_qty >= 0
            &&& row.available_qty + row.reserved_qty <= i64::MAX
            &&& row.version < i64::MAX
        } by {
            assert(stock[i].available_qty >= 0);
            assert(stock[i].version < i64::MAX - 1);
        }
        assert forall|i: int, j: int| 0 <= i < j < after.len() implies (#[trigger] after[i]).sku != (
        #[trigger] after[j]).sku by {
            assert(stock[i].sku != stock[j].sku);
        }
    }
}

/// The stock has a row of the line's SKU with as much available as the line
/// asks for.
pub open spec fn meets(stock: Seq<StockView>, line: LineView) -> bool {
    exists|i: int|
        0 <= i < stock.len() && (#[trigger] stock[i]).sku == line.sku && line.quantity
            <= stock[i].available_qty
}

/// The stock has a row of the SKU.
pub open spec fn stocks(stock: Seq<StockView>, sku: Seq<char>) -> bool {
    exists|i: int| 0 <= i < stock.len() && (#[trigger] stock[i]).sku == sku
}

/// Some line asks for the SKU.
pub open spec fn asks_for(lines: Seq<LineView>, sku: Seq<char>) -> bool {
    exists|k: int| 0 <= k < lines.len() && (#[trigger] lines[k]).sku == sku
}

/// An order without a reservation is granted one exactly when every line can
/// be met: its SKU is in stock, with no less available than the line asks
/// for. Otherwise the first line that cannot be met gives the reason: its SKU
/// is not in stock, or there is too little of it. Either way the decision is
/// recorded for the order.
pub proof fn reservations_are_granted_exactly_when_every_line_is_met(
    order_id: u128,
    lines: Seq<LineView>,
    stock: Seq<StockView>,
    id: u128,
    now: Timestamp,
)
    requires
        forall|i: int, j: int|
            0 <= i < j < stock.len() ==> (#[trigger] stock[i]).sku != (#[trigger] stock[j]).sku,
    ensures
        ({
            let decided = reservation(None, order_id, lines, stock, id, now);
            let outcome = decided.outcome;
            let row = decided.reservation->0;
            &&& outcome.status is Active <==> forall|k: int|
                0 <= k < lines.len() ==> meets(stock, #[trigger] lines[k])
            &&& outcome.status is Active || outcome.status is Rejected
            &&& outcome.status is Active ==> outcome.reason_code is None
            &&& outcome.status is Rejected ==> exists|k: int|
                #![trigger lines[k]]
                {
                    &&& 0 <= k < lines.len()
                    &&& forall|j: int| 0 <= j < k ==> meets(stock, #[trigger] lines[j])
                    &&& !meets(stock, lines[k])
                    &&& outcome.reason_code == Some(
                        if stocks(stock, lines[k].sku) {
                            "INSUFFICIENT_STOCK"@
                        } else {
                            "SKU_NOT_FOUND"@
                        },
                    )
                }
            &&& outcome.created
            &&& outcome.reservation_id == id
            &&& decided.reservation is Some
            &&& row.id == id
            &&& row.order_id == order_id
            &&& row.status == outcome.status
            &&& row.reason_code == outcome.reason_code
            &&& row.version == 1
            &&& row.created_at == now
            &&& row.updated_at == now
        }),
{
    if shortage(stock, lines) is Some {
        let k = lemma_shortage_place(stock, lines);
        assert(!meets(stock, lines[k]));
    } else {
        assert forall|k: int| 0 <= k < lines.len() implies meets(stock, #[trigger] lines[k]) by {
            lemma_no_shortage(stock, lines, k);
            lemma_row_is_there(stock, lines[k].sku);
        }
    }
}

/// A decision that was taken stands: the order gets it again, nothing is
/// recorded and no stock moves.
pub proof fn decided_reservations_stand(
    row: ReservationView,
    order_id: u128,
    lines: Seq<LineView>,
    stock: Seq<StockView>,
    id: u128,
    now: Timestamp,
)
    ensures
        ({
            let decided = reservation(Some(row), order_id, lines, stock, id, now);
            &&& decided.outcome.reservation_id == row.id
            &&& decided.outcome.status == row.status
            &&& decided.outcome.reason_code == row.reason_code
            &&& !decided.outcome.created
            &&& decided.reservation is None
            &&& decided.stock == stock
        }),
{
}

/// A granted reservation moves the quantity of each line, in the row of its
/// SKU, from what is available to what is reserved; rows that no line names
/// stay as they are.
pub proof fn granted_quantities_are_set_aside(
    order_id: u128,
    lines: Seq<LineView>,
    stock: Seq<StockView>,
    id: u128,
    now: Timestamp,
)
    requires
        forall|k: int| 0 <= k < lines.len() ==> (#[trigger] lines[k]).quantity > 0,
        forall|i: int, j: int|
            0 <= i < j < lines.len() ==> (#[trigger] lines[i]).sku != (#[trigger] lines[j]).sku,
        forall|i: int, j: int|
            0 <= i < j < stock.len() ==> (#[trigger] stock[i]).sku != (#[trigger] stock[j]).sku,
        forall|i: int|
            0 <= i < stock.len() ==> (#[trigger] stock[i]).available_qty >= 0
                && stock[i].reserved_qty >= 0 && stock[i].available_qty + stock[i].reserved_qty
                <= i64::MAX && stock[i].version < i64::MAX,
        forall|k: int| 0 <= k < lines.len() ==> meets(stock, #[trigger] lines[k]),
    ensures
        ({
            let after = reservation(None, order_id, lines, stock, id, now).stock;
            &&& after.len() == stock.len()
            &&& forall|i: int, k: int|
                0 <= i < stock.len() && 0 <= k < lines.len() && (#[trigger] stock[i]).sku == (
                #[trigger] lines[k]).sku ==> moved(
                    stock[i],
                    after[i],
                    -lines[k].quantity,
                    now,
                )
            &&& forall|i: int|
                0 <= i < stock.len() && !asks_for(lines, (#[trigger] stock[i]).sku) ==> after[i]
                    == stock[i]
        }),
{
    assert(lines_valid(lines));
    assert(stock_valid(stock));
    reservations_are_granted_exactly_when_every_line_is_met(order_id, lines, stock, id, now);
    let after = reservation(None, order_id, lines, stock, id, now).stock;
    assert forall|i: int, k: int|
        0 <= i < stock.len() && 0 <= k < lines.len() && (#[trigger] stock[i]).sku == (
        #[trigger] lines[k]).sku implies moved(stock[i], after[i], -lines[k].quantity, now) by {
        lemma_quantity_of(lines, k);
        lemma_rows_suffice(stock, lines, i);
    }
    assert forall|i: int|
        0 <= i < stock.len() && !asks_for(lines, (#[trigger] stock[i]).sku) implies after[i]
        == stock[i] by {
        if quantity_of(lines, stock[i].sku) is Some {
            lemma_quantity_is_listed(lines, stock[i].sku);
        }
    }
}

/// The row after `quantity` became available out of what was reserved, or,
/// where it is negative, was reserved out of what was available; nothing else
/// of the row changes but its version and its last change.
pub open spec fn moved(before: StockView, after: StockView, quantity: int, now: Timestamp) -> bool {
    &&& after.sku == before.sku
    &&& after.available_qty == before.available_qty + quantity
    &&& after.reserved_qty == before.reserved_qty - quantity
    &&& after.fulfilled_qty == before.fulfilled_qty
    &&& after.version == before.version + 1
    &&& after.created_at == before.created_at
    &&& after.updated_at == now
}

/// A release moves the quantity of each line, in the row of its SKU, from
/// what is reserved to what is available; rows that no line names stay as
/// they are. The reservation is released, one version later, and otherwise as
/// it was.
pub proof fn released_quantities_become_available(
    row: ReservationView,
    lines: Seq<LineView>,
    stock: Seq<StockView>,
    now: Timestamp,
)
    requires
        row.version < i64::MAX,
        forall|i: int, j: int|
            0 <= i < j < lines.len() ==> (#[trigger] lines[i]).sku != (#[trigger] lines[j]).sku,
        forall|i: int|
            0 <= i < stock.len() ==> (#[trigger] stock[i]).available_qty >= 0
                && stock[i].available_qty + stock[i].reserved_qty <= i64::MAX && stock[i].version
                < i64::MAX,
        forall|i: int, k: int|
            0 <= i < stock.len() && 0 <= k < lines.len() && (#[trigger] stock[i]).sku == (
            #[trigger] lines[k]).sku ==> 0 < lines[k].quantity <= stock[i].reserved_qty,
    ensures
        ({
            let after = stock_released(stock, lines, now);
            let released = reservation_released(row, now);
            &&& after.len() == stock.len()
            &&& forall|i: int, k: int|
                0 <= i < stock.len() && 0 <= k < lines.len() && (#[trigger] stock[i]).sku == (
                #[trigger] lines[k]).sku ==> moved(
                    stock[i],
                    after[i],
                    lines[k].quantity as int,
                    now,
                )
            &&& forall|i: int|
                0 <= i < stock.len() && !asks_for(lines, (#[trigger] stock[i]).sku) ==> after[i]
                    == stock[i]
            &&& released.status is Released
            &&& released.version == row.version + 1
            &&& released.updated_at == now
            &&& released.id == row.id
            &&& released.order_id == row.order_id
            &&& released.reason_code == row.reason_code
            &&& released.created_at == row.created_at
        }),
{
    let after = stock_released(stock, lines, now);
    assert forall|i: int, k: int|
        0 <= i < stock.len() && 0 <= k < lines.len() && (#[trigger] stock[i]).sku == (
        #[trigger] lines[k]).sku implies moved(
        stock[i],
        after[i],
        lines[k].quantity as int,
        now,
    ) by {
        lemma_listed_quantity(lines, k);
    }
    assert forall|i: int|
        0 <= i < stock.len() && !asks_for(lines, (#[trigger] stock[i]).sku) implies after[i]
        == stock[i] by {
        if quantity_of(lines, stock[i].sku) is Some {
            lemma_quantity_is_listed(lines, stock[i].sku);
        }
    }
}

proof fn lemma_listed_quantity(lines: Seq<LineView>, k: int)
    requires
        forall|i: int, j: int|
            0 <= i < j < lines.len() ==> (#[trigger] lines[i]).sku != (#[trigger] lines[j]).sku,
        0 <= k < lines.len(),
    ensures
        quantity_of(lines, lines[k].sku) == Some(lines[k].quantity),
    decreases lines.len(),
{
    if k > 0 {
        let rest = lines.drop_first();
        assert forall|i: int, j: int| 0 <= i < j < rest.len() implies (#[trigger] rest[i]).sku != (
        #[trigger] rest[j]).sku by {
            assert(rest[i] == lines[i + 1] && rest[j] == lines[j + 1]);
        }
        lemma_listed_quantity(rest, k - 1);
        assert(rest[k - 1] == lines[k]);
        assert(lines[0].sku != lines[k].sku);
    }
}

proof fn lemma_row_is_there(stock: Seq<StockView>, sku: Seq<char>)
    ensures
        row_of(stock, sku) is Some <==> stocks(stock, sku),
        row_of(stock, sku) is Some ==> exists|i: int|
            0 <= i < stock.len() && #[trigger] stock[i] == row_of(stock, sku)->0 && stock[i].sku
                == sku,
    decreases stock.len(),
{
    if stock.len() > 0 {
        let rest = stock.drop_first();
        lemma_row_is_there(rest, sku);
        if stock.first().sku == sku {
            assert(stock[0].sku == sku);
        } else {
            if row_of(rest, sku) is Some {
                let i = choose|i: int|
                    0 <= i < rest.len() && #[trigger] rest[i] == row_of(rest, sku)->0 && rest[i].sku
                        == sku;
                assert(stock[i + 1] == rest[i]);
            }
            if stocks(stock, sku) {
                let i = choose|i: int| 0 <= i < stock.len() && (#[trigger] stock[i]).sku == sku;
                assert(rest[i - 1] == stock[i]);
            }
        }
    }
}

proof fn lemma_shortage_place(stock: Seq<StockView>, lines: Seq<LineView>) -> (k: int)
    requires
        shortage(stock, lines) is Some,
        forall|i: int, j: int|
            0 <= i < j < stock.len() ==> (#[trigger] stock[i]).sku != (#[trigger] stock[j]).sku,
    ensures
        0 <= k < lines.len(),
        forall|j: int| 0 <= j < k ==> meets(stock, #[trigger] lines[j]),
        !meets(stock, lines[k]),
        shortage(stock, lines) == Some(
            if stocks(stock, lines[k].sku) {
                "INSUFFICIENT_STOCK"@
            } else {
                "SKU_NOT_FOUND"@
            },
        ),
    decreases lines.len(),
{
    let line = lines[0];
    lemma_row_is_there(stock, line.sku);
    if row_of(stock, line.sku) is Some && row_of(stock, line.sku)->0.available_qty
        >= line.quantity {
        let rest = lines.drop_first();
        let k = lemma_shortage_place(stock, rest);
        assert forall|j: int| 0 <= j < k + 1 implies meets(stock, #[trigger] lines[j]) by {
            if j > 0 {
                assert(rest[j - 1] == lines[j]);
            }
        }
        assert(rest[k] == lines[k + 1]);
        k + 1
    } else {
        if meets(stock, line) {
            let i = choose|i: int|
                0 <= i < stock.len() && (#[trigger] stock[i]).sku == line.sku && line.quantity
                    <= stock[i].available_qty;
            let j = choose|j: int|
                0 <= j < stock.len() && #[trigger] stock[j] == row_of(stock, line.sku)->0
                    && stock[j].sku == line.sku;
            assert(i == j);
        }
        0
    }
}

/// The stock holds what the lines took exactly where every row of a SKU that
/// a line names has the quantity of that line reserved.
pub proof fn stock_holds_by_lines(stock: Seq<StockView>, lines: Seq<LineView>)
    requires
        forall|i: int, j: int|
            0 <= i < j < lines.len() ==> (#[trigger] lines[i]).sku != (#[trigger] lines[j]).sku,
    ensures
        stock_holds(stock, lines) <==> forall|i: int, k: int|
            0 <= i < stock.len() && 0 <= k < lines.len() && (#[trigger] stock[i]).sku == (
            #[trigger] lines[k]).sku ==> 0 < lines[k].quantity <= stock[i].reserved_qty,
{
    assert forall|k: int| 0 <= k < lines.len() implies quantity_of(
        lines,
        (#[trigger] lines[k]).sku,
    ) == Some(lines[k].quantity) by {
        lemma_listed_quantity(lines, k);
    }
    if forall|i: int, k: int|
        0 <= i < stock.len() && 0 <= k < lines.len() && (#[trigger] stock[i]).sku == (
        #[trigger] lines[k]).sku ==> 0 < lines[k].quantity <= stock[i].reserved_qty {
        assert forall|i: int|
            0 <= i < stock.len() && quantity_of(lines, (#[trigger] stock[i]).sku) is Some implies 0
            < quantity_of(lines, stock[i].sku)->0 <= stock[i].reserved_qty by {
            lemma_quantity_is_listed(lines, stock[i].sku);
        }
    }
}

}
