//! Reservation requests.

use vstd::prelude::*;
use vstd::relations::*;
use vstd::string::*;

use crate::model::views;
use crate::text::{i64_text, signed_decimal, text_before, text_eq, text_less};

verus! {

/// Where a reservation stands.
#[derive(Debug, Clone, Copy, PartialEq, Eq, Structural)]
pub enum ReservationStatus {
    Active,
    Released,
    Committed,
    Rejected,
}

impl ReservationStatus {
    /// The name of the value.
    pub open spec fn name(self) -> Seq<char> {
        match self {
            ReservationStatus::Active => "ACTIVE"@,
            ReservationStatus::Released => "RELEASED"@,
            ReservationStatus::Committed => "COMMITTED"@,
            ReservationStatus::Rejected => "REJECTED"@,
        }
    }

    /// The name of the value.
    pub fn text(self) -> (r: String)
        ensures
            r@ == self.name(),
    {
        let name = match self {
            ReservationStatus::Active => "ACTIVE",
            ReservationStatus::Released => "RELEASED",
            ReservationStatus::Committed => "COMMITTED",
            ReservationStatus::Rejected => "REJECTED",
        };
        name.to_owned()
    }

    /// The value with the given name.
    pub fn parse(text: &str) -> (r: Option<ReservationStatus>)
        ensures
            match r {
                Some(value) => text@ == value.name(),
                None => forall|value: ReservationStatus| text@ != #[trigger] value.name(),
            },
    {
        if text_eq(text, "ACTIVE") {
            Some(ReservationStatus::Active)
        } else if text_eq(text, "RELEASED") {
            Some(ReservationStatus::Released)
        } else if text_eq(text, "COMMITTED") {
            Some(ReservationStatus::Committed)
        } else if text_eq(text, "REJECTED") {
            Some(ReservationStatus::Rejected)
        } else {
            None
        }
    }
}

/// One SKU of a reservation and how much of it.
#[derive(Debug, PartialEq, Eq)]
pub struct ReservationLine {
    pub sku: String,
    pub quantity: i64,
}

impl Clone for ReservationLine {
    fn clone(&self) -> (r: ReservationLine)
        ensures
            r == *self,
    {
        ReservationLine {
            sku: self.sku.clone(),
            quantity: self.quantity,
        }
    }
}

/// What a [`ReservationLine`] says.
pub struct LineView {
    pub sku: Seq<char>,
    pub quantity: i64,
}

impl View for ReservationLine {
    type V = LineView;

    open spec fn view(&self) -> LineView {
        LineView { sku: self.sku@, quantity: self.quantity }
    }
}

/// Why a reservation request is refused.
#[derive(Debug, PartialEq, Eq)]
pub enum ReservationRequestError {
    Empty,
    NonPositiveQuantity { sku: String, quantity: i64 },
    DuplicateSku(String),
}

/// What a [`ReservationRequestError`] says.
pub enum RequestErrorView {
    Empty,
    NonPositiveQuantity { sku: Seq<char>, quantity: i64 },
    DuplicateSku(Seq<char>),
}

impl View for ReservationRequestError {
    type V = RequestErrorView;

    open spec fn view(&self) -> RequestErrorView {
        match *self {
            ReservationRequestError::Empty => RequestErrorView::Empty,
            ReservationRequestError::NonPositiveQuantity { sku, quantity } => (
            RequestErrorView::NonPositiveQuantity { sku: sku@, quantity }),
            ReservationRequestError::DuplicateSku(sku) => RequestErrorView::DuplicateSku(sku@),
        }
    }
}

impl RequestErrorView {
    /// The error in words.
    pub open spec fn words(self) -> Seq<char> {
        match self {
            RequestErrorView::Empty => "reservation request has no items"@,
            RequestErrorView::NonPositiveQuantity { sku, quantity } => "quantity for sku "@ + sku
                + " must be positive, got "@ + signed_decimal(quantity as int),
            RequestErrorView::DuplicateSku(sku) => "duplicate sku "@ + sku
                + " in one reservation request"@,
        }
    }
}

impl ReservationRequestError {
    /// The error in words.
    pub fn message(&self) -> (r: String)
        ensures
            r@ == self@.words(),
    {
        match self {
            ReservationRequestError::Empty => "reservation request has no items".to_owned(),
            ReservationRequestError::NonPositiveQuantity { sku, quantity } => {
                let mut out: String = "quantity for sku ".to_owned();
                out.append(sku.as_str());
                out.append(" must be positive, got ");
                out.append(i64_text(*quantity).as_str());
                out
            },
            ReservationRequestError::DuplicateSku(sku) => {
                let mut out: String = "duplicate sku ".to_owned();
                out.append(sku.as_str());
                out.append(" in one reservation request");
                out
            },
        }
    }
}

/// What raw pairs of SKU and quantity say.
pub open spec fn raw_lines(raw: Seq<(String, i64)>) -> Seq<LineView> {
    Seq::new(raw.len(), |i: int| LineView { sku: raw[i].0@, quantity: raw[i].1 })
}

/// Some line names the SKU.
pub open spec fn lists(lines: Seq<LineView>, sku: Seq<char>) -> bool {
    exists|i: int| 0 <= i < lines.len() && (#[trigger] lines[i]).sku == sku
}

/// The first refusal among the lines, taken one after the other: a quantity
/// below one, or a SKU that an earlier line names.
pub open spec fn first_refusal(lines: Seq<LineView>) -> Option<RequestErrorView>
    decreases lines.len(),
{
    if lines.len() == 0 {
        None
    } else {
        let line = lines.last();
        match first_refusal(lines.drop_last()) {
            Some(e) => Some(e),
            None => if line.quantity <= 0 {
                Some(
                    (RequestErrorView::NonPositiveQuantity {
                        sku: line.sku,
                        quantity: line.quantity,
                    }),
                )
            } else if lists(lines.drop_last(), line.sku) {
                Some(RequestErrorView::DuplicateSku(line.sku))
            } else {
                None
            },
        }
    }
}

/// What becomes of a reservation request.
pub open spec fn request_verdict(lines: Seq<LineView>) -> Result<Seq<LineView>, RequestErrorView> {
    if lines.len() == 0 {
        Err(RequestErrorView::Empty)
    } else {
        match first_refusal(lines) {
            Some(e) => Err(e),
            None => Ok(lines),
        }
    }
}

/// Every quantity is positive and no SKU is named twice.
pub open spec fn lines_valid(lines: Seq<LineView>) -> bool {
    &&& forall|i: int| 0 <= i < lines.len() ==> (#[trigger] lines[i]).quantity > 0
    &&& forall|i: int, j: int|
        0 <= i < j < lines.len() ==> (#[trigger] lines[i]).sku != (#[trigger] lines[j]).sku
}

/// A reservation request is accepted exactly when it has lines, each with a
/// positive quantity and a SKU of its own.
pub proof fn accepted_requests_are_valid(lines: Seq<LineView>)
    ensures
        request_verdict(lines) is Ok <==> lines.len() > 0 && lines_valid(lines),
{
    lemma_first_refusal(lines);
}

proof fn lemma_first_refusal(lines: Seq<LineView>)
    ensures
        first_refusal(lines) is None <==> lines_valid(lines),
    decreases lines.len(),
{
    if lines.len() > 0 {
        let front = lines.drop_last();
        let last = lines.last();
        lemma_first_refusal(front);
        if lines_valid(lines) {
            assert forall|i: int| 0 <= i < front.len() implies (#[trigger] front[i]).quantity > 0 by {
                assert(front[i] == lines[i]);
            }
            assert forall|i: int, j: int| 0 <= i < j < front.len() implies (
            #[trigger] front[i]).sku != (#[trigger] front[j]).sku by {
                assert(front[i] == lines[i] && front[j] == lines[j]);
            }
            assert(lines[lines.len() - 1].quantity > 0);
            if lists(front, last.sku) {
                let i = choose|i: int| 0 <= i < front.len() && (#[trigger] front[i]).sku == last.sku;
                assert(lines[i].sku != lines[lines.len() - 1].sku);
            }
        } else if first_refusal(lines) is None {
            assert forall|i: int| 0 <= i < lines.len() implies (#[trigger] lines[i]).quantity > 0 by {
                if i < front.len() {
                    assert(front[i] == lines[i]);
                }
            }
            assert forall|i: int, j: int| 0 <= i < j < lines.len() implies (
            #[trigger] lines[i]).sku != (#[trigger] lines[j]).sku by {
                assert(front[i] == lines[i]);
                if j < front.len() {
                    assert(front[j] == lines[j]);
                }
            }
        }
    }
}

/// A reservation request is accepted as it is exactly when it has a line,
/// every quantity is positive and no two lines share a SKU. A refusal names
/// its cause: no lines at all, or the first line that is at fault, by its
/// quantity or, where that is positive, by the SKU that an earlier line has.
pub proof fn refused_requests_name_their_cause(lines: Seq<LineView>)
    ensures
        ({
            let verdict = request_verdict(lines);
            let refusal = verdict->Err_0;
            &&& verdict is Ok <==> {
                &&& lines.len() > 0
                &&& forall|i: int| 0 <= i < lines.len() ==> (#[trigger] lines[i]).quantity > 0
                &&& forall|i: int, j: int|
                    0 <= i < j < lines.len() ==> (#[trigger] lines[i]).sku != (
                    #[trigger] lines[j]).sku
            }
            &&& verdict is Ok ==> verdict->Ok_0 == lines
            &&& lines.len() == 0 ==> verdict is Err && refusal is Empty
            &&& lines.len() > 0 && verdict is Err ==> exists|k: int|
                #![trigger lines[k]]
                {
                    &&& 0 <= k < lines.len()
                    &&& forall|i: int| 0 <= i < k ==> (#[trigger] lines[i]).quantity > 0
                    &&& forall|i: int, j: int|
                        0 <= i < j < k ==> (#[trigger] lines[i]).sku != (#[trigger] lines[j]).sku
                    &&& lines[k].quantity <= 0 ==> refusal == (
                    RequestErrorView::NonPositiveQuantity {
                        sku: lines[k].sku,
                        quantity: lines[k].quantity,
                    })
                    &&& lines[k].quantity > 0 ==> refusal == RequestErrorView::DuplicateSku(
                        lines[k].sku,
                    ) && exists|j: int| 0 <= j < k && (#[trigger] lines[j]).sku == lines[k].sku
                }
        }),
{
    lemma_first_refusal(lines);
    if lines.len() > 0 && request_verdict(lines) is Err {
        lemma_refused_place(lines);
    }
}

proof fn lemma_refused_place(lines: Seq<LineView>) -> (k: int)
    requires
        first_refusal(lines) is Some,
    ensures
        0 <= k < lines.len(),
        forall|i: int| 0 <= i < k ==> (#[trigger] lines[i]).quantity > 0,
        forall|i: int, j: int|
            0 <= i < j < k ==> (#[trigger] lines[i]).sku != (#[trigger] lines[j]).sku,
        lines[k].quantity <= 0 ==> first_refusal(lines)->0 == (
        RequestErrorView::NonPositiveQuantity { sku: lines[k].sku, quantity: lines[k].quantity }),
        lines[k].quantity > 0 ==> first_refusal(lines)->0 == RequestErrorView::DuplicateSku(
            lines[k].sku,
        ) && exists|j: int| 0 <= j < k && (#[trigger] lines[j]).sku == lines[k].sku,
    decreases lines.len(),
{
    let front = lines.drop_last();
    let n = lines.len() - 1;
    if first_refusal(front) is Some {
        let k = lemma_refused_place(front);
        assert forall|i: int| 0 <= i < k implies (#[trigger] lines[i]).quantity > 0 by {
            assert(front[i] == lines[i]);
        }
        assert forall|i: int, j: int| 0 <= i < j < k implies (#[trigger] lines[i]).sku != (
        #[trigger] lines[j]).sku by {
            assert(front[i] == lines[i] && front[j] == lines[j]);
        }
        assert(front[k] == lines[k]);
        if lines[k].quantity > 0 {
            let j = choose|j: int| 0 <= j < k && (#[trigger] front[j]).sku == front[k].sku;
            assert(lines[j].sku == lines[k].sku);
        }
        k
    } else {
        lemma_first_refusal(front);
        assert forall|i: int| 0 <= i < n implies (#[trigger] lines[i]).quantity > 0 by {
            assert(front[i] == lines[i]);
        }
        assert forall|i: int, j: int| 0 <= i < j < n implies (#[trigger] lines[i]).sku != (
        #[trigger] lines[j]).sku by {
            assert(front[i] == lines[i] && front[j] == lines[j]);
        }
        if lines[n].quantity > 0 {
            let j = choose|j: int| 0 <= j < front.len() && (#[trigger] front[j]).sku == lines[n].sku;
            assert(lines[j].sku == lines[n].sku);
        }
        n
    }
}

proof fn lemma_refusal_stays(lines: Seq<LineView>, n: int)
    requires
        0 <= n <= lines.len(),
        first_refusal(lines.subrange(0, n)) is Some,
    ensures
        first_refusal(lines) == first_refusal(lines.subrange(0, n)),
    decreases lines.len(),
{
    if n == lines.len() {
        assert(lines.subrange(0, n) =~= lines);
    } else {
        assert(lines.drop_last().subrange(0, n) =~= lines.subrange(0, n));
        lemma_refusal_stays(lines.drop_last(), n);
    }
}

/// Whether some line names the SKU.
fn seen(lines: &Vec<ReservationLine>, sku: &str) -> (r: bool)
    ensures
        r == lists(views(lines@), sku@),
{
    let mut i: usize = 0;
    while i < lines.len()
        invariant
            i <= lines.len(),
            forall|j: int| 0 <= j < i ==> (#[trigger] views(lines@)[j]).sku != sku@,
        decreases lines.len() - i,
    {
        if text_eq(lines[i].sku.as_str(), sku) {
            assert(views(lines@)[i as int].sku == sku@);
            return true;
        }
        i = i + 1;
    }
    false
}

/// Checks raw pairs of SKU and quantity.
pub fn validate_items(raw: &[(String, i64)]) -> (r: Result<
    Vec<ReservationLine>,
    ReservationRequestError,
>)
    ensures
        match (r, request_verdict(raw_lines(raw@))) {
            (Ok(lines), Ok(accepted)) => views(lines@) == accepted,
            (Err(e), Err(refusal)) => e@ == refusal,
            _ => false,
        },
{
    if raw.len() == 0 {
        return Err(ReservationRequestError::Empty);
    }
    let ghost all = raw_lines(raw@);
    let mut lines: Vec<ReservationLine> = Vec::new();
    let mut i: usize = 0;
    assert(views(lines@) =~= all.subrange(0, 0));
    while i < raw.len()
        invariant
            i <= raw.len(),
            all == raw_lines(raw@),
            all.len() == raw.len(),
            raw.len() > 0,
            views(lines@) == all.subrange(0, i as int),
            first_refusal(all.subrange(0, i as int)) is None,
        decreases raw.len() - i,
    {
        let entry = &raw[i];
        let quantity: i64 = entry.1;
        let ghost upto = all.subrange(0, i + 1);
        proof {
            assert(upto.drop_last() =~= all.subrange(0, i as int));
            assert(upto.last() == all[i as int]);
        }
        if quantity <= 0 {
            proof {
                lemma_refusal_stays(all, i + 1);
            }
            return Err(
                ReservationRequestError::NonPositiveQuantity { sku: entry.0.clone(), quantity },
            );
        }
        if seen(&lines, entry.0.as_str()) {
            proof {
                lemma_refusal_stays(all, i + 1);
            }
            return Err(ReservationRequestError::DuplicateSku(entry.0.clone()));
        }
        let ghost held = lines@;
        let line = ReservationLine { sku: entry.0.clone(), quantity };
        let ghost shown = line@;
        lines.push(line);
        proof {
            assert(views(lines@) =~= views(held).push(shown));
            assert(upto =~= all.subrange(0, i as int).push(shown));
        }
        i = i + 1;
    }
    assert(all.subrange(0, i as int) =~= all);
    Ok(lines)
}

/// What a list of texts says.
pub open spec fn texts(list: Seq<String>) -> Seq<Seq<char>> {
    Seq::new(list.len(), |i: int| list[i]@)
}

/// The SKUs of the lines.
pub open spec fn line_skus(lines: Seq<LineView>) -> Seq<Seq<char>> {
    Seq::new(lines.len(), |i: int| lines[i].sku)
}

/// Code-point order, equal texts included.
pub open spec fn sku_order() -> spec_fn(Seq<char>, Seq<char>) -> bool {
    |a: Seq<char>, b: Seq<char>| !text_before(b, a)
}

/// The SKUs of the lines in ascending order: every caller that locks stock
/// locks it in this order.
pub fn sorted_skus(lines: &[ReservationLine]) -> (r: Vec<String>)
    ensures
        sorted_by(texts(r@), sku_order()),
        texts(r@).to_multiset() == line_skus(views(lines@)).to_multiset(),
{
    let mut skus: Vec<String> = Vec::new();
    let ghost all = line_skus(views(lines@));
    let mut i: usize = 0;
    assert(texts(skus@) =~= all.subrange(0, 0));
    while i < lines.len()
        invariant
            i <= lines.len(),
            all == line_skus(views(lines@)),
            all.len() == lines.len(),
            sorted_by(texts(skus@), sku_order()),
            texts(skus@).to_multiset() == all.subrange(0, i as int).to_multiset(),
        decreases lines.len() - i,
    {
        let sku: String = lines[i].sku.clone();
        let ghost shown = sku@;
        let mut at: usize = skus.len();
        let ghost held = texts(skus@);
        while at > 0 && text_less(sku.as_str(), skus[at - 1].as_str())
            invariant
                at <= skus.len(),
                held == texts(skus@),
                shown == sku@,
                forall|k: int| at <= k < held.len() ==> text_before(shown, #[trigger] held[k]),
            ensures
                at <= skus.len(),
                held == texts(skus@),
                shown == sku@,
                forall|k: int| at <= k < held.len() ==> text_before(shown, #[trigger] held[k]),
                at > 0 ==> !text_before(shown, held[at - 1]),
            decreases at,
        {
            at = at - 1;
        }
        skus.insert(at, sku);
        proof {
            broadcast use vstd::seq_lib::group_to_multiset_ensures;

            assert(texts(skus@) =~= held.insert(at as int, shown));
            lemma_insert_sorted(held, shown, at as int);
            vstd::seq_lib::to_multiset_insert(held, at as int, shown);
            assert(all.subrange(0, i + 1) =~= all.subrange(0, i as int).push(all[i as int]));
            assert(shown == all[i as int]);
        }
        i = i + 1;
    }
    assert(all.subrange(0, i as int) =~= all);
    skus
}

proof fn lemma_insert_sorted(held: Seq<Seq<char>>, shown: Seq<char>, at: int)
    requires
        0 <= at <= held.len(),
        sorted_by(held, sku_order()),
        forall|k: int| at <= k < held.len() ==> text_before(shown, #[trigger] held[k]),
        at > 0 ==> !text_before(shown, held[at - 1]),
    ensures
        sorted_by(held.insert(at, shown), sku_order()),
{
    let grown = held.insert(at, shown);
    let leq = sku_order();
    assert forall|i: int, j: int| 0 <= i < j < grown.len() implies #[trigger] leq(
        grown[i],
        grown[j],
    ) by {
        let x = if i < at { i } else { i - 1 };
        let y = if j < at { j } else { j - 1 };
        if i == at {
            assert(grown[j] == held[y]);
            crate::text::lemma_text_before_asymmetric(shown, held[y]);
        } else if j == at {
            assert(grown[i] == held[x]);
            if x < at - 1 {
                assert(leq(held[x], held[at - 1]));
                crate::text::lemma_text_before_total(held[at - 1], shown);
                if text_before(shown, held[x]) {
                    if held[at - 1] == shown {
                    } else {
                        crate::text::lemma_text_before_transitive(held[at - 1], shown, held[x]);
                    }
                }
            }
        } else {
            assert(grown[i] == held[x] && grown[j] == held[y]);
            assert(leq(held[x], held[y]));
        }
    }
}

/// Every status has a name of its own.
pub proof fn reservation_statuses_have_names(status: ReservationStatus)
    ensures
        status is Active ==> status.name() == "ACTIVE"@,
        status is Released ==> status.name() == "RELEASED"@,
        status is Committed ==> status.name() == "COMMITTED"@,
        status is Rejected ==> status.name() == "REJECTED"@,
{
}

}
