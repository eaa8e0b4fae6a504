//! Records as they come from the broker, the order in which a fetched window
//! is handled, and the offset up to which it is done.

use vstd::prelude::*;

use crate::model::opt_view;
use crate::text::join;

verus! {

/// Why the broker could not be used.
#[derive(Debug)]
pub enum MessagingError {
    NotImplemented(String),
    Client(String),
}

impl MessagingError {
    /// The error in words.
    pub open spec fn words(self) -> Seq<char> {
        match self {
            MessagingError::NotImplemented(what) => "not yet implemented: "@ + what@,
            MessagingError::Client(detail) => "kafka client error: "@ + detail@,
        }
    }

    /// The error in words.
    pub fn message(&self) -> (r: String)
        ensures
            r@ == self.words(),
    {
        match self {
            MessagingError::NotImplemented(what) => join("not yet implemented: ", what.as_str()),
            MessagingError::Client(detail) => join("kafka client error: ", detail.as_str()),
        }
    }
}

/// A record of a topic.
#[derive(Debug)]
pub struct ConsumedRecord {
    pub offset: i64,
    pub key: Option<Vec<u8>>,
    pub value: Option<Vec<u8>>,
    pub headers: Vec<(String, Vec<u8>)>,
}

/// What a [`ConsumedRecord`] says, its headers left aside.
pub struct RecordView {
    pub offset: i64,
    pub key: Option<Seq<u8>>,
    pub value: Option<Seq<u8>>,
}

impl View for ConsumedRecord {
    type V = RecordView;

    open spec fn view(&self) -> RecordView {
        RecordView { offset: self.offset, key: opt_view(self.key), value: opt_view(self.value) }
    }
}

/// A producer that accepts every message and sends none.
#[derive(Debug, Clone, Copy, Default)]
pub struct NoopProducer;

impl NoopProducer {
    /// Accepts a message.
    pub fn publish(
        &self,
        topic: &str,
        key: &str,
        payload: Vec<u8>,
        headers: Vec<(String, Vec<u8>)>,
    ) -> (r: Result<(), MessagingError>)
        ensures
            r is Ok,
    {
        Ok(())
    }
}

/// A consumer that never sees a record.
#[derive(Debug, Clone, Copy, Default)]
pub struct NoopConsumer;

impl NoopConsumer {
    /// Fetches nothing.
    pub fn fetch(&self, topic: &str, offset: i64, max_wait_ms: i32) -> (r: Result<
        Vec<ConsumedRecord>,
        MessagingError,
    >)
        ensures
            r is Ok,
            r->Ok_0@.len() == 0,
    {
        Ok(Vec::new())
    }
}

/// Which aggregate a record speaks of, and the version it brings.
#[derive(Debug, Clone, Copy, PartialEq, Eq, Structural)]
pub struct Position {
    pub aggregate_id: u128,
    pub aggregate_version: i64,
}

/// Record `a` has to be handled before record `b`: they speak of the same
/// aggregate, and `a` brings the lower version.
pub open spec fn precedes(a: Option<Position>, b: Option<Position>) -> bool {
    &&& a is Some
    &&& b is Some
    &&& a->0.aggregate_id == b->0.aggregate_id
    &&& a->0.aggregate_version < b->0.aggregate_version
}

/// Every index of the window stands once in `order`.
pub open spec fn is_arrangement(order: Seq<usize>, len: nat) -> bool {
    &&& order.len() == len
    &&& order.no_duplicates()
    &&& forall|i: int| 0 <= i < order.len() ==> 0 <= #[trigger] order[i] < len
}

/// No record stands behind one that it precedes.
pub open spec fn respects_versions(order: Seq<usize>, positions: Seq<Option<Position>>) -> bool {
    forall|i: int, j: int|
        0 <= i < j < order.len() ==> !precedes(
            positions[#[trigger] order[j] as int],
            positions[#[trigger] order[i] as int],
        )
}

/// A record stands in front of an earlier one only where one of those it
/// overtook, at or before that place, brings a higher version of its own
/// aggregate.
pub open spec fn keeps_arrival(order: Seq<usize>, positions: Seq<Option<Position>>) -> bool {
    forall|i: int, j: int|
        0 <= i < j < order.len() && #[trigger] order[i] > #[trigger] order[j] ==> exists|k: int|
            i < k <= j && precedes(positions[order[i] as int], #[trigger] positions[order[k] as int])
}

/// Whether record `a` has to be handled before record `b`.
fn comes_first(a: Option<Position>, b: Option<Position>) -> (r: bool)
    ensures
        r == precedes(a, b),
{
    match (a, b) {
        (Some(x), Some(y)) => x.aggregate_id == y.aggregate_id && x.aggregate_version
            < y.aggregate_version,
        _ => false,
    }
}

/// The order in which a fetched window is handled: a record moves in front of
/// the first earlier record of its own aggregate that brings a higher
/// version, and everything else stays as it arrived. The result holds
/// indices into the window.
pub fn order_by_aggregate_version(positions: &Vec<Option<Position>>) -> (r: Vec<usize>)
    ensures
        is_arrangement(r@, positions@.len()),
        respects_versions(r@, positions@),
        keeps_arrival(r@, positions@),
{
    let mut order: Vec<usize> = Vec::new();
    let mut i: usize = 0;
    while i < positions.len()
        invariant
            i <= positions.len(),
            is_arrangement(order@, i as nat),
            respects_versions(order@, positions@),
            keeps_arrival(order@, positions@),
        decreases positions.len() - i,
    {
        let mut at: usize = 0;
        while at < order.len() && !comes_first(positions[i], positions[order[at]])
            invariant
                i < positions.len(),
                at <= order.len(),
                is_arrangement(order@, i as nat),
                forall|k: int|
                    0 <= k < at ==> !precedes(
                        positions@[i as int],
                        positions@[#[trigger] order@[k] as int],
                    ),
            ensures
                at <= order.len(),
                is_arrangement(order@, i as nat),
                forall|k: int|
                    0 <= k < at ==> !precedes(
                        positions@[i as int],
                        positions@[#[trigger] order@[k] as int],
                    ),
                at < order.len() ==> precedes(
                    positions@[i as int],
                    positions@[order@[at as int] as int],
                ),
            decreases order.len() - at,
        {
            at = at + 1;
        }
        let ghost before = order@;
        order.insert(at, i);
        proof {
            lemma_insert_arranged(before, positions@, at as int, i);
        }
        i = i + 1;
    }
    order
}

proof fn lemma_insert_arranged(
    before: Seq<usize>,
    positions: Seq<Option<Position>>,
    at: int,
    new: usize,
)
    requires
        0 <= new < positions.len(),
        0 <= at <= before.len(),
        is_arrangement(before, new as nat),
        respects_versions(before, positions),
        keeps_arrival(before, positions),
        forall|k: int|
            0 <= k < at ==> !precedes(
                positions[new as int],
                positions[#[trigger] before[k] as int],
            ),
        at < before.len() ==> precedes(positions[new as int], positions[before[at] as int]),
    ensures
        is_arrangement(before.insert(at, new), (new + 1) as nat),
        respects_versions(before.insert(at, new), positions),
        keeps_arrival(before.insert(at, new), positions),
{
    let after = before.insert(at, new);
    assert forall|i: int| 0 <= i < after.len() implies 0 <= #[trigger] after[i] < new + 1 by {
        if i < at {
            assert(after[i] == before[i]);
        } else if i > at {
            assert(after[i] == before[i - 1]);
        }
    }
    assert forall|i: int, j: int| 0 <= i < j < after.len() implies after[i] != after[j] by {
        let x = if i < at { i } else { i - 1 };
        let y = if j < at { j } else { j - 1 };
        if i == at {
            assert(before[y] < new);
        } else if j == at {
            assert(before[x] < new);
        } else {
            assert(before[x] != before[y]);
        }
    }
    assert(after.no_duplicates());
    assert forall|i: int, j: int| 0 <= i < j < after.len() implies !precedes(
        positions[#[trigger] after[j] as int],
        positions[#[trigger] after[i] as int],
    ) by {
        let x = if i < at { i } else { i - 1 };
        let y = if j < at { j } else { j - 1 };
        if i == at {
            // Everything behind the gap that speaks of the same aggregate
            // brings a version at least as high as the record at the gap.
            assert(after[j] == before[y]);
            assert(after[i] == new);
            if precedes(positions[before[y] as int], positions[new as int]) {
                assert(precedes(positions[before[y] as int], positions[before[at] as int]));
                if y > at {
                    assert(!precedes(positions[before[y] as int], positions[before[at] as int]));
                }
            }
        } else if j == at {
            assert(after[i] == before[x]);
            assert(after[j] == new);
        } else {
            assert(after[i] == before[x]);
            assert(after[j] == before[y]);
        }
    }
    assert forall|i: int, j: int|
        0 <= i < j < after.len() && #[trigger] after[i] > #[trigger] after[j] implies exists|k: int|
        i < k <= j && precedes(positions[after[i] as int], #[trigger] positions[after[k] as int]) by {
        let x = if i < at { i } else { i - 1 };
        let y = if j < at { j } else { j - 1 };
        if i == at {
            assert(after[at + 1] == before[at]);
            assert(precedes(positions[after[i] as int], positions[after[at + 1] as int]));
        } else if j == at {
            assert(after[i] == before[x]);
            assert(before[x] < new);
        } else {
            assert(after[i] == before[x]);
            assert(after[j] == before[y]);
            let k = choose|k: int|
                x < k <= y && precedes(
                    positions[before[x] as int],
                    #[trigger] positions[before[k] as int],
                );
            let m = if k < at { k } else { k + 1 };
            assert(after[m] == before[k]);
            assert(precedes(positions[after[i] as int], positions[after[m] as int]));
        }
    }
}

/// Tracks which offsets of a window are done, and up to where every one of
/// them is.
pub struct ContiguousOffsetTracker {
    next: i64,
    pending: Vec<i64>,
    start: Ghost<int>,
    done: Ghost<Set<int>>,
}

impl ContiguousOffsetTracker {
    /// The offset that tracking began with.
    pub closed spec fn start(self) -> int {
        self.start@
    }

    /// The first offset that is not known to be done.
    pub closed spec fn next(self) -> int {
        self.next as int
    }

    /// The offsets that were reported done.
    pub closed spec fn done(self) -> Set<int> {
        self.done@
    }

    /// Everything from the start up to `next` is done, `next` is not, and
    /// what is done beyond it is remembered.
    pub closed spec fn valid(self) -> bool {
        &&& self.start() <= self.next()
        &&& forall|k: int| self.start() <= k < self.next() ==> #[trigger] self.done().contains(k)
        &&& !self.done().contains(self.next())
        &&& forall|k: int| #[trigger]
            self.done().contains(k) && k >= self.next() ==> exists|i: int|
                0 <= i < self.pending@.len() && #[trigger] self.pending@[i] == k
        &&& forall|i: int|
            0 <= i < self.pending@.len() ==> {
                &&& self.done().contains(#[trigger] self.pending@[i] as int)
                &&& self.pending@[i] < i64::MAX
            }
    }

    /// Starts with nothing done.
    pub fn new(start_offset: i64) -> (r: ContiguousOffsetTracker)
        ensures
            r.valid(),
            r.start() == start_offset,
            r.next() == start_offset,
            r.done() == Set::<int>::empty(),
    {
        ContiguousOffsetTracker {
            next: start_offset,
            pending: Vec::new(),
            start: Ghost(start_offset as int),
            done: Ghost(Set::empty()),
        }
    }

    /// The place of `offset` among the remembered ones.
    fn find(&self, offset: i64) -> (r: Option<usize>)
        ensures
            match r {
                Some(i) => i < self.pending@.len() && self.pending@[i as int] == offset,
                None => forall|i: int|
                    0 <= i < self.pending@.len() ==> #[trigger] self.pending@[i] != offset,
            },
    {
        let mut i: usize = 0;
        while i < self.pending.len()
            invariant
                i <= self.pending.len(),
                forall|j: int| 0 <= j < i ==> #[trigger] self.pending@[j] != offset,
            decreases self.pending.len() - i,
        {
            if self.pending[i] == offset {
                return Some(i);
            }
            i = i + 1;
        }
        None
    }

    /// Reports `offset` done. The result is the offset to resume from, where
    /// the run of done offsets that begins at the start has grown.
    pub fn complete(&mut self, offset: i64) -> (r: Option<i64>)
        requires
            old(self).valid(),
            offset < i64::MAX,
        ensures
            final(self).valid(),
            final(self).start() == old(self).start(),
            final(self).done() == old(self).done().insert(offset as int),
            final(self).next() >= old(self).next(),
            forall|k: int|
                old(self).start() <= k < final(self).next() ==> final(self).done().contains(k),
            !final(self).done().contains(final(self).next()),
            r == if final(self).next() > old(self).next() {
                Some(final(self).next() as i64)
            } else {
                None
            },
    {
        let before: i64 = self.next;
        self.pending.push(offset);
        let ghost grown = self.done@.insert(offset as int);
        proof {
            self.done@ = grown;
            assert forall|k: int| #[trigger]
                grown.contains(k) && k >= self.next implies exists|i: int|
                0 <= i < self.pending@.len() && #[trigger] self.pending@[i] == k by {
                if k == offset {
                    assert(self.pending@[self.pending@.len() - 1] == k);
                } else {
                    assert(old(self).done().contains(k));
                    let i = choose|i: int|
                        0 <= i < old(self).pending@.len() && #[trigger] old(self).pending@[i] == k;
                    assert(self.pending@[i] == k);
                }
            }
        }
        let mut looking: bool = true;
        while looking
            invariant
                before <= self.next,
                before == old(self).next,
                self.start@ == old(self).start@,
                self.start@ <= before,
                self.done@ == grown,
                forall|k: int| self.start@ <= k < self.next ==> #[trigger] grown.contains(k),
                forall|k: int| #[trigger]
                    grown.contains(k) && k >= self.next ==> exists|i: int|
                        0 <= i < self.pending@.len() && #[trigger] self.pending@[i] == k,
                forall|i: int|
                    0 <= i < self.pending@.len() ==> {
                        &&& grown.contains(#[trigger] self.pending@[i] as int)
                        &&& self.pending@[i] < i64::MAX
                    },
                !looking ==> !grown.contains(self.next as int),
            decreases self.pending@.len() + (if looking { 1nat } else { 0nat }),
        {
            match self.find(self.next) {
                Some(i) => {
                    let ghost held = self.pending@;
                    self.pending.swap_remove(i);
                    self.next = self.next + 1;
                    proof {
                        let left = self.pending@;
                        assert forall|k: int| #[trigger]
                            grown.contains(k) && k >= self.next implies exists|m: int|
                            0 <= m < left.len() && #[trigger] left[m] == k by {
                            let m = choose|m: int| 0 <= m < held.len() && #[trigger] held[m] == k;
                            if m == held.len() - 1 {
                                assert(left[i as int] == k);
                            } else {
                                assert(left[m] == k);
                            }
                        }
                        assert forall|m: int| 0 <= m < left.len() implies {
                            &&& grown.contains(#[trigger] left[m] as int)
                            &&& left[m] < i64::MAX
                        } by {
                            if m == i {
                                assert(left[m] == held[held.len() - 1]);
                            } else {
                                assert(left[m] == held[m]);
                            }
                        }
                    }
                },
                None => {
                    looking = false;
                },
            }
        }
        if self.next > before {
            Some(self.next)
        } else {
            None
        }
    }
}

/// A record is handled behind the one with the preceding version of its
/// aggregate, wherever the window holds that one: versions that only arrived
/// out of order within a window leave no gap.
pub proof fn preceding_versions_come_first(
    order: Seq<usize>,
    positions: Seq<Option<Position>>,
    i: int,
    j: int,
)
    requires
        is_arrangement(order, positions.len()),
        respects_versions(order, positions),
        0 <= i < order.len(),
        0 <= j < order.len(),
        positions[order[i] as int] is Some,
        positions[order[j] as int] is Some,
        positions[order[i] as int]->0.aggregate_id == positions[order[j] as int]->0.aggregate_id,
        positions[order[i] as int]->0.aggregate_version + 1
            == positions[order[j] as int]->0.aggregate_version,
    ensures
        i < j,
{
    if j < i {
        assert(!precedes(positions[order[i] as int], positions[order[j] as int]));
    }
}

/// Every record of the window is handled.
pub proof fn every_record_is_handled(order: Seq<usize>, len: nat, k: int)
    requires
        is_arrangement(order, len),
        0 <= k < len,
    ensures
        order.contains(k as usize),
{
    let indices = order.map_values(|i: usize| i as int);
    assert(indices.no_duplicates()) by {
        assert forall|a: int, b: int|
            0 <= a < indices.len() && 0 <= b < indices.len() && a != b implies indices[a]
            != indices[b] by {
            assert(order[a] != order[b]);
        }
    }
    let held = indices.to_set();
    let all = vstd::set_lib::set_int_range(0, len as int);
    indices.unique_seq_to_set();
    vstd::set_lib::lemma_int_range(0, len as int);
    assert(held.subset_of(all)) by {
        assert forall|x: int| held.contains(x) implies all.contains(x) by {
            let a = choose|a: int| 0 <= a < indices.len() && indices[a] == x;
            assert(0 <= order[a] < len);
        }
    }
    vstd::set_lib::lemma_subset_equality(held, all);
    assert(held.contains(k));
    let a = choose|a: int| 0 <= a < indices.len() && indices[a] == k;
    assert(order[a] == k as usize);
}

/// The records of one aggregate are handled in the order of their versions.
pub proof fn versions_are_handled_in_order(
    order: Seq<usize>,
    positions: Seq<Option<Position>>,
    i: int,
    j: int,
)
    requires
        is_arrangement(order, positions.len()),
        respects_versions(order, positions),
        0 <= i < j < order.len(),
    ensures
        ({
            let first = positions[order[i] as int];
            let second = positions[order[j] as int];
            first is Some && second is Some && first->0.aggregate_id == second->0.aggregate_id
                ==> first->0.aggregate_version <= second->0.aggregate_version
        }),
{
    assert(!precedes(positions[order[j] as int], positions[order[i] as int]));
}

/// A window whose aggregates already bring their versions in order is handled
/// as it arrived.
pub proof fn windows_in_order_stay_as_they_arrived(
    order: Seq<usize>,
    positions: Seq<Option<Position>>,
    at: int,
)
    requires
        is_arrangement(order, positions.len()),
        keeps_arrival(order, positions),
        forall|a: int, b: int|
            0 <= a < b < positions.len() && (#[trigger] positions[a]) is Some && (
            #[trigger] positions[b]) is Some && positions[a]->0.aggregate_id
                == positions[b]->0.aggregate_id ==> positions[a]->0.aggregate_version
                <= positions[b]->0.aggregate_version,
        0 <= at < order.len(),
    ensures
        order[at] == at,
{
    assert forall|i: int, j: int| 0 <= i < j < order.len() implies #[trigger] order[i]
        < #[trigger] order[j] by {
        lemma_no_overtaking(order, positions, i, j);
    }
    lemma_at_least(order, at);
    lemma_at_most(order, at);
}

proof fn lemma_no_overtaking(
    order: Seq<usize>,
    positions: Seq<Option<Position>>,
    i: int,
    j: int,
)
    requires
        is_arrangement(order, positions.len()),
        keeps_arrival(order, positions),
        forall|a: int, b: int|
            0 <= a < b < positions.len() && (#[trigger] positions[a]) is Some && (
            #[trigger] positions[b]) is Some && positions[a]->0.aggregate_id
                == positions[b]->0.aggregate_id ==> positions[a]->0.aggregate_version
                <= positions[b]->0.aggregate_version,
        0 <= i < j < order.len(),
    ensures
        order[i] < order[j],
    decreases j - i,
{
    assert(order[i] != order[j]);
    if order[i] > order[j] {
        let k = choose|k: int|
            i < k <= j && precedes(positions[order[i] as int], #[trigger] positions[order[k] as int]);
        assert(order[i] != order[k]);
        if order[k] < order[i] {
            assert(positions[order[k] as int] is Some);
            assert(positions[order[i] as int] is Some);
        } else {
            lemma_no_overtaking(order, positions, k, j);
        }
    }
}

proof fn lemma_at_least(order: Seq<usize>, at: int)
    requires
        forall|i: int, j: int|
            0 <= i < j < order.len() ==> #[trigger] order[i] < #[trigger] order[j],
        0 <= at < order.len(),
    ensures
        order[at] >= at,
    decreases at,
{
    if at > 0 {
        lemma_at_least(order, at - 1);
        assert(order[at - 1] < order[at]);
    }
}

proof fn lemma_at_most(order: Seq<usize>, at: int)
    requires
        forall|i: int, j: int|
            0 <= i < j < order.len() ==> #[trigger] order[i] < #[trigger] order[j],
        forall|i: int| 0 <= i < order.len() ==> 0 <= #[trigger] order[i] < order.len(),
        0 <= at < order.len(),
    ensures
        order[at] <= at,
    decreases order.len() - at,
{
    if at + 1 < order.len() {
        lemma_at_most(order, at + 1);
        assert(order[at] < order[at + 1]);
    }
}

/// The order in which a window is handled takes every record once, and never
/// a later version of an aggregate before an earlier one.
pub proof fn windows_are_handled_by_version(positions: &Vec<Option<Position>>, r: Vec<usize>)
    requires
        call_ensures(order_by_aggregate_version, (positions,), r),
    ensures
        r@.len() == positions@.len(),
        forall|k: int| 0 <= k < positions@.len() ==> r@.contains(#[trigger] (k as usize)),
        forall|i: int, j: int|
            0 <= i < j < r@.len() ==> {
                let first = positions@[#[trigger] r@[i] as int];
                let second = positions@[#[trigger] r@[j] as int];
                first is Some && second is Some && first->0.aggregate_id == second->0.aggregate_id
                    ==> first->0.aggregate_version <= second->0.aggregate_version
            },
        (forall|a: int, b: int|
            0 <= a < b < positions@.len() && (#[trigger] positions@[a]) is Some && (
            #[trigger] positions@[b]) is Some && positions@[a]->0.aggregate_id
                == positions@[b]->0.aggregate_id ==> positions@[a]->0.aggregate_version
                <= positions@[b]->0.aggregate_version) ==> forall|i: int|
            0 <= i < r@.len() ==> #[trigger] r@[i] == i,
{
    assert forall|k: int| 0 <= k < positions@.len() implies r@.contains(#[trigger] (k as usize)) by {
        every_record_is_handled(r@, positions@.len(), k);
    }
    assert forall|i: int, j: int| 0 <= i < j < r@.len() implies {
        let first = positions@[#[trigger] r@[i] as int];
        let second = positions@[#[trigger] r@[j] as int];
        first is Some && second is Some && first->0.aggregate_id == second->0.aggregate_id
            ==> first->0.aggregate_version <= second->0.aggregate_version
    } by {
        versions_are_handled_in_order(r@, positions@, i, j);
    }
    if forall|a: int, b: int|
        0 <= a < b < positions@.len() && (#[trigger] positions@[a]) is Some && (
        #[trigger] positions@[b]) is Some && positions@[a]->0.aggregate_id
            == positions@[b]->0.aggregate_id ==> positions@[a]->0.aggregate_version
            <= positions@[b]->0.aggregate_version {
        assert forall|i: int| 0 <= i < r@.len() implies #[trigger] r@[i] == i by {
            windows_in_order_stay_as_they_arrived(r@, positions@, i);
        }
    }
}

/// The offset to resume from is the first that is not done: everything before
/// it is, and it is told exactly when it has moved.
pub proof fn offsets_resume_behind_what_is_done(
    tracker: &mut ContiguousOffsetTracker,
    offset: i64,
    r: Option<i64>,
)
    requires
        call_ensures(ContiguousOffsetTracker::complete, (tracker, offset), r),
    ensures
        final(tracker).start() == old(tracker).start(),
        forall|k: int| #[trigger]
            final(tracker).done().contains(k) <==> k == offset || old(tracker).done().contains(k),
        forall|k: int|
            old(tracker).start() <= k < final(tracker).next()
                ==> #[trigger] final(tracker).done().contains(k),
        !final(tracker).done().contains(final(tracker).next()),
        r is Some <==> final(tracker).next() > old(tracker).next(),
        r is None ==> final(tracker).next() == old(tracker).next(),
{
}

}
