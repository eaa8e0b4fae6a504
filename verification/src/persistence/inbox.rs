//! The idempotent inbox: each event is taken once per consumer, and events of
//! one aggregate are taken in the order of their versions.

use vstd::prelude::*;

use crate::model::opt_view;
use crate::text::text_eq;
use crate::time::Timestamp;

verus! {

/// An event that a consumer has taken.
#[derive(Debug)]
pub struct InboxRow {
    pub consumer_name: String,
    pub event_id: u128,
    pub source_topic: String,
    pub source_partition: i32,
    pub source_offset: i64,
    pub aggregate_id: u128,
    pub aggregate_version: i64,
    pub received_at: Timestamp,
    pub processed_at: Option<Timestamp>,
    pub payload_hash: String,
}

/// A claim on an event.
#[derive(Debug)]
pub struct NewInboxEntry {
    pub consumer_name: String,
    pub event_id: u128,
    pub source_topic: String,
    pub source_partition: i32,
    pub source_offset: i64,
    pub aggregate_id: u128,
    pub aggregate_version: i64,
    pub payload_hash: String,
}

/// What a [`NewInboxEntry`] says.
pub struct EntryView {
    pub consumer_name: Seq<char>,
    pub event_id: u128,
    pub source_topic: Seq<char>,
    pub source_partition: i32,
    pub source_offset: i64,
    pub aggregate_id: u128,
    pub aggregate_version: i64,
    pub payload_hash: Seq<char>,
}

impl View for NewInboxEntry {
    type V = EntryView;

    open spec fn view(&self) -> EntryView {
        EntryView {
            consumer_name: self.consumer_name@,
            event_id: self.event_id,
            source_topic: self.source_topic@,
            source_partition: self.source_partition,
            source_offset: self.source_offset,
            aggregate_id: self.aggregate_id,
            aggregate_version: self.aggregate_version,
            payload_hash: self.payload_hash@,
        }
    }
}

impl InboxRow {
    /// The row holds the event for the consumer.
    pub open spec fn holds(self, consumer_name: Seq<char>, event_id: u128) -> bool {
        self.consumer_name@ == consumer_name && self.event_id == event_id
    }

    /// The row is what a claim at `now` writes.
    pub open spec fn is_claim(self, entry: EntryView, now: Timestamp) -> bool {
        &&& self.consumer_name@ == entry.consumer_name
        &&& self.event_id == entry.event_id
        &&& self.source_topic@ == entry.source_topic
        &&& self.source_partition == entry.source_partition
        &&& self.source_offset == entry.source_offset
        &&& self.aggregate_id == entry.aggregate_id
        &&& self.aggregate_version == entry.aggregate_version
        &&& self.received_at == now
        &&& self.processed_at is None
        &&& self.payload_hash@ == entry.payload_hash
    }
}

/// Some row holds the event for the consumer.
pub open spec fn is_claimed(rows: Seq<InboxRow>, consumer_name: Seq<char>, event_id: u128) -> bool {
    exists|i: int| 0 <= i < rows.len() && (#[trigger] rows[i]).holds(consumer_name, event_id)
}

/// No two rows hold the same event for the same consumer.
pub open spec fn claims_differ(rows: Seq<InboxRow>) -> bool {
    forall|i: int, j: int|
        0 <= i < j < rows.len() ==> !(#[trigger] rows[i]).holds(
            (#[trigger] rows[j]).consumer_name@,
            rows[j].event_id,
        )
}

/// The place of the row that holds an event for a consumer.
pub fn fetch(rows: &Vec<InboxRow>, consumer_name: &str, event_id: u128) -> (r: Option<usize>)
    ensures
        r is Some <==> is_claimed(rows@, consumer_name@, event_id),
        r matches Some(at) ==> at < rows@.len() && rows@[at as int].holds(consumer_name@, event_id),
{
    let mut i: usize = 0;
    while i < rows.len()
        invariant
            i <= rows.len(),
            forall|x: int|
                0 <= x < i ==> !(#[trigger] rows@[x]).holds(consumer_name@, event_id),
        decreases rows.len() - i,
    {
        if rows[i].event_id == event_id && text_eq(rows[i].consumer_name.as_str(), consumer_name) {
            return Some(i);
        }
        i = i + 1;
    }
    None
}

/// Claims an event for a consumer: the first claim writes a row, and every
/// later one is refused and writes nothing.
pub fn try_claim(rows: &mut Vec<InboxRow>, now: Timestamp, entry: &NewInboxEntry) -> (r: bool)
    ensures
        r == !is_claimed(old(rows)@, entry@.consumer_name, entry@.event_id),
        is_claimed(final(rows)@, entry@.consumer_name, entry@.event_id),
        claims_differ(old(rows)@) ==> claims_differ(final(rows)@),
        if r {
            &&& final(rows)@ == old(rows)@.push(final(rows)@.last())
            &&& final(rows)@.last().is_claim(entry@, now)
        } else {
            *final(rows) == *old(rows)
        },
{
    if fetch(rows, entry.consumer_name.as_str(), entry.event_id).is_some() {
        return false;
    }
    let ghost held = rows@;
    rows.push(
        InboxRow {
            consumer_name: entry.consumer_name.clone(),
            event_id: entry.event_id,
            source_topic: entry.source_topic.clone(),
            source_partition: entry.source_partition,
            source_offset: entry.source_offset,
            aggregate_id: entry.aggregate_id,
            aggregate_version: entry.aggregate_version,
            received_at: now,
            processed_at: None,
            payload_hash: entry.payload_hash.clone(),
        },
    );
    proof {
        let n = held.len() as int;
        assert(rows@[n].holds(entry@.consumer_name, entry@.event_id));
        assert forall|i: int| 0 <= i < n implies !(#[trigger] rows@[i]).holds(
            entry@.consumer_name,
            entry@.event_id,
        ) by {
            assert(rows@[i] == held[i]);
        }
        if claims_differ(held) {
            assert forall|i: int, j: int| 0 <= i < j < rows@.len() implies !(
            #[trigger] rows@[i]).holds((#[trigger] rows@[j]).consumer_name@, rows@[j].event_id) by {
                assert(rows@[i] == held[i]);
                if j < n {
                    assert(rows@[j] == held[j]);
                    assert(!held[i].holds(held[j].consumer_name@, held[j].event_id));
                }
            }
        }
    }
    true
}

/// Marks an event processed for a consumer; every other row stays as it is.
pub fn mark_processed(
    rows: &mut Vec<InboxRow>,
    consumer_name: &str,
    event_id: u128,
    now: Timestamp,
)
    ensures
        final(rows)@.len() == old(rows)@.len(),
        forall|i: int|
            0 <= i < old(rows)@.len() ==> #[trigger] final(rows)@[i] == if old(rows)@[i].holds(
                consumer_name@,
                event_id,
            ) {
                InboxRow { processed_at: Some(now), ..old(rows)@[i] }
            } else {
                old(rows)@[i]
            },
{
    let ghost before = rows@;
    let mut i: usize = 0;
    while i < rows.len()
        invariant
            i <= rows.len(),
            rows@.len() == before.len(),
            forall|x: int|
                0 <= x < i ==> #[trigger] rows@[x] == if before[x].holds(consumer_name@, event_id) {
                    InboxRow { processed_at: Some(now), ..before[x] }
                } else {
                    before[x]
                },
            forall|x: int| i <= x < before.len() ==> #[trigger] rows@[x] == before[x],
        decreases rows.len() - i,
    {
        if rows[i].event_id == event_id && text_eq(rows[i].consumer_name.as_str(), consumer_name) {
            rows[i].processed_at = Some(now);
        }
        i = i + 1;
    }
}

/// The payload hash of every event that is held for a consumer.
pub open spec fn hashes_of(rows: Seq<InboxRow>, consumer_name: Seq<char>) -> Map<u128, Seq<char>>
    decreases rows.len(),
{
    if rows.len() == 0 {
        Map::empty()
    } else {
        let earlier = hashes_of(rows.drop_last(), consumer_name);
        if rows.last().consumer_name@ == consumer_name {
            earlier.insert(rows.last().event_id, rows.last().payload_hash@)
        } else {
            earlier
        }
    }
}

/// The hashes tell which events are held, and with which payload.
pub proof fn hashes_tell_the_claims(rows: Seq<InboxRow>, consumer_name: Seq<char>)
    requires
        claims_differ(rows),
    ensures
        forall|id: u128| #[trigger]
            hashes_of(rows, consumer_name).dom().contains(id) <==> is_claimed(
                rows,
                consumer_name,
                id,
            ),
        forall|i: int|
            0 <= i < rows.len() && (#[trigger] rows[i]).consumer_name@ == consumer_name
                ==> hashes_of(rows, consumer_name)[rows[i].event_id] == rows[i].payload_hash@,
    decreases rows.len(),
{
    if rows.len() > 0 {
        let front = rows.drop_last();
        let n = rows.len() - 1;
        assert forall|i: int, j: int| 0 <= i < j < front.len() implies !(
        #[trigger] front[i]).holds((#[trigger] front[j]).consumer_name@, front[j].event_id) by {
            assert(front[i] == rows[i] && front[j] == rows[j]);
        }
        hashes_tell_the_claims(front, consumer_name);
        assert forall|id: u128| #[trigger]
            hashes_of(rows, consumer_name).dom().contains(id) <==> is_claimed(
                rows,
                consumer_name,
                id,
            ) by {
            if is_claimed(front, consumer_name, id) {
                let i = choose|i: int|
                    0 <= i < front.len() && (#[trigger] front[i]).holds(consumer_name, id);
                assert(rows[i].holds(consumer_name, id));
            }
            if hashes_of(rows, consumer_name).dom().contains(id) && !hashes_of(
                front,
                consumer_name,
            ).dom().contains(id) {
                assert(rows[n].holds(consumer_name, id));
            }
            if is_claimed(rows, consumer_name, id) {
                let i = choose|i: int|
                    0 <= i < rows.len() && (#[trigger] rows[i]).holds(consumer_name, id);
                if i < n {
                    assert(front[i].holds(consumer_name, id));
                }
            }
        }
        assert forall|i: int|
            0 <= i < rows.len() && (#[trigger] rows[i]).consumer_name@ == consumer_name implies
            hashes_of(rows, consumer_name)[rows[i].event_id] == rows[i].payload_hash@ by {
            if i < n {
                assert(front[i] == rows[i]);
                assert(!rows[i].holds(rows[n].consumer_name@, rows[n].event_id));
            }
        }
    }
}

/// Marking rows leaves the hashes alone.
pub proof fn marks_keep_the_hashes(
    before: Seq<InboxRow>,
    after: Seq<InboxRow>,
    consumer_name: Seq<char>,
)
    requires
        after.len() == before.len(),
        forall|i: int|
            0 <= i < before.len() ==> {
                &&& (#[trigger] after[i]).consumer_name == before[i].consumer_name
                &&& after[i].event_id == before[i].event_id
                &&& after[i].payload_hash == before[i].payload_hash
            },
    ensures
        hashes_of(after, consumer_name) == hashes_of(before, consumer_name),
    decreases before.len(),
{
    if before.len() > 0 {
        let a = after.drop_last();
        let b = before.drop_last();
        assert forall|i: int| 0 <= i < b.len() implies {
            &&& (#[trigger] a[i]).consumer_name == b[i].consumer_name
            &&& a[i].event_id == b[i].event_id
            &&& a[i].payload_hash == b[i].payload_hash
        } by {
            assert(a[i] == after[i] && b[i] == before[i]);
        }
        marks_keep_the_hashes(b, a, consumer_name);
        assert(after.last() == after[after.len() - 1]);
    }
}

/// The last version that a consumer has taken of an aggregate.
#[derive(Debug)]
pub struct VersionRow {
    pub consumer_name: String,
    pub aggregate_id: u128,
    pub last_version: i64,
}

impl VersionRow {
    /// The row speaks of the aggregate for the consumer.
    pub open spec fn tells(self, consumer_name: Seq<char>, aggregate_id: u128) -> bool {
        self.consumer_name@ == consumer_name && self.aggregate_id == aggregate_id
    }
}

/// No two rows speak of the same aggregate for the same consumer.
pub open spec fn versions_differ(rows: Seq<VersionRow>) -> bool {
    forall|i: int, j: int|
        0 <= i < j < rows.len() ==> !(#[trigger] rows[i]).tells(
            (#[trigger] rows[j]).consumer_name@,
            rows[j].aggregate_id,
        )
}

/// The last version that a consumer has taken of each aggregate.
pub open spec fn versions_of(rows: Seq<VersionRow>, consumer_name: Seq<char>) -> Map<u128, i64>
    decreases rows.len(),
{
    if rows.len() == 0 {
        Map::empty()
    } else {
        let earlier = versions_of(rows.drop_last(), consumer_name);
        if rows.last().consumer_name@ == consumer_name {
            earlier.insert(rows.last().aggregate_id, rows.last().last_version)
        } else {
            earlier
        }
    }
}

proof fn lemma_versions_tell(rows: Seq<VersionRow>, consumer_name: Seq<char>)
    requires
        versions_differ(rows),
    ensures
        forall|id: u128| #[trigger]
            versions_of(rows, consumer_name).dom().contains(id) <==> exists|i: int|
                0 <= i < rows.len() && (#[trigger] rows[i]).tells(consumer_name, id),
        forall|i: int|
            0 <= i < rows.len() && (#[trigger] rows[i]).consumer_name@ == consumer_name
                ==> versions_of(rows, consumer_name)[rows[i].aggregate_id] == rows[i].last_version,
    decreases rows.len(),
{
    if rows.len() > 0 {
        let front = rows.drop_last();
        let n = rows.len() - 1;
        assert forall|i: int, j: int| 0 <= i < j < front.len() implies !(
        #[trigger] front[i]).tells((#[trigger] front[j]).consumer_name@, front[j].aggregate_id) by {
            assert(front[i] == rows[i] && front[j] == rows[j]);
        }
        lemma_versions_tell(front, consumer_name);
        assert forall|id: u128| #[trigger]
            versions_of(rows, consumer_name).dom().contains(id) <==> exists|i: int|
                0 <= i < rows.len() && (#[trigger] rows[i]).tells(consumer_name, id) by {
            if versions_of(front, consumer_name).dom().contains(id) {
                let i = choose|i: int|
                    0 <= i < front.len() && (#[trigger] front[i]).tells(consumer_name, id);
                assert(rows[i].tells(consumer_name, id));
            }
            if versions_of(rows, consumer_name).dom().contains(id) && !versions_of(
                front,
                consumer_name,
            ).dom().contains(id) {
                assert(rows[n].tells(consumer_name, id));
            }
            if exists|i: int|
                0 <= i < rows.len() && (#[trigger] rows[i]).tells(consumer_name, id) {
                let i = choose|i: int|
                    0 <= i < rows.len() && (#[trigger] rows[i]).tells(consumer_name, id);
                if i < n {
                    assert(front[i].tells(consumer_name, id));
                }
            }
        }
        assert forall|i: int|
            0 <= i < rows.len() && (#[trigger] rows[i]).consumer_name@ == consumer_name implies
            versions_of(rows, consumer_name)[rows[i].aggregate_id] == rows[i].last_version by {
            if i < n {
                assert(front[i] == rows[i]);
                assert(!rows[i].tells(rows[n].consumer_name@, rows[n].aggregate_id));
            }
        }
    }
}

/// What is said of an aggregate for a consumer is what the one row of that
/// consumer and that aggregate says; without such a row nothing is said.
pub proof fn versions_tell_the_rows(rows: Seq<VersionRow>, consumer_name: Seq<char>, id: u128)
    requires
        forall|i: int, j: int|
            0 <= i < j < rows.len() ==> (#[trigger] rows[i]).consumer_name@ != (
            #[trigger] rows[j]).consumer_name@ || rows[i].aggregate_id != rows[j].aggregate_id,
    ensures
        forall|i: int|
            0 <= i < rows.len() && (#[trigger] rows[i]).consumer_name@ == consumer_name
                && rows[i].aggregate_id == id ==> versions_of(rows, consumer_name).dom().contains(id)
                && versions_of(rows, consumer_name)[id] == rows[i].last_version,
        (forall|i: int|
            0 <= i < rows.len() ==> (#[trigger] rows[i]).consumer_name@ != consumer_name
                || rows[i].aggregate_id != id) ==> !versions_of(rows, consumer_name).dom().contains(
            id,
        ),
{
    lemma_versions_tell(rows, consumer_name);
    assert forall|i: int|
        0 <= i < rows.len() && (#[trigger] rows[i]).consumer_name@ == consumer_name
            && rows[i].aggregate_id == id implies versions_of(rows, consumer_name).dom().contains(id)
        && versions_of(rows, consumer_name)[id] == rows[i].last_version by {
        assert(rows[i].tells(consumer_name, id));
    }
}

/// What is said of an event for a consumer is the hash of the one row of that
/// consumer and that event; without such a row nothing is said.
pub proof fn hashes_tell_the_rows(rows: Seq<InboxRow>, consumer_name: Seq<char>, id: u128)
    requires
        forall|i: int, j: int|
            0 <= i < j < rows.len() ==> (#[trigger] rows[i]).consumer_name@ != (
            #[trigger] rows[j]).consumer_name@ || rows[i].event_id != rows[j].event_id,
    ensures
        forall|i: int|
            0 <= i < rows.len() && (#[trigger] rows[i]).consumer_name@ == consumer_name
                && rows[i].event_id == id ==> hashes_of(rows, consumer_name).dom().contains(id)
                && hashes_of(rows, consumer_name)[id] == rows[i].payload_hash@,
        (forall|i: int|
            0 <= i < rows.len() ==> (#[trigger] rows[i]).consumer_name@ != consumer_name
                || rows[i].event_id != id) ==> !hashes_of(rows, consumer_name).dom().contains(id),
{
    hashes_tell_the_claims(rows, consumer_name);
    assert forall|i: int|
        0 <= i < rows.len() && (#[trigger] rows[i]).consumer_name@ == consumer_name
            && rows[i].event_id == id implies hashes_of(rows, consumer_name).dom().contains(id)
        && hashes_of(rows, consumer_name)[id] == rows[i].payload_hash@ by {
        assert(rows[i].holds(consumer_name, id));
    }
}

proof fn lemma_version_updated(
    rows: Seq<VersionRow>,
    at: int,
    row: VersionRow,
    consumer_name: Seq<char>,
)
    requires
        versions_differ(rows),
        0 <= at < rows.len(),
        row.consumer_name == rows[at].consumer_name,
        row.aggregate_id == rows[at].aggregate_id,
    ensures
        versions_of(rows.update(at, row), consumer_name) == if row.consumer_name@ == consumer_name {
            versions_of(rows, consumer_name).insert(row.aggregate_id, row.last_version)
        } else {
            versions_of(rows, consumer_name)
        },
    decreases rows.len(),
{
    let n = rows.len() - 1;
    let after = rows.update(at, row);
    let front = rows.drop_last();
    if at == n {
        assert(after.drop_last() =~= front);
        assert(after.last() == row);
        assert(versions_of(after, consumer_name) =~= if row.consumer_name@ == consumer_name {
            versions_of(rows, consumer_name).insert(row.aggregate_id, row.last_version)
        } else {
            versions_of(rows, consumer_name)
        });
    } else {
        assert forall|i: int, j: int| 0 <= i < j < front.len() implies !(
        #[trigger] front[i]).tells((#[trigger] front[j]).consumer_name@, front[j].aggregate_id) by {
            assert(front[i] == rows[i] && front[j] == rows[j]);
        }
        lemma_version_updated(front, at, row, consumer_name);
        assert(after.drop_last() =~= front.update(at, row));
        assert(after.last() == rows.last());
        assert(!rows[at].tells(rows[n].consumer_name@, rows[n].aggregate_id));
        assert(versions_of(after, consumer_name) =~= if row.consumer_name@ == consumer_name {
            versions_of(rows, consumer_name).insert(row.aggregate_id, row.last_version)
        } else {
            versions_of(rows, consumer_name)
        });
    }
}

fn version_place(rows: &Vec<VersionRow>, consumer_name: &str, aggregate_id: u128) -> (r: Option<
    usize,
>)
    ensures
        match r {
            Some(at) => at < rows@.len() && rows@[at as int].tells(consumer_name@, aggregate_id),
            None => forall|i: int|
                0 <= i < rows@.len() ==> !(#[trigger] rows@[i]).tells(consumer_name@, aggregate_id),
        },
{
    let mut i: usize = 0;
    while i < rows.len()
        invariant
            i <= rows.len(),
            forall|x: int|
                0 <= x < i ==> !(#[trigger] rows@[x]).tells(consumer_name@, aggregate_id),
        decreases rows.len() - i,
    {
        if rows[i].aggregate_id == aggregate_id && text_eq(
            rows[i].consumer_name.as_str(),
            consumer_name,
        ) {
            return Some(i);
        }
        i = i + 1;
    }
    None
}

/// The last version that a consumer has taken of an aggregate.
pub fn last_version(rows: &Vec<VersionRow>, consumer_name: &str, aggregate_id: u128) -> (r: Option<
    i64,
>)
    requires
        versions_differ(rows@),
    ensures
        ({
            let versions = versions_of(rows@, consumer_name@);
            r == if versions.dom().contains(aggregate_id) {
                Some(versions[aggregate_id])
            } else {
                None
            }
        }),
{
    proof {
        lemma_versions_tell(rows@, consumer_name@);
    }
    match version_place(rows, consumer_name, aggregate_id) {
        Some(at) => Some(rows[at].last_version),
        None => None,
    }
}

/// Advances an aggregate to a version for a consumer; what is known of any
/// other aggregate, or for any other consumer, stays.
pub fn advance_version(
    rows: &mut Vec<VersionRow>,
    consumer_name: &str,
    aggregate_id: u128,
    new_version: i64,
)
    requires
        versions_differ(old(rows)@),
    ensures
        versions_differ(final(rows)@),
        forall|name: Seq<char>| #[trigger]
            versions_of(final(rows)@, name) == if name == consumer_name@ {
                versions_of(old(rows)@, name).insert(aggregate_id, new_version)
            } else {
                versions_of(old(rows)@, name)
            },
{
    let ghost before = rows@;
    match version_place(rows, consumer_name, aggregate_id) {
        Some(at) => {
            rows[at].last_version = new_version;
            proof {
                let row = rows@[at as int];
                assert(rows@ =~= before.update(at as int, row));
                assert forall|i: int, j: int| 0 <= i < j < rows@.len() implies !(
                #[trigger] rows@[i]).tells(
                    (#[trigger] rows@[j]).consumer_name@,
                    rows@[j].aggregate_id,
                ) by {
                    assert(!before[i].tells(before[j].consumer_name@, before[j].aggregate_id));
                }
                assert forall|name: Seq<char>| #[trigger]
                    versions_of(rows@, name) == if name == consumer_name@ {
                        versions_of(before, name).insert(aggregate_id, new_version)
                    } else {
                        versions_of(before, name)
                    } by {
                    lemma_version_updated(before, at as int, row, name);
                }
            }
        },
        None => {
            rows.push(
                VersionRow {
                    consumer_name: consumer_name.to_owned(),
                    aggregate_id,
                    last_version: new_version,
                },
            );
            proof {
                let n = before.len() as int;
                assert forall|i: int, j: int| 0 <= i < j < rows@.len() implies !(
                #[trigger] rows@[i]).tells(
                    (#[trigger] rows@[j]).consumer_name@,
                    rows@[j].aggregate_id,
                ) by {
                    assert(rows@[i] == before[i]);
                    if j < n {
                        assert(rows@[j] == before[j]);
                        assert(!before[i].tells(before[j].consumer_name@, before[j].aggregate_id));
                    }
                }
                assert(rows@.drop_last() =~= before);
            }
        },
    }
}

/// What to do with an event, by its version.
#[derive(Debug, Clone, Copy, PartialEq, Eq, Structural)]
pub enum VersionDecision {
    Apply,
    Stale,
    Gap,
}

/// The last version taken of an aggregate, zero where there is none.
pub open spec fn last_or_zero(last: Option<i64>) -> int {
    match last {
        Some(version) => version as int,
        None => 0,
    }
}

/// The version policy: the next version applies, a known one is stale, and a
/// later one leaves a gap.
pub open spec fn decide_version(last: Option<i64>, incoming: i64) -> VersionDecision {
    if incoming == last_or_zero(last) + 1 {
        VersionDecision::Apply
    } else if incoming <= last_or_zero(last) {
        VersionDecision::Stale
    } else {
        VersionDecision::Gap
    }
}

/// The version policy, given the last version taken of the aggregate.
pub fn version_decision(last: Option<i64>, incoming_version: i64) -> (r: VersionDecision)
    ensures
        r == decide_version(last, incoming_version),
{
    let last: i64 = match last {
        Some(version) => version,
        None => 0,
    };
    if incoming_version <= last {
        VersionDecision::Stale
    } else if incoming_version - 1 == last {
        VersionDecision::Apply
    } else {
        VersionDecision::Gap
    }
}

/// The offset to start from: the stored one, or the start of the topic.
pub fn fetch_offset(stored: Option<i64>) -> (r: i64)
    ensures
        r == last_or_zero(stored),
{
    match stored {
        Some(offset) => offset,
        None => 0,
    }
}

/// What the tables say of an event before it is taken: the payload hash of
/// the row that already holds its identifier, and the last version taken of
/// its aggregate.
#[derive(Debug)]
pub struct InboxFacts {
    pub claimed_hash: Option<String>,
    pub last_version: Option<i64>,
}

/// What [`InboxFacts`] say.
pub struct InboxFactsView {
    pub claimed_hash: Option<Seq<char>>,
    pub last_version: Option<i64>,
}

impl View for InboxFacts {
    type V = InboxFactsView;

    open spec fn view(&self) -> InboxFactsView {
        InboxFactsView {
            claimed_hash: opt_view(self.claimed_hash),
            last_version: self.last_version,
        }
    }
}

/// How an event stands to the inbox.
#[derive(Debug, Clone, Copy, PartialEq, Eq, Structural)]
pub enum Gate {
    /// Taken before, with the same payload.
    Duplicate,
    /// Taken before, with another payload.
    HashMismatch,
    /// New, of a version that is already past.
    Stale,
    /// New, of a version that leaves a gap.
    Gap,
    /// New, and next in line.
    Open,
}

/// How an event stands to the inbox.
pub open spec fn gate(facts: InboxFactsView, hash: Seq<char>, incoming: i64) -> Gate {
    match facts.claimed_hash {
        Some(claimed) => if claimed == hash {
            Gate::Duplicate
        } else {
            Gate::HashMismatch
        },
        None => match decide_version(facts.last_version, incoming) {
            VersionDecision::Apply => Gate::Open,
            VersionDecision::Stale => Gate::Stale,
            VersionDecision::Gap => Gate::Gap,
        },
    }
}

/// How an event stands to the inbox.
pub fn check_gate(facts: &InboxFacts, hash: &str, incoming: i64) -> (r: Gate)
    ensures
        r == gate(facts@, hash@, incoming),
{
    match &facts.claimed_hash {
        Some(claimed) => if text_eq(claimed.as_str(), hash) {
            Gate::Duplicate
        } else {
            Gate::HashMismatch
        },
        None => match version_decision(facts.last_version, incoming) {
            VersionDecision::Apply => Gate::Open,
            VersionDecision::Stale => Gate::Stale,
            VersionDecision::Gap => Gate::Gap,
        },
    }
}

}
