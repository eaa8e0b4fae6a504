//! What the tables of messages keep: which messages are sent and when, which
//! were taken, and what is told of those that were given up.

use vstd::arithmetic::power2::{lemma2_to64, lemma_pow2_unfold, pow2};
use vstd::prelude::*;
use vstd::utf8::encode_utf8;

use crate::consuming::RawEnvelope;
use crate::digest::{json_compact, json_text_member, lossy_text};
use crate::messaging::RecordView;
use crate::model::{opt_view, views};
use crate::persistence::dlq::{dead_letter, dlq_topic, publication, DlqRecord, Header};
use crate::persistence::inbox::{
    claims_differ, decide_version, fetch_offset, gate, try_claim, version_decision,
    versions_differ, EntryView, InboxFactsView, InboxRow, NewInboxEntry, VersionDecision,
    VersionRow,
};
use crate::persistence::metrics::{
    record_dlq, record_gap, record_retry, result_counted, set_consumer_lag, ConsumerMetrics,
};
use crate::persistence::outbox::{
    age_millis, attempt_counted, backlog_metrics, backoff_limit, begin_publication, claim_batch,
    counted, delay_of, envelope_headers, full_jitter_backoff, header_views, insert, is_claim,
    is_next_batch, longest_wait, pause_after, settle_publication, BacklogMetrics,
    ClaimedOutboxEvent, NewOutboxEvent, OutboxRow, OutboxState, Publication, PublishMetrics,
    PublisherConfig, Settlement,
};
use crate::retry::RetryConfig;
use crate::test_support::fault::{fires, FaultInjector};
use crate::text::uuid_text;
use crate::time::{Span, Timestamp};

verus! {

/// The version policy: the version after the last one taken applies, where
/// none was taken the first; whatever is not beyond the last one is stale,
/// and whatever lies further ahead leaves a gap.
pub proof fn versions_apply_one_after_the_other(last: Option<i64>, incoming: i64)
    ensures
        ({
            let taken = if last is Some {
                last->0 as int
            } else {
                0
            };
            &&& decide_version(last, incoming) is Apply <==> incoming == taken + 1
            &&& decide_version(last, incoming) is Stale <==> incoming <= taken
            &&& decide_version(last, incoming) is Gap <==> incoming > taken + 1
        }),
{
}

/// An event that was taken before is a duplicate where its payload is the
/// same, and a mismatch where it is not, whatever its version; a new one is
/// judged by its version alone.
pub proof fn events_pass_once_and_in_line(facts: InboxFactsView, hash: Seq<char>, incoming: i64)
    ensures
        ({
            let taken = if facts.last_version is Some {
                facts.last_version->0 as int
            } else {
                0
            };
            let stands = gate(facts, hash, incoming);
            &&& stands is Duplicate <==> facts.claimed_hash == Some(hash)
            &&& stands is HashMismatch <==> facts.claimed_hash is Some && facts.claimed_hash->0
                != hash
            &&& stands is Open <==> facts.claimed_hash is None && incoming == taken + 1
            &&& stands is Stale <==> facts.claimed_hash is None && incoming <= taken
            &&& stands is Gap <==> facts.claimed_hash is None && incoming > taken + 1
        }),
{
}

/// A row of the inbox stands for one event of one consumer, and keeps what
/// the entry told; a row of the versions stands for one aggregate of one
/// consumer.
pub proof fn inbox_rows_stand_for_one_consumer(
    row: InboxRow,
    version: VersionRow,
    entry: EntryView,
    consumer: Seq<char>,
    id: u128,
    now: Timestamp,
)
    ensures
        row.holds(consumer, id) <==> row.consumer_name@ == consumer && row.event_id == id,
        version.tells(consumer, id) <==> version.consumer_name@ == consumer && version.aggregate_id
            == id,
        row.is_claim(entry, now) ==> {
            &&& row.consumer_name@ == entry.consumer_name
            &&& row.event_id == entry.event_id
            &&& row.source_topic@ == entry.source_topic
            &&& row.source_partition == entry.source_partition
            &&& row.source_offset == entry.source_offset
            &&& row.aggregate_id == entry.aggregate_id
            &&& row.aggregate_version == entry.aggregate_version
            &&& row.payload_hash@ == entry.payload_hash
            &&& row.received_at == now
            &&& row.processed_at is None
        },
{
}

/// A message may be claimed exactly while it is not published, from its next
/// attempt on, and beyond the end of any claim on it.
pub proof fn messages_may_be_claimed_when_due(row: OutboxState, now: Timestamp)
    ensures
        row.claimable(now) <==> row.published_at is None && row.next_attempt_at.instant()
            <= now.instant() && (row.claimed_until is Some ==> row.claimed_until->0.instant()
            < now.instant()),
{
}

/// A claim, a publication and a failure each change what they are about, and
/// nothing else of a message's state.
pub proof fn messages_change_as_they_are_told(
    row: OutboxState,
    by: Seq<char>,
    when: Timestamp,
    error: Seq<char>,
)
    requires
        row.attempts < i32::MAX,
    ensures
        ({
            let claimed = row.claimed(by, when);
            &&& claimed.claimed_by == Some(by)
            &&& claimed.claimed_until == Some(when)
            &&& claimed.id == row.id
            &&& claimed.created_at == row.created_at
            &&& claimed.published_at == row.published_at
            &&& claimed.next_attempt_at == row.next_attempt_at
            &&& claimed.attempts == row.attempts
            &&& claimed.last_error == row.last_error
        }),
        ({
            let published = row.published(when);
            &&& published.published_at == Some(when)
            &&& published.id == row.id
            &&& published.created_at == row.created_at
            &&& published.next_attempt_at == row.next_attempt_at
            &&& published.claimed_by == row.claimed_by
            &&& published.claimed_until == row.claimed_until
            &&& published.attempts == row.attempts
            &&& published.last_error == row.last_error
        }),
        ({
            let failed = row.failed(when, error);
            &&& failed.attempts == row.attempts + 1
            &&& failed.last_error == Some(error)
            &&& failed.next_attempt_at == when
            &&& failed.claimed_by is None
            &&& failed.claimed_until is None
            &&& failed.id == row.id
            &&& failed.created_at == row.created_at
            &&& failed.published_at == row.published_at
        }),
{
}

/// A batch takes messages that are due, each once, the oldest first, and
/// never more than its size; it leaves a due message out only where it is
/// full of messages that are no younger.
pub proof fn batches_take_the_oldest_due_messages(
    rows: Seq<OutboxState>,
    picked: Seq<int>,
    batch_size: i64,
    now: Timestamp,
)
    requires
        is_next_batch(rows, picked, batch_size, now),
    ensures
        picked.len() <= batch_size,
        forall|k: int|
            0 <= k < picked.len() ==> {
                let row = rows[#[trigger] picked[k]];
                &&& 0 <= picked[k] < rows.len()
                &&& row.published_at is None
                &&& row.next_attempt_at.instant() <= now.instant()
                &&& row.claimed_until is Some ==> row.claimed_until->0.instant() < now.instant()
            },
        forall|j: int, k: int|
            0 <= j < k < picked.len() ==> {
                let first = rows[#[trigger] picked[j]];
                let second = rows[#[trigger] picked[k]];
                &&& picked[j] != picked[k]
                &&& first.created_at.instant() <= second.created_at.instant()
                &&& first.created_at.instant() == second.created_at.instant() ==> first.id
                    <= second.id
            },
        forall|i: int|
            0 <= i < rows.len() && (#[trigger] rows[i]).published_at is None
                && rows[i].next_attempt_at.instant() <= now.instant() && rows[i].claimed_until
                is None && !picked.contains(i) ==> {
                &&& picked.len() == batch_size
                &&& forall|k: int|
                    0 <= k < picked.len() ==> rows[#[trigger] picked[k]].created_at.instant()
                        <= rows[i].created_at.instant()
            },
        forall|i: int|
            0 <= i < rows.len() && (#[trigger] rows[i]).published_at is None
                && rows[i].next_attempt_at.instant() <= now.instant() && rows[i].claimed_until
                is Some && rows[i].claimed_until->0.instant() < now.instant() && !picked.contains(i)
                ==> {
                &&& picked.len() == batch_size
                &&& forall|k: int|
                    0 <= k < picked.len() ==> rows[#[trigger] picked[k]].created_at.instant()
                        <= rows[i].created_at.instant()
            },
{
    assert forall|i: int|
        0 <= i < rows.len() && (#[trigger] rows[i]).published_at is None
            && rows[i].next_attempt_at.instant() <= now.instant() && (rows[i].claimed_until is None
            || rows[i].claimed_until->0.instant() < now.instant()) && !picked.contains(i) implies {
        &&& picked.len() == batch_size
        &&& forall|k: int|
            0 <= k < picked.len() ==> rows[#[trigger] picked[k]].created_at.instant()
                <= rows[i].created_at.instant()
    } by {
        assert(rows[i].claimable(now));
    }
}

/// A claim hands each picked message out as it is stored, marks it as held by
/// the claimant until the lease ends, and touches no other.
pub proof fn claims_hand_out_what_is_stored(
    before: Seq<OutboxRow>,
    after: Seq<OutboxRow>,
    claimed: Seq<ClaimedOutboxEvent>,
    picked: Seq<int>,
    claimed_by: Seq<char>,
    claimed_until: Timestamp,
)
    requires
        is_claim(before, after, claimed, picked, claimed_by, claimed_until),
        forall|k: int| 0 <= k < picked.len() ==> 0 <= #[trigger] picked[k] < before.len(),
    ensures
        after.len() == before.len(),
        claimed.len() == picked.len(),
        forall|k: int|
            0 <= k < picked.len() ==> {
                let row = before[picked[k]];
                let held = after[picked[k]];
                let out = #[trigger] claimed[k];
                &&& out.id == row.id
                &&& out.aggregate_type == row.aggregate_type
                &&& out.aggregate_id == row.aggregate_id
                &&& out.aggregate_version == row.aggregate_version
                &&& out.topic == row.topic
                &&& out.message_key == row.message_key
                &&& out.envelope@ == row.envelope@
                &&& out.created_at == row.created_at
                &&& out.attempts == row.attempts
                &&& out.was_previously_claimed <==> row.claimed_by is Some
                &&& held.claimed_by is Some && held.claimed_by->0@ == claimed_by
                &&& held.claimed_until == Some(claimed_until)
                &&& held.id == row.id
                &&& held.topic == row.topic
                &&& held.message_key == row.message_key
                &&& held.envelope == row.envelope
                &&& held.aggregate_id == row.aggregate_id
                &&& held.aggregate_version == row.aggregate_version
                &&& held.published_at == row.published_at
                &&& held.attempts == row.attempts
            },
        forall|i: int|
            0 <= i < before.len() && !picked.contains(i) ==> #[trigger] after[i] == before[i],
{
    assert forall|k: int| 0 <= k < picked.len() implies {
        let row = before[picked[k]];
        let held = after[picked[k]];
        let out = #[trigger] claimed[k];
        &&& out.claims(row)
        &&& held@ == row@.claimed(claimed_by, claimed_until)
        &&& held.same_message(row)
    } by {
        assert(picked.contains(picked[k]));
    }
}

/// The longest wait starts with the base and doubles with every failure, and
/// is cut off at the cap.
pub proof fn waits_double_up_to_the_cap(attempts: u32, base: Span, cap: Span)
    requires
        base.nanos < 1_000_000_000,
        cap.nanos < 1_000_000_000,
    ensures
        ({
            let limit = cap.secs * 1_000_000_000 + cap.nanos;
            let start = base.secs * 1_000_000_000 + base.nanos;
            let wait = longest_wait(attempts, base, cap);
            &&& attempts == 0 ==> wait == if start <= limit {
                start
            } else {
                limit
            }
            &&& attempts < 31 ==> longest_wait((attempts + 1) as u32, base, cap) == if 2 * wait
                <= limit {
                2 * wait
            } else {
                limit
            }
            &&& attempts >= 32 ==> wait == if start * 4_294_967_295 <= limit {
                start * 4_294_967_295
            } else {
                limit
            }
        }),
{
    lemma2_to64();
    let start = base.length();
    let limit = cap.length();
    if attempts < 31 {
        let n = attempts as nat;
        lemma_pow2_unfold((n + 1) as nat);
        let f = pow2(n) as int;
        assert(start * (2 * f) == 2 * (start * f)) by (nonlinear_arith);
    }
    if attempts == 0 {
        assert(start * 1 == start);
    }
}

/// A delay is the wait itself, unless it is longer than a calendar can take:
/// then there is none.
pub proof fn delays_are_the_wait(wait: Span)
    ensures
        wait.secs * 1_000_000_000 + wait.nanos <= 9_223_372_036_854_775_807_000_000 ==> delay_of(
            wait,
        ) == wait.secs * 1_000_000_000 + wait.nanos,
        wait.secs * 1_000_000_000 + wait.nanos > 9_223_372_036_854_775_807_000_000 ==> delay_of(
            wait,
        ) == 0,
{
}

/// The age of a waiting message is the number of whole milliseconds that
/// have passed since; nothing is older than the present.
pub proof fn ages_are_whole_milliseconds(oldest: Timestamp, now: Timestamp)
    ensures
        ({
            let passed = now.instant() - oldest.instant();
            let age = age_millis(oldest, now);
            &&& passed <= 0 ==> age == 0
            &&& passed > 0 ==> age * 1_000_000 <= passed < (age + 1) * 1_000_000
        }),
{
}

/// Counters count by one, and start again where they are full; an attempt is
/// counted once, and once more as a recovery where a claim was taken over.
pub proof fn counters_count_by_one(n: u64, metrics: PublishMetrics, recovered: bool)
    ensures
        n < u64::MAX ==> counted(n) == n + 1,
        n == u64::MAX ==> counted(n) == 0,
        ({
            let after = attempt_counted(metrics, recovered);
            &&& metrics.attempts_total < u64::MAX ==> after.attempts_total == metrics.attempts_total
                + 1
            &&& recovered && metrics.lease_recoveries_total < u64::MAX
                ==> after.lease_recoveries_total == metrics.lease_recoveries_total + 1
            &&& !recovered ==> after.lease_recoveries_total == metrics.lease_recoveries_total
            &&& after.failures_total == metrics.failures_total
            &&& after.published_total == metrics.published_total
        }),
{
}

/// The headers of a message tell its identifier, and then its correlation,
/// its cause and its producer, each under its own name, as far as its
/// envelope tells them.
pub proof fn headers_tell_the_journey(event_id: u128, envelope: Seq<u8>)
    ensures
        ({
            let headers = envelope_headers(event_id, envelope);
            let told = |field: Seq<char>|
                if json_text_member(envelope, field) is Some {
                    seq![(field, encode_utf8(json_text_member(envelope, field)->0))]
                } else {
                    Seq::empty()
                };
            headers == seq![("event_id"@, encode_utf8(uuid_text(event_id)))] + told(
                "correlation_id"@,
            ) + told("causation_id"@) + told("producer"@)
        }),
{
}

/// A handled record is counted under what became of it and nowhere else; any
/// other word counts nowhere.
pub proof fn results_are_counted_once(metrics: ConsumerMetrics, result: Seq<char>)
    requires
        metrics.applied < u64::MAX,
        metrics.duplicate < u64::MAX,
        metrics.stale < u64::MAX,
        metrics.poison < u64::MAX,
    ensures
        ({
            let after = result_counted(metrics, result);
            &&& after.applied == metrics.applied + if result == "applied"@ {
                1int
            } else {
                0
            }
            &&& after.duplicate == metrics.duplicate + if result == "duplicate"@ {
                1int
            } else {
                0
            }
            &&& after.stale == metrics.stale + if result == "stale"@ {
                1int
            } else {
                0
            }
            &&& after.poison == metrics.poison + if result == "poison"@ {
                1int
            } else {
                0
            }
            &&& after.gaps == metrics.gaps
            &&& after.dlq == metrics.dlq
            &&& after.retries == metrics.retries
            &&& after.lag == metrics.lag
        }),
{
    reveal_strlit("applied");
    reveal_strlit("duplicate");
    reveal_strlit("stale");
    reveal_strlit("poison");
    assert("applied"@.len() == 7);
    assert("duplicate"@.len() == 9);
    assert("stale"@.len() == 5);
    assert("poison"@.len() == 6);
}

/// A dead letter tells where the record was, its key as text, what it held,
/// who gave it up, when and why; it has been tried once and never replayed.
pub proof fn dead_letters_tell_the_failure<E>(
    consumer: Seq<char>,
    source_topic: Seq<char>,
    record: RecordView,
    envelope: Option<E>,
    error_code: Seq<char>,
    error_detail: Seq<char>,
    now: Timestamp,
)
    ensures
        ({
            let letter = dead_letter(
                consumer,
                source_topic,
                record,
                envelope,
                error_code,
                error_detail,
                now,
            );
            &&& letter.original_topic == source_topic
            &&& letter.original_partition == 0
            &&& letter.original_offset == record.offset
            &&& letter.original_key is Some
            &&& record.key is Some ==> letter.original_key->0 == lossy_text(record.key->0)
            &&& record.key is None ==> letter.original_key->0.len() == 0
            &&& letter.envelope == envelope
            &&& letter.consumer == consumer
            &&& letter.attempts == 1
            &&& letter.first_failure_at == now
            &&& letter.last_failure_at == now
            &&& letter.error_code == error_code
            &&& letter.error_detail == error_detail
            &&& letter.replay_count == 0
        }),
{
}

/// A stored message is the message that was given, due at once, unclaimed and
/// untried.
pub proof fn messages_are_stored_as_given(
    event: &NewOutboxEvent,
    envelope: Vec<u8>,
    now: Timestamp,
    r: OutboxRow,
)
    requires
        call_ensures(insert, (event, envelope, now), r),
    ensures
        r.id == event.id,
        r.aggregate_type == event.aggregate_type,
        r.aggregate_id == event.aggregate_id,
        r.aggregate_version == event.aggregate_version,
        r.topic == event.topic,
        r.message_key == event.message_key,
        r.envelope == envelope,
        r.created_at == now,
        r.next_attempt_at == now,
        r.published_at is None,
        r.claimed_by is None,
        r.claimed_until is None,
        r.attempts == 0,
        r.last_error is None,
{
}

/// A row may be claimed exactly while it is not published, from its next
/// attempt on, and beyond the end of any claim on it; the older row comes
/// first, and of two of one age the one with the lower identifier.
pub proof fn rows_are_claimed_by_age(row: &OutboxRow, other: &OutboxRow, now: Timestamp, r: bool)
    ensures
        call_ensures(OutboxRow::is_claimable, (row, now), r) ==> (r <==> row.published_at is None
            && row.next_attempt_at.instant() <= now.instant() && (row.claimed_until is Some
            ==> row.claimed_until->0.instant() < now.instant())),
        call_ensures(OutboxRow::comes_before, (row, other), r) ==> (r <==> row.created_at.instant()
            < other.created_at.instant() || (row.created_at.instant() == other.created_at.instant()
            && row.id < other.id)),
{
}

/// A claim marks a row as held; a publication and a failure mark it as told.
/// The message itself stays.
pub proof fn rows_change_as_they_are_told(
    row: &mut OutboxRow,
    by: &str,
    when: Timestamp,
    error: &str,
    claimed: ClaimedOutboxEvent,
)
    requires
        old(row).attempts < i32::MAX,
    ensures
        call_ensures(OutboxRow::claim, (row, by, when), claimed) ==> {
            &&& claimed.id == old(row).id
            &&& claimed.topic == old(row).topic
            &&& claimed.message_key == old(row).message_key
            &&& claimed.envelope@ == old(row).envelope@
            &&& claimed.attempts == old(row).attempts
            &&& claimed.was_previously_claimed <==> old(row).claimed_by is Some
            &&& final(row).claimed_by is Some && final(row).claimed_by->0@ == by@
            &&& final(row).claimed_until == Some(when)
            &&& final(row).published_at == old(row).published_at
            &&& final(row).attempts == old(row).attempts
            &&& final(row).envelope == old(row).envelope
        },
        call_ensures(OutboxRow::mark_published, (row, when), ()) ==> {
            &&& final(row).published_at == Some(when)
            &&& final(row).attempts == old(row).attempts
            &&& final(row).envelope == old(row).envelope
            &&& final(row).topic == old(row).topic
        },
        call_ensures(OutboxRow::mark_failed, (row, when, error), ()) ==> {
            &&& final(row).published_at == old(row).published_at
            &&& final(row).attempts == old(row).attempts + 1
            &&& final(row).last_error is Some && final(row).last_error->0@ == error@
            &&& final(row).next_attempt_at == when
            &&& final(row).claimed_by is None
            &&& final(row).claimed_until is None
            &&& final(row).envelope == old(row).envelope
        },
{
    let before = old(row)@;
    let after = final(row)@;
    assert(after.claimed_by == opt_view(final(row).claimed_by));
    assert(after.last_error == opt_view(final(row).last_error));
    assert(before.claimed_by == opt_view(old(row).claimed_by));
}

/// A batch is claimed for the length of the lease, out of the rows as they
/// were, and holds the oldest that were due.
pub proof fn batches_are_leased(
    rows: &mut Vec<OutboxRow>,
    by: &str,
    lease_nanos: i128,
    batch_size: i64,
    now: Timestamp,
    r: Vec<ClaimedOutboxEvent>,
)
    requires
        call_ensures(claim_batch, (rows, by, lease_nanos, batch_size, now), r),
    ensures
        r@.len() <= batch_size,
        final(rows)@.len() == old(rows)@.len(),
        exists|picked: Seq<int>, until: Timestamp|
            {
                &&& #[trigger] is_claim(old(rows)@, final(rows)@, r@, picked, by@, until)
                &&& is_next_batch(views(old(rows)@), picked, batch_size, now)
                &&& until.seconds * 1_000_000_000 + until.nanos == now.seconds * 1_000_000_000
                    + now.nanos + lease_nanos
                &&& until.nanos < 1_000_000_000
            },
{
    let (picked, until) = choose|picked: Seq<int>, until: Timestamp|
        {
            &&& #[trigger] is_claim(old(rows)@, final(rows)@, r@, picked, by@, until)
            &&& is_next_batch(views(old(rows)@), picked, batch_size, now)
            &&& until.valid()
            &&& until.instant() == now.instant() + lease_nanos
        };
    assert(is_claim(old(rows)@, final(rows)@, r@, picked, by@, until));
}

/// A publication is the stored message: its topic, its key, its envelope in
/// compact form and its headers. It begins by counting the attempt, and as a
/// recovery where a claim was taken over.
pub proof fn publications_are_the_stored_messages(
    row: &ClaimedOutboxEvent,
    metrics: &mut PublishMetrics,
    r: Option<Publication>,
)
    requires
        call_ensures(begin_publication, (row, metrics), r),
    ensures
        r is Some <==> json_compact(row.envelope@) is Some,
        r is Some ==> {
            &&& r->0.topic@ == row.topic@
            &&& r->0.key@ == row.message_key@
            &&& r->0.payload@ == json_compact(row.envelope@)->0
            &&& r->0.headers@.len() > 0
            &&& r->0.headers@[0].0@ == "event_id"@
            &&& r->0.headers@[0].1@ == encode_utf8(uuid_text(row.id))
        },
        old(metrics).attempts_total < u64::MAX ==> final(metrics).attempts_total
            == old(metrics).attempts_total + 1,
        !row.was_previously_claimed ==> final(metrics).lease_recoveries_total
            == old(metrics).lease_recoveries_total,
        row.was_previously_claimed && old(metrics).lease_recoveries_total < u64::MAX
            ==> final(metrics).lease_recoveries_total == old(metrics).lease_recoveries_total + 1,
        final(metrics).failures_total == old(metrics).failures_total,
        final(metrics).published_total == old(metrics).published_total,
{
    if r is Some {
        let headers = r->0.headers@;
        let told = envelope_headers(row.id, row.envelope@);
        assert(header_views(headers).len() == headers.len());
        assert(told.len() > 0);
        assert(told[0] == ("event_id"@, encode_utf8(uuid_text(row.id))));
        assert(header_views(headers)[0] == told[0]);
    }
}

/// A message that the broker took is published, unless the publisher is taken
/// to have crashed right then; one that it refused is tried again after the
/// wait, with what the broker said.
pub proof fn answers_of_the_broker_settle_messages(
    row: &ClaimedOutboxEvent,
    answer: Result<(), String>,
    wait: Span,
    faults: &mut FaultInjector,
    metrics: &mut PublishMetrics,
    now: Timestamp,
    r: Settlement,
)
    requires
        call_ensures(settle_publication, (row, answer, wait, faults, metrics, now), r),
        wait.secs * 1_000_000_000 + wait.nanos <= 9_223_372_036_854_775_807_000_000,
        old(metrics).published_total < u64::MAX,
        old(metrics).failures_total < u64::MAX,
    ensures
        ({
            let point = "orders.outbox.after_broker_publish_before_mark_published"@;
            let crashed = fires(old(faults)@, point, Some(uuid_text(row.id)));
            &&& r is Published <==> answer is Ok && !crashed
            &&& r is Crashed <==> answer is Ok && crashed
            &&& r is Failed <==> answer is Err
            &&& r is Crashed ==> r->Crashed_delay_ms == old(faults)@[point].delay_ms
            &&& r is Failed ==> r->error == answer->Err_0 && r->next_attempt_at.instant()
                == now.instant() + wait.secs * 1_000_000_000 + wait.nanos
            &&& final(metrics).published_total == old(metrics).published_total + (if r is Published {
                1int
            } else {
                0
            })
            &&& final(metrics).failures_total == old(metrics).failures_total + (if r is Failed {
                1int
            } else {
                0
            })
            &&& final(metrics).attempts_total == old(metrics).attempts_total
        }),
{
}

/// A refused message is tried again no later than the longest wait for its
/// attempts; the publisher pauses only where a batch was empty or failed; and
/// the backlog tells how many wait and for how long.
pub proof fn publishers_keep_their_pace(
    attempts: u32,
    base: Span,
    cap: Span,
    limit: Span,
    wait: Span,
    claimed: Option<usize>,
    config: &PublisherConfig,
    pause: Option<Span>,
    count: i64,
    oldest: Option<Timestamp>,
    now: Timestamp,
    backlog: BacklogMetrics,
)
    ensures
        call_ensures(backoff_limit, (attempts, base, cap), limit) ==> limit.secs * 1_000_000_000
            + limit.nanos == longest_wait(attempts, base, cap),
        call_ensures(full_jitter_backoff, (attempts, base, cap), wait) ==> wait.secs * 1_000_000_000
            + wait.nanos <= longest_wait(attempts, base, cap),
        call_ensures(pause_after, (claimed, config), pause) ==> {
            &&& pause is None <==> claimed is Some && claimed->0 > 0
            &&& pause is Some ==> pause->0 == config.poll_interval
        },
        call_ensures(backlog_metrics, (count, oldest, now), backlog) ==> {
            let age = backlog.oldest_unpublished_age_millis;
            &&& backlog.unpublished_count == count
            &&& age is Some <==> oldest is Some
            &&& oldest is Some && now.instant() <= oldest->0.instant() ==> age->0 == 0
            &&& oldest is Some && now.instant() > oldest->0.instant() ==> age->0 * 1_000_000
                <= now.instant() - oldest->0.instant() < (age->0 + 1) * 1_000_000
        },
{
}

/// An event is claimed for a consumer once: the first claim writes a row of
/// it, a further one writes nothing.
pub proof fn events_are_claimed_once(
    rows: &mut Vec<InboxRow>,
    now: Timestamp,
    entry: &NewInboxEntry,
    r: bool,
)
    requires
        call_ensures(try_claim, (rows, now, entry), r),
    ensures
        r <==> forall|i: int|
            0 <= i < old(rows)@.len() ==> (#[trigger] old(rows)@[i]).consumer_name@
                != entry.consumer_name@ || old(rows)@[i].event_id != entry.event_id,
        !r ==> final(rows)@ == old(rows)@,
        r ==> {
            let row = final(rows)@.last();
            &&& final(rows)@.len() == old(rows)@.len() + 1
            &&& forall|i: int|
                0 <= i < old(rows)@.len() ==> #[trigger] final(rows)@[i] == old(rows)@[i]
            &&& row.consumer_name@ == entry.consumer_name@
            &&& row.event_id == entry.event_id
            &&& row.source_topic@ == entry.source_topic@
            &&& row.source_offset == entry.source_offset
            &&& row.aggregate_id == entry.aggregate_id
            &&& row.aggregate_version == entry.aggregate_version
            &&& row.payload_hash@ == entry.payload_hash@
            &&& row.received_at == now
            &&& row.processed_at is None
        },
{
    let before = old(rows)@;
    if r {
        assert forall|i: int| 0 <= i < before.len() implies (#[trigger] before[i]).consumer_name@
            != entry.consumer_name@ || before[i].event_id != entry.event_id by {
            assert(!before[i].holds(entry@.consumer_name, entry@.event_id));
        }
    } else {
        let i = choose|i: int|
            0 <= i < before.len() && (#[trigger] before[i]).holds(
                entry@.consumer_name,
                entry@.event_id,
            );
        assert(before[i].consumer_name@ == entry.consumer_name@);
    }
}

/// A consumer without a stored offset starts at the first record, any other
/// where it stopped.
pub proof fn consumers_resume_where_they_stopped(stored: Option<i64>, r: i64)
    requires
        call_ensures(fetch_offset, (stored,), r),
    ensures
        stored is None ==> r == 0,
        stored is Some ==> r == stored->0,
{
}

/// Version by version an event is applied, dropped as old, or held to come too
/// early.
pub proof fn versions_are_decided_in_turn(last: Option<i64>, incoming: i64, r: VersionDecision)
    requires
        call_ensures(version_decision, (last, incoming), r),
    ensures
        ({
            let taken = if last is Some {
                last->0 as int
            } else {
                0
            };
            &&& r is Apply <==> incoming == taken + 1
            &&& r is Stale <==> incoming <= taken
            &&& r is Gap <==> incoming > taken + 1
        }),
{
}

/// A dead letter goes to the topic of its own beside the one it came from,
/// with headers that tell its error and where it came from.
pub proof fn dead_letters_go_beside_their_topic(
    source_topic: &str,
    record: &DlqRecord<RawEnvelope>,
    r: (String, Vec<Header>),
    topic: String,
)
    ensures
        call_ensures(dlq_topic, (source_topic,), topic) ==> topic@ == source_topic@ + ".dlq"@,
        call_ensures(publication::<RawEnvelope>, (source_topic, record), r) ==> {
            let (named, headers) = r;
            &&& named@ == source_topic@ + ".dlq"@
            &&& headers@.len() == 2
            &&& headers@[0].0@ == "error_code"@ && headers@[0].1@ == encode_utf8(record.error_code@)
            &&& headers@[1].0@ == "original_topic"@ && headers@[1].1@ == encode_utf8(
                record.original_topic@,
            )
        },
{
}

/// Gaps, dead letters and retries are counted by one; how far a consumer is
/// behind is never less than nothing.
pub proof fn consumers_are_counted(metrics: &mut ConsumerMetrics, value: i64)
    requires
        old(metrics).gaps < u64::MAX,
        old(metrics).dlq < u64::MAX,
        old(metrics).retries < u64::MAX,
    ensures
        call_ensures(record_gap, (metrics,), ()) ==> final(metrics).gaps == old(metrics).gaps + 1
            && final(metrics).dlq == old(metrics).dlq && final(metrics).retries
            == old(metrics).retries && final(metrics).lag == old(metrics).lag,
        call_ensures(record_dlq, (metrics,), ()) ==> final(metrics).dlq == old(metrics).dlq + 1
            && final(metrics).gaps == old(metrics).gaps && final(metrics).retries
            == old(metrics).retries && final(metrics).lag == old(metrics).lag,
        call_ensures(record_retry, (metrics,), ()) ==> final(metrics).retries
            == old(metrics).retries + 1 && final(metrics).gaps == old(metrics).gaps
            && final(metrics).dlq == old(metrics).dlq && final(metrics).lag == old(metrics).lag,
        call_ensures(set_consumer_lag, (metrics, value), ()) ==> (value >= 0 ==> final(metrics).lag
            == value) && (value < 0 ==> final(metrics).lag == 0) && final(metrics).gaps
            == old(metrics).gaps && final(metrics).dlq == old(metrics).dlq,
{
}

/// What is well formed has less than a second in the part below the second.
pub proof fn well_formed_times_are_below_a_second(
    row: OutboxState,
    config: PublisherConfig,
    retry: RetryConfig,
)
    ensures
        row.valid() <==> row.created_at.nanos < 1_000_000_000 && row.next_attempt_at.nanos
            < 1_000_000_000 && (row.claimed_until is Some ==> row.claimed_until->0.nanos
            < 1_000_000_000),
        config.valid() <==> config.poll_interval.nanos < 1_000_000_000 && config.backoff_base.nanos
            < 1_000_000_000 && config.backoff_cap.nanos < 1_000_000_000,
        retry.valid() <==> retry.max_elapsed.nanos < 1_000_000_000 && retry.backoff_base.nanos
            < 1_000_000_000 && retry.backoff_cap.nanos < 1_000_000_000,
{
}

/// The tables of an inbox are in order exactly where no two rows stand for the
/// same event, or the same aggregate, of the same consumer.
pub proof fn inbox_tables_hold_each_once(events: Seq<InboxRow>, versions: Seq<VersionRow>)
    ensures
        claims_differ(events) <==> forall|i: int, j: int|
            0 <= i < j < events.len() ==> (#[trigger] events[i]).consumer_name@ != (
            #[trigger] events[j]).consumer_name@ || events[i].event_id != events[j].event_id,
        versions_differ(versions) <==> forall|i: int, j: int|
            0 <= i < j < versions.len() ==> (#[trigger] versions[i]).consumer_name@ != (
            #[trigger] versions[j]).consumer_name@ || versions[i].aggregate_id
                != versions[j].aggregate_id,
{
    if claims_differ(events) {
        assert forall|i: int, j: int| 0 <= i < j < events.len() implies (
        #[trigger] events[i]).consumer_name@ != (#[trigger] events[j]).consumer_name@
            || events[i].event_id != events[j].event_id by {
            assert(!events[i].holds(events[j].consumer_name@, events[j].event_id));
        }
    }
    if versions_differ(versions) {
        assert forall|i: int, j: int| 0 <= i < j < versions.len() implies (
        #[trigger] versions[i]).consumer_name@ != (#[trigger] versions[j]).consumer_name@
            || versions[i].aggregate_id != versions[j].aggregate_id by {
            assert(!versions[i].tells(versions[j].consumer_name@, versions[j].aggregate_id));
        }
    }
}

/// Every due row can be claimed, every claimed row published or failed, at
/// any moment of the calendar.
pub proof fn every_message_can_be_published(
    rows: &mut Vec<OutboxRow>,
    by: &str,
    lease_nanos: i128,
    batch_size: i64,
    now: Timestamp,
    row: &ClaimedOutboxEvent,
    metrics: &mut PublishMetrics,
    answer: Result<(), String>,
    wait: Span,
    faults: &mut FaultInjector,
)
    requires
        now.nanos < 1_000_000_000,
        wait.nanos < 1_000_000_000,
        batch_size >= 0,
        0 <= lease_nanos <= 1_000_000_000_000_000,
        0 <= now.seconds <= 8_000_000_000_000,
        wait.secs <= 1_000_000_000,
        forall|i: int| 0 <= i < old(rows)@.len() ==> (#[trigger] old(rows)@[i])@.valid(),
    ensures
        call_requires(claim_batch, (rows, by, lease_nanos, batch_size, now)),
        call_requires(begin_publication, (row, metrics)),
        call_requires(settle_publication, (row, answer, wait, faults, metrics, now)),
{
}

}
