//! What becomes of a delivered record before a service answers it, and what
//! is noted of it.

use vstd::prelude::*;

use crate::consuming::{
    hash_of, label_of, Batch, BatchStep, CommitSet, DeliveryView, EffectView, HandleOutcome,
    HandledView, LedgerView, ProcessSummary, RawView,
};
use crate::contracts::EnvelopeView;
use crate::digest::{json_member, sha256};
use crate::persistence::dlq::DlqView;
use crate::ledger::Inbox;
use crate::persistence::inbox::{EntryView, InboxFactsView};
use crate::test_support::fault::{fires, FaultInjector};
use crate::text::{decimal, hex_text, signed_decimal, uuid_text};

verus! {

/// The letter tells of this delivery: where its record was, who read it and
/// when, what it held and why it was given up.
pub open spec fn tells_of(
    letter: DlqView<RawView>,
    delivery: DeliveryView,
    envelope: Option<RawView>,
    code: Seq<char>,
    detail: Seq<char>,
) -> bool {
    &&& letter.original_topic == delivery.source_topic
    &&& letter.original_partition == 0
    &&& letter.original_offset == delivery.record.offset
    &&& letter.envelope == envelope
    &&& letter.consumer == delivery.consumer
    &&& letter.attempts == 1
    &&& letter.first_failure_at == delivery.now
    &&& letter.last_failure_at == delivery.now
    &&& letter.error_code == code
    &&& letter.error_detail == detail
    &&& letter.replay_count == 0
}

/// The record is given up before anything was written: only the letter goes
/// out.
pub open spec fn only_told<W>(
    handled: HandledView<W>,
    delivery: DeliveryView,
    envelope: Option<RawView>,
    code: Seq<char>,
    detail: Seq<char>,
) -> bool {
    &&& handled.outcome is Poison
    &&& handled.effects.len() == 1
    &&& handled.effects[0] is PublishDlq
    &&& tells_of(handled.effects[0]->PublishDlq_0, delivery, envelope, code, detail)
}

/// The entry stands for this delivery.
pub open spec fn enters(entry: EntryView, delivery: DeliveryView, envelope: RawView) -> bool {
    &&& entry.consumer_name == delivery.consumer
    &&& entry.event_id == envelope.event_id
    &&& entry.source_topic == delivery.source_topic
    &&& entry.source_partition == 0
    &&& entry.source_offset == delivery.record.offset
    &&& entry.aggregate_id == envelope.aggregate_id
    &&& entry.aggregate_version == envelope.aggregate_version
    &&& entry.payload_hash == hex_text(sha256(envelope.payload))
}

/// The record is noted as taken, and nothing else is written or advanced.
pub open spec fn only_noted<W>(
    effect: EffectView<W>,
    delivery: DeliveryView,
    envelope: RawView,
) -> bool {
    &&& effect is Commit
    &&& enters(effect->Commit_0.entry, delivery, envelope)
    &&& effect->Commit_0.processed_at == delivery.now
    &&& effect->Commit_0.advance_to is None
    &&& effect->Commit_0.writes is None
}

/// The record is applied in one piece: what is written, the entry of the
/// inbox, and the version that the aggregate has reached.
pub open spec fn applied_once<W>(
    handled: HandledView<W>,
    delivery: DeliveryView,
    envelope: RawView,
) -> bool {
    &&& handled.outcome is Applied
    &&& handled.effects.len() == 1
    &&& commits_all(handled.effects[0], delivery, envelope)
}

/// What is written, the entry of the inbox, and the version that the
/// aggregate has reached are committed together.
pub open spec fn commits_all<W>(
    effect: EffectView<W>,
    delivery: DeliveryView,
    envelope: RawView,
) -> bool {
    &&& effect is Commit
    &&& enters(effect->Commit_0.entry, delivery, envelope)
    &&& effect->Commit_0.processed_at == delivery.now
    &&& effect->Commit_0.advance_to == Some(envelope.aggregate_version)
    &&& effect->Commit_0.writes is Some
}

/// What an envelope says, its payload put aside, is what its header says.
pub proof fn envelopes_keep_their_header(delivery: DeliveryView, header: EnvelopeView<()>)
    ensures
        ({
            let envelope = delivery.envelope(header);
            &&& envelope.event_id == header.event_id
            &&& envelope.event_type == header.event_type
            &&& envelope.schema_version == header.schema_version
            &&& envelope.occurred_at == header.occurred_at
            &&& envelope.producer == header.producer
            &&& envelope.aggregate_type == header.aggregate_type
            &&& envelope.aggregate_id == header.aggregate_id
            &&& envelope.aggregate_version == header.aggregate_version
            &&& envelope.correlation_id == header.correlation_id
            &&& envelope.causation_id == header.causation_id
            &&& envelope.traceparent == header.traceparent
            &&& envelope.payload == json_member(delivery.record.value->0, "payload"@)->0
        }),
{
}

/// A record that has no value, no header or no payload is given up with a
/// letter that says which.
pub proof fn unreadable_records_are_given_up<W>(
    delivery: DeliveryView,
    header: Result<EnvelopeView<()>, Seq<char>>,
    expected: Option<u32>,
    names_pairs_only: bool,
    facts: InboxFactsView,
)
    ensures
        ({
            let screened = delivery.screened::<W>(header, expected, names_pairs_only, facts);
            let value = delivery.record.value;
            &&& value is None ==> screened is Err && only_told(
                screened->Err_0,
                delivery,
                None,
                "MALFORMED_ENVELOPE"@,
                "record has no value"@,
            )
            &&& value is Some && header is Err ==> screened is Err && only_told(
                screened->Err_0,
                delivery,
                None,
                "MALFORMED_ENVELOPE"@,
                "envelope did not parse as JSON: "@ + header->Err_0,
            )
            &&& value is Some && header is Ok && json_member(value->0, "payload"@) is None
                ==> screened is Err && only_told(
                screened->Err_0,
                delivery,
                None,
                "MALFORMED_ENVELOPE"@,
                "envelope did not parse as JSON: "@ + "missing field `payload`"@,
            )
        }),
{
}

/// A readable record is given up where its event type is not known, or known
/// in another version, with a letter that holds its envelope and names both.
pub proof fn unknown_events_are_given_up<W>(
    delivery: DeliveryView,
    header: EnvelopeView<()>,
    expected: Option<u32>,
    names_pairs_only: bool,
    facts: InboxFactsView,
)
    requires
        delivery.record.value is Some,
        json_member(delivery.record.value->0, "payload"@) is Some,
        expected != Some(header.schema_version),
    ensures
        ({
            let screened = delivery.screened::<W>(Ok(header), expected, names_pairs_only, facts);
            &&& screened is Err
            &&& only_told(
                screened->Err_0,
                delivery,
                Some(delivery.envelope(header)),
                "UNSUPPORTED_SCHEMA"@,
                if expected is None && !names_pairs_only {
                    "unknown event type "@ + header.event_type
                } else {
                    "unknown type/version pair "@ + header.event_type + "/"@ + decimal(
                        header.schema_version as nat,
                    )
                },
            )
        }),
{
}

/// A record of a known event passes exactly where the event is new and next
/// in line. One that was taken with the same payload is dropped; one that was
/// taken with another payload is given up; an old version is only noted; and
/// one that comes too early is noted and given up.
pub proof fn known_events_pass_once_and_in_line<W>(
    delivery: DeliveryView,
    header: EnvelopeView<()>,
    names_pairs_only: bool,
    facts: InboxFactsView,
)
    requires
        delivery.record.value is Some,
        json_member(delivery.record.value->0, "payload"@) is Some,
    ensures
        ({
            let screened = delivery.screened::<W>(
                Ok(header),
                Some(header.schema_version),
                names_pairs_only,
                facts,
            );
            let envelope = delivery.envelope(header);
            let hash = hex_text(sha256(envelope.payload));
            let last = if facts.last_version is Some {
                facts.last_version->0 as int
            } else {
                0
            };
            let effects = screened->Err_0.effects;
            let outcome = screened->Err_0.outcome;
            &&& screened is Ok <==> facts.claimed_hash is None && header.aggregate_version == last
                + 1
            &&& screened is Ok ==> screened->Ok_0 == envelope
            &&& facts.claimed_hash == Some(hash) ==> {
                &&& outcome is Duplicate
                &&& effects.len() == 1
                &&& effects[0] is Rollback
            }
            &&& facts.claimed_hash is Some && facts.claimed_hash->0 != hash ==> {
                &&& outcome is Poison
                &&& effects.len() == 2
                &&& effects[0] is Rollback
                &&& effects[1] is PublishDlq
                &&& tells_of(
                    effects[1]->PublishDlq_0,
                    delivery,
                    Some(envelope),
                    "INBOX_HASH_MISMATCH"@,
                    "same event id redelivered with a different payload"@,
                )
            }
            &&& facts.claimed_hash is None && header.aggregate_version <= last ==> {
                &&& outcome is Stale
                &&& effects.len() == 1
                &&& only_noted(effects[0], delivery, envelope)
            }
            &&& facts.claimed_hash is None && header.aggregate_version > last + 1 ==> {
                &&& outcome is Poison
                &&& effects.len() == 2
                &&& only_noted(effects[0], delivery, envelope)
                &&& effects[1] is PublishDlq
                &&& tells_of(
                    effects[1]->PublishDlq_0,
                    delivery,
                    Some(envelope),
                    "EXPECTED_VERSION_GAP"@,
                    "aggregate "@ + uuid_text(header.aggregate_id) + " version "@ + signed_decimal(
                        header.aggregate_version as int,
                    ) + " arrived out of order"@,
                )
            }
        }),
{
}

/// An applied record is committed in one piece: what the service writes, the
/// entry of the inbox, and the version that the aggregate has reached.
pub proof fn applied_records_are_entered<W>(delivery: DeliveryView, envelope: RawView, writes: W)
    ensures
        ({
            let handled = delivery.applied(envelope, writes);
            let set = handled.effects[0]->Commit_0;
            &&& handled.outcome is Applied
            &&& handled.effects.len() == 1
            &&& handled.effects[0] is Commit
            &&& enters(set.entry, delivery, envelope)
            &&& set.processed_at == delivery.now
            &&& set.advance_to == Some(envelope.aggregate_version)
            &&& set.writes == Some(writes)
        }),
{
}

/// A record that a service refuses leaves no write, and a letter that holds
/// its envelope and the reason; where it is shelved, its entry is kept.
pub proof fn refused_records_are_told_of<W>(
    delivery: DeliveryView,
    envelope: RawView,
    code: Seq<char>,
    detail: Seq<char>,
)
    ensures
        ({
            let handled = delivery.rejected::<W>(envelope, code, detail);
            &&& handled.outcome is Poison
            &&& handled.effects.len() == 2
            &&& handled.effects[0] is Rollback
            &&& handled.effects[1] is PublishDlq
            &&& tells_of(
                handled.effects[1]->PublishDlq_0,
                delivery,
                Some(envelope),
                code,
                detail,
            )
        }),
        ({
            let handled = delivery.shelved::<W>(envelope, code, detail);
            &&& handled.outcome is Poison
            &&& handled.effects.len() == 2
            &&& only_noted(handled.effects[0], delivery, envelope)
            &&& handled.effects[1] is PublishDlq
            &&& tells_of(
                handled.effects[1]->PublishDlq_0,
                delivery,
                Some(envelope),
                code,
                detail,
            )
        }),
{
}

/// The hash of a payload is the hexadecimal form of its SHA-256 digest.
pub proof fn payload_hashes_are_digests(payload: Seq<u8>)
    ensures
        hash_of(payload) == hex_text(sha256(payload)),
{
}

/// What the inbox says of an event is what was committed of it: its own hash,
/// and the last version of its own aggregate. A commit changes what is said
/// of its own event and aggregate and of no other; what is given up changes
/// nothing.
pub proof fn commits_change_what_they_speak_of<W>(
    ledger: LedgerView,
    effect: EffectView<W>,
    envelope: RawView,
)
    ensures
        ({
            let before = ledger.facts(envelope);
            let after = ledger.after(effect).facts(envelope);
            let set = effect->Commit_0;
            &&& before.claimed_hash is Some <==> ledger.hashes.dom().contains(envelope.event_id)
            &&& before.claimed_hash is Some ==> before.claimed_hash->0
                == ledger.hashes[envelope.event_id]
            &&& before.last_version is Some <==> ledger.versions.dom().contains(
                envelope.aggregate_id,
            )
            &&& before.last_version is Some ==> before.last_version->0
                == ledger.versions[envelope.aggregate_id]
            &&& !(effect is Commit) ==> after == before
            &&& effect is Commit ==> {
                &&& after.claimed_hash == if set.entry.event_id == envelope.event_id {
                    Some(set.entry.payload_hash)
                } else {
                    before.claimed_hash
                }
                &&& after.last_version == if set.entry.aggregate_id == envelope.aggregate_id
                    && set.advance_to is Some {
                    set.advance_to
                } else {
                    before.last_version
                }
            }
        }),
{
}

/// Every handled record is counted once, under what became of it.
pub proof fn records_are_counted_once(summary: ProcessSummary, outcome: HandleOutcome)
    requires
        summary.applied + summary.duplicate + summary.stale + summary.poison
            < summary.records_seen,
    ensures
        ({
            let after = summary.with(outcome);
            &&& after.applied == summary.applied + if outcome is Applied {
                1int
            } else {
                0
            }
            &&& after.duplicate == summary.duplicate + if outcome is Duplicate {
                1int
            } else {
                0
            }
            &&& after.stale == summary.stale + if outcome is Stale {
                1int
            } else {
                0
            }
            &&& after.poison == summary.poison + if outcome is Poison {
                1int
            } else {
                0
            }
            &&& after.records_seen == summary.records_seen
            &&& after.stopped_by_fault == summary.stopped_by_fault
            &&& after.handled() == after.applied + after.duplicate + after.stale + after.poison
            &&& after.handled() == summary.handled() + 1
        }),
{
}

/// Every outcome has a name of its own.
pub proof fn outcomes_have_names(outcome: HandleOutcome)
    ensures
        outcome is Applied ==> label_of(outcome) == "applied"@,
        outcome is Duplicate ==> label_of(outcome) == "duplicate"@,
        outcome is Stale ==> label_of(outcome) == "stale"@,
        outcome is Poison ==> label_of(outcome) == "poison"@,
{
}

/// A batch counts every record that it settles once, under what became of it.
/// It goes on, with the record done, unless the fault between the handling
/// and the offset fires for the record's offset: then it stops, and nothing
/// is marked as done.
pub proof fn batches_settle_records_one_by_one(
    batch: &mut Batch,
    outcome: HandleOutcome,
    offset: i64,
    faults: &mut FaultInjector,
    point: &str,
    r: BatchStep,
)
    requires
        call_ensures(Batch::settle, (batch, outcome, offset, faults, point), r),
        old(batch).summary.handled() < old(batch).summary.records_seen,
    ensures
        ({
            let before = old(batch).summary;
            let after = final(batch).summary;
            let fault = fires(old(faults)@, point@, Some(signed_decimal(offset as int)));
            &&& after.applied == before.applied + (if outcome is Applied {
                1int
            } else {
                0
            })
            &&& after.duplicate == before.duplicate + (if outcome is Duplicate {
                1int
            } else {
                0
            })
            &&& after.stale == before.stale + (if outcome is Stale {
                1int
            } else {
                0
            })
            &&& after.poison == before.poison + (if outcome is Poison {
                1int
            } else {
                0
            })
            &&& after.records_seen == before.records_seen
            &&& r is Stop <==> fault
            &&& fault ==> after.stopped_by_fault && r->delay_ms == old(faults)@[point@].delay_ms
                && final(batch).tracker == old(batch).tracker
            &&& !fault ==> {
                &&& after.stopped_by_fault == before.stopped_by_fault
                &&& final(batch).tracker.done().contains(offset as int)
                &&& forall|k: int|
                    old(batch).tracker.start() <= k < final(batch).tracker.next()
                        ==> #[trigger] final(batch).tracker.done().contains(k)
                &&& r->commit is Some <==> final(batch).tracker.next() > old(batch).tracker.next()
            }
        }),
{
}

/// A batch starts with nothing counted and nothing done.
pub proof fn batches_start_empty(start_offset: i64, records_seen: usize, r: Batch)
    requires
        call_ensures(Batch::start, (start_offset, records_seen), r),
    ensures
        r.summary.records_seen == records_seen,
        r.summary.applied == 0,
        r.summary.duplicate == 0,
        r.summary.stale == 0,
        r.summary.poison == 0,
        !r.summary.stopped_by_fault,
        r.tracker.start() == start_offset,
        r.tracker.next() == start_offset,
        forall|k: int| !r.tracker.done().contains(k),
{
}

/// A commit is taken exactly where the event is not held, and then changes
/// what is said for its own consumer and for no other.
pub proof fn inboxes_say_what_was_committed(
    inbox: &mut Inbox,
    set: &CommitSet<Vec<u64>>,
    other: Seq<char>,
    r: bool,
)
    ensures
        call_ensures(Inbox::commit::<Vec<u64>>, (inbox, set), r) ==> {
            &&& r <==> forall|i: int|
                0 <= i < old(inbox).events@.len() ==> (
                #[trigger] old(inbox).events@[i]).consumer_name@ != set.entry.consumer_name@
                    || old(inbox).events@[i].event_id != set.entry.event_id
            &&& !r ==> *final(inbox) == *old(inbox)
            &&& r && other != set.entry.consumer_name@ ==> final(inbox).ledger(other)
                == old(inbox).ledger(other)
            &&& r ==> {
                let hashes = final(inbox).ledger(set.entry.consumer_name@).hashes;
                let versions = final(inbox).ledger(set.entry.consumer_name@).versions;
                &&& hashes.dom().contains(set.entry.event_id) && hashes[set.entry.event_id]
                    == set.entry.payload_hash@
                &&& set.advance_to is Some ==> versions.dom().contains(set.entry.aggregate_id)
                    && versions[set.entry.aggregate_id] == set.advance_to->0
                &&& set.advance_to is None ==> versions == old(inbox).ledger(
                    set.entry.consumer_name@,
                ).versions
            }
        },
{
    if call_ensures(Inbox::commit::<Vec<u64>>, (inbox, set), r) {
        let before = old(inbox).events@;
        let name = set@.entry.consumer_name;
        let id = set@.entry.event_id;
        if r {
            assert forall|i: int| 0 <= i < before.len() implies (
            #[trigger] before[i]).consumer_name@ != set.entry.consumer_name@ || before[i].event_id
                != set.entry.event_id by {
                assert(!before[i].holds(name, id));
            }
            let after = old(inbox).ledger(name).after(EffectView::Commit(set@));
            assert(final(inbox).ledger(name) == after);
        } else {
            let i = choose|i: int| 0 <= i < before.len() && (#[trigger] before[i]).holds(name, id);
            assert(before[i].consumer_name@ == set.entry.consumer_name@);
        }
    }
}

}
