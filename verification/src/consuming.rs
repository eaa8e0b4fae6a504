//! The protocol that every consumer follows for one record: read it, check
//! its type and version, take it through the inbox, react to it, and commit
//! the reaction together with the inbox entry. What is to be done comes out
//! as a list of effects, to be carried out in order.

use vstd::prelude::*;
use vstd::string::*;

use crate::contracts::{Envelope, EnvelopeView};
use crate::digest::{hex_encode, json_member, read_json_member, sha256, sha256_digest};
use crate::ids::id_text;
use crate::messaging::{ConsumedRecord, ContiguousOffsetTracker, RecordView};
use crate::model::{copy_bytes, copy_opt_text, opt_view, views};
use crate::persistence::dlq::{dead_letter, write_dead_letter, DlqRecord, DlqView};
use crate::persistence::inbox::{
    check_gate, gate, EntryView, Gate, InboxFacts, InboxFactsView, NewInboxEntry,
};
use crate::test_support::fault::{after_firing, fires, FaultInjector};
use crate::text::{decimal, hex_text, i64_text, signed_decimal, u64_text, uuid_text};
use crate::time::Timestamp;

verus! {

/// The partition of every topic.
pub const SOURCE_PARTITION: i32 = 0;

/// What became of a record.
#[derive(Debug, Clone, Copy, PartialEq, Eq, Structural)]
pub enum HandleOutcome {
    Applied,
    Duplicate,
    Stale,
    Poison,
}

/// An envelope as it came, with its payload as compact JSON text.
pub type RawEnvelope = Envelope<Vec<u8>>;

/// What a [`RawEnvelope`] says.
pub type RawView = EnvelopeView<Seq<u8>>;

/// What is committed in one transaction: the inbox entry, marked processed;
/// the version that the aggregate advances to, if it does; and the writes of
/// the reaction, if there are any.
#[derive(Debug)]
pub struct CommitSet<W> {
    pub entry: NewInboxEntry,
    pub processed_at: Timestamp,
    pub advance_to: Option<i64>,
    pub writes: Option<W>,
}

/// What a [`CommitSet`] says.
pub struct CommitView<W> {
    pub entry: EntryView,
    pub processed_at: Timestamp,
    pub advance_to: Option<i64>,
    pub writes: Option<W>,
}

impl<W: View> View for CommitSet<W> {
    type V = CommitView<W::V>;

    open spec fn view(&self) -> CommitView<W::V> {
        CommitView {
            entry: self.entry@,
            processed_at: self.processed_at,
            advance_to: self.advance_to,
            writes: opt_view(self.writes),
        }
    }
}

/// One thing to be done for a record.
#[derive(Debug)]
pub enum Effect<W> {
    /// Publish a dead letter and wait for the acknowledgement.
    PublishDlq(DlqRecord<RawEnvelope>),
    /// Write and commit.
    Commit(CommitSet<W>),
    /// Give the transaction up.
    Rollback,
}

/// What an [`Effect`] says.
pub enum EffectView<W> {
    PublishDlq(DlqView<RawView>),
    Commit(CommitView<W>),
    Rollback,
}

impl<W: View> View for Effect<W> {
    type V = EffectView<W::V>;

    open spec fn view(&self) -> EffectView<W::V> {
        match *self {
            Effect::PublishDlq(letter) => EffectView::PublishDlq(letter@),
            Effect::Commit(set) => EffectView::Commit(set@),
            Effect::Rollback => EffectView::Rollback,
        }
    }
}

/// What became of a record, and what is to be done for it.
#[derive(Debug)]
pub struct Handled<W> {
    pub outcome: HandleOutcome,
    pub effects: Vec<Effect<W>>,
}

/// What a [`Handled`] says.
pub struct HandledView<W> {
    pub outcome: HandleOutcome,
    pub effects: Seq<EffectView<W>>,
}

impl<W: View> View for Handled<W> {
    type V = HandledView<W::V>;

    open spec fn view(&self) -> HandledView<W::V> {
        HandledView { outcome: self.outcome, effects: views(self.effects@) }
    }
}

/// A single thing to do.
pub fn only<W: View>(outcome: HandleOutcome, effect: Effect<W>) -> (r: Handled<W>)
    ensures
        r@ == (HandledView { outcome, effects: seq![effect@] }),
{
    let ghost seen = effect@;
    let mut effects: Vec<Effect<W>> = Vec::new();
    effects.push(effect);
    assert(views(effects@) =~= seq![seen]);
    Handled { outcome, effects }
}

/// Two things to do, one after the other.
pub fn both<W: View>(outcome: HandleOutcome, first: Effect<W>, second: Effect<W>) -> (r: Handled<W>)
    ensures
        r@ == (HandledView { outcome, effects: seq![first@, second@] }),
{
    let ghost seen = seq![first@, second@];
    let mut effects: Vec<Effect<W>> = Vec::new();
    effects.push(first);
    effects.push(second);
    assert(views(effects@) =~= seen);
    Handled { outcome, effects }
}

/// The hash of a payload: the SHA-256 digest of its compact JSON text, in
/// hexadecimal.
pub open spec fn hash_of(payload: Seq<u8>) -> Seq<char> {
    hex_text(sha256(payload))
}

/// The hash of a payload.
pub fn payload_hash(payload: &Vec<u8>) -> (r: String)
    ensures
        r@ == hash_of(payload@),
{
    let digest: Vec<u8> = sha256_digest(payload.as_slice());
    hex_encode(digest.as_slice())
}

/// The envelope with `payload` in it.
pub open spec fn with_payload(header: EnvelopeView<()>, payload: Seq<u8>) -> RawView {
    EnvelopeView {
        event_id: header.event_id,
        event_type: header.event_type,
        schema_version: header.schema_version,
        occurred_at: header.occurred_at,
        producer: header.producer,
        aggregate_type: header.aggregate_type,
        aggregate_id: header.aggregate_id,
        aggregate_version: header.aggregate_version,
        correlation_id: header.correlation_id,
        causation_id: header.causation_id,
        traceparent: header.traceparent,
        payload,
    }
}

/// Puts `payload` into an envelope.
fn fill(header: &Envelope<()>, payload: Vec<u8>) -> (r: RawEnvelope)
    ensures
        r@ == with_payload(header@, payload@),
{
    Envelope {
        event_id: header.event_id,
        event_type: header.event_type.clone(),
        schema_version: header.schema_version,
        occurred_at: header.occurred_at,
        producer: header.producer.clone(),
        aggregate_type: header.aggregate_type.clone(),
        aggregate_id: header.aggregate_id,
        aggregate_version: header.aggregate_version,
        correlation_id: header.correlation_id,
        causation_id: header.causation_id,
        traceparent: copy_opt_text(&header.traceparent),
        payload,
    }
}

/// A copy of an envelope.
pub fn copy_envelope(envelope: &RawEnvelope) -> (r: RawEnvelope)
    ensures
        r@ == envelope@,
{
    Envelope {
        event_id: envelope.event_id,
        event_type: envelope.event_type.clone(),
        schema_version: envelope.schema_version,
        occurred_at: envelope.occurred_at,
        producer: envelope.producer.clone(),
        aggregate_type: envelope.aggregate_type.clone(),
        aggregate_id: envelope.aggregate_id,
        aggregate_version: envelope.aggregate_version,
        correlation_id: envelope.correlation_id,
        causation_id: envelope.causation_id,
        traceparent: copy_opt_text(&envelope.traceparent),
        payload: copy_bytes(&envelope.payload),
    }
}

/// The inbox entry for a record.
pub open spec fn entry_for(
    consumer: Seq<char>,
    source_topic: Seq<char>,
    record: RecordView,
    envelope: RawView,
) -> EntryView {
    EntryView {
        consumer_name: consumer,
        event_id: envelope.event_id,
        source_topic,
        source_partition: 0,
        source_offset: record.offset,
        aggregate_id: envelope.aggregate_id,
        aggregate_version: envelope.aggregate_version,
        payload_hash: hash_of(envelope.payload),
    }
}

/// Who handles which record, and when.
#[derive(Debug, Clone, Copy)]
pub struct Delivery<'a> {
    pub consumer: &'a str,
    pub source_topic: &'a str,
    pub record: &'a ConsumedRecord,
    pub now: Timestamp,
}

/// What a [`Delivery`] says.
pub struct DeliveryView {
    pub consumer: Seq<char>,
    pub source_topic: Seq<char>,
    pub record: RecordView,
    pub now: Timestamp,
}

impl<'a> View for Delivery<'a> {
    type V = DeliveryView;

    open spec fn view(&self) -> DeliveryView {
        DeliveryView {
            consumer: self.consumer@,
            source_topic: self.source_topic@,
            record: self.record@,
            now: self.now,
        }
    }
}

impl DeliveryView {
    /// The record holds a payload.
    pub open spec fn readable(self) -> bool {
        self.record.value is Some && json_member(self.record.value->0, "payload"@) is Some
    }

    /// The envelope that the record holds, given its header.
    pub open spec fn envelope(self, header: EnvelopeView<()>) -> RawView {
        with_payload(header, json_member(self.record.value->0, "payload"@)->0)
    }

    /// The inbox entry of this delivery.
    pub open spec fn entry(self, envelope: RawView) -> EntryView {
        entry_for(self.consumer, self.source_topic, self.record, envelope)
    }

    /// The dead letter for this delivery.
    pub open spec fn letter<W>(
        self,
        envelope: Option<RawView>,
        code: Seq<char>,
        detail: Seq<char>,
    ) -> EffectView<W> {
        EffectView::PublishDlq(
            dead_letter(
                self.consumer,
                self.source_topic,
                self.record,
                envelope,
                code,
                detail,
                self.now,
            ),
        )
    }

    /// The record is refused before any transaction begins.
    pub open spec fn refused<W>(
        self,
        envelope: Option<RawView>,
        code: Seq<char>,
        detail: Seq<char>,
    ) -> HandledView<W> {
        HandledView {
            outcome: HandleOutcome::Poison,
            effects: seq![self.letter(envelope, code, detail)],
        }
    }

    /// The record is refused and its transaction given up.
    pub open spec fn rejected<W>(self, envelope: RawView, code: Seq<char>, detail: Seq<char>) -> HandledView<W> {
        HandledView {
            outcome: HandleOutcome::Poison,
            effects: seq![EffectView::Rollback, self.letter(Some(envelope), code, detail)],
        }
    }

    /// The inbox entry of this delivery, processed, without any reaction.
    pub open spec fn noted<W>(self, envelope: RawView) -> EffectView<W> {
        EffectView::Commit(
            CommitView {
                entry: self.entry(envelope),
                processed_at: self.now,
                advance_to: None,
                writes: None,
            },
        )
    }

    /// The record is refused, but its inbox entry is kept.
    pub open spec fn shelved<W>(self, envelope: RawView, code: Seq<char>, detail: Seq<char>) -> HandledView<W> {
        HandledView {
            outcome: HandleOutcome::Poison,
            effects: seq![self.noted(envelope), self.letter(Some(envelope), code, detail)],
        }
    }

    /// The reaction is committed together with the inbox entry, and the
    /// aggregate advances to the version of the event.
    pub open spec fn commit<W>(self, envelope: RawView, writes: W) -> EffectView<W> {
        EffectView::Commit(
            CommitView {
                entry: self.entry(envelope),
                processed_at: self.now,
                advance_to: Some(envelope.aggregate_version),
                writes: Some(writes),
            },
        )
    }

    /// The record is applied.
    pub open spec fn applied<W>(self, envelope: RawView, writes: W) -> HandledView<W> {
        HandledView {
            outcome: HandleOutcome::Applied,
            effects: seq![self.commit(envelope, writes)],
        }
    }

    /// What stops a record on its way to the reaction, or the envelope that
    /// the reaction is owed.
    pub open spec fn screened<W>(
        self,
        header: Result<EnvelopeView<()>, Seq<char>>,
        expected: Option<u32>,
        names_pairs_only: bool,
        facts: InboxFactsView,
    ) -> Result<RawView, HandledView<W>> {
        match (self.record.value, header) {
            (None, _) => Err(self.refused(None, "MALFORMED_ENVELOPE"@, "record has no value"@)),
            (Some(_), Err(error)) => Err(
                self.refused(
                    None,
                    "MALFORMED_ENVELOPE"@,
                    "envelope did not parse as JSON: "@ + error,
                ),
            ),
            (Some(value), Ok(header)) => match json_member(value, "payload"@) {
                None => Err(
                    self.refused(
                        None,
                        "MALFORMED_ENVELOPE"@,
                        "envelope did not parse as JSON: "@ + "missing field `payload`"@,
                    ),
                ),
                Some(payload) => {
                    let envelope = with_payload(header, payload);
                    if expected is None && !names_pairs_only {
                        Err(
                            self.refused(
                                Some(envelope),
                                "UNSUPPORTED_SCHEMA"@,
                                "unknown event type "@ + envelope.event_type,
                            ),
                        )
                    } else if expected != Some(envelope.schema_version) {
                        Err(
                            self.refused(
                                Some(envelope),
                                "UNSUPPORTED_SCHEMA"@,
                                "unknown type/version pair "@ + envelope.event_type + "/"@ + decimal(
                                    envelope.schema_version as nat,
                                ),
                            ),
                        )
                    } else {
                        match gate(facts, hash_of(payload), envelope.aggregate_version) {
                            Gate::Duplicate => Err(
                                (HandledView {
                                    outcome: HandleOutcome::Duplicate,
                                    effects: seq![EffectView::Rollback],
                                }),
                            ),
                            Gate::HashMismatch => Err(
                                self.rejected(
                                    envelope,
                                    "INBOX_HASH_MISMATCH"@,
                                    "same event id redelivered with a different payload"@,
                                ),
                            ),
                            Gate::Stale => Err(
                                (HandledView {
                                    outcome: HandleOutcome::Stale,
                                    effects: seq![self.noted(envelope)],
                                }),
                            ),
                            Gate::Gap => Err(
                                self.shelved(
                                    envelope,
                                    "EXPECTED_VERSION_GAP"@,
                                    "aggregate "@ + uuid_text(envelope.aggregate_id) + " version "@
                                        + signed_decimal(envelope.aggregate_version as int)
                                        + " arrived out of order"@,
                                ),
                            ),
                            Gate::Open => Ok(envelope),
                        }
                    }
                },
            },
        }
    }
}

impl<'a> Delivery<'a> {
    /// The dead letter for this delivery.
    pub fn write_letter<W: View>(
        &self,
        envelope: Option<RawEnvelope>,
        code: &str,
        detail: String,
    ) -> (r: Effect<W>)
        ensures
            r@ == self@.letter::<W::V>(opt_view(envelope), code@, detail@),
    {
        Effect::PublishDlq(
            write_dead_letter(
                self.consumer,
                self.source_topic,
                self.record,
                envelope,
                code,
                detail,
                self.now,
            ),
        )
    }

    /// Refuses a record before any transaction begins.
    pub fn refuse<W: View>(&self, envelope: Option<RawEnvelope>, code: &str, detail: String) -> (r:
        Handled<W>)
        ensures
            r@ == self@.refused::<W::V>(opt_view(envelope), code@, detail@),
    {
        only(HandleOutcome::Poison, self.write_letter(envelope, code, detail))
    }

    /// Refuses a record and gives its transaction up.
    pub fn reject<W: View>(&self, envelope: RawEnvelope, code: &str, detail: String) -> (r: Handled<
        W,
    >)
        ensures
            r@ == self@.rejected::<W::V>(envelope@, code@, detail@),
    {
        both(
            HandleOutcome::Poison,
            Effect::Rollback,
            self.write_letter(Some(envelope), code, detail),
        )
    }

    /// The inbox entry of this delivery.
    pub fn write_entry(&self, envelope: &RawEnvelope) -> (r: NewInboxEntry)
        ensures
            r@ == entry_for(self@.consumer, self@.source_topic, self@.record, envelope@),
    {
        NewInboxEntry {
            consumer_name: self.consumer.to_owned(),
            event_id: envelope.event_id,
            source_topic: self.source_topic.to_owned(),
            source_partition: SOURCE_PARTITION,
            source_offset: self.record.offset,
            aggregate_id: envelope.aggregate_id,
            aggregate_version: envelope.aggregate_version,
            payload_hash: payload_hash(&envelope.payload),
        }
    }

    /// Keeps the inbox entry of this delivery, processed, without any
    /// reaction.
    pub fn note<W: View>(&self, envelope: &RawEnvelope) -> (r: Effect<W>)
        ensures
            r@ == self@.noted::<W::V>(envelope@),
    {
        Effect::Commit(
            CommitSet {
                entry: self.write_entry(envelope),
                processed_at: self.now,
                advance_to: None,
                writes: None,
            },
        )
    }

    /// Refuses a record but keeps its inbox entry.
    pub fn shelve<W: View>(&self, envelope: RawEnvelope, code: &str, detail: String) -> (r: Handled<
        W,
    >)
        ensures
            r@ == self@.shelved::<W::V>(envelope@, code@, detail@),
    {
        let noted: Effect<W> = self.note(&envelope);
        both(HandleOutcome::Poison, noted, self.write_letter(Some(envelope), code, detail))
    }

    /// Commits a reaction together with the inbox entry.
    pub fn write_commit<W: View>(&self, envelope: &RawEnvelope, writes: W) -> (r: Effect<W>)
        ensures
            r@ == self@.commit::<W::V>(envelope@, writes@),
    {
        Effect::Commit(
            CommitSet {
                entry: self.write_entry(envelope),
                processed_at: self.now,
                advance_to: Some(envelope.aggregate_version),
                writes: Some(writes),
            },
        )
    }

    /// Applies a record.
    pub fn apply<W: View>(&self, envelope: &RawEnvelope, writes: W) -> (r: Handled<W>)
        ensures
            r@ == self@.applied::<W::V>(envelope@, writes@),
    {
        only(HandleOutcome::Applied, self.write_commit(envelope, writes))
    }

    /// Takes a record up to the point where the reaction is owed.
    pub fn screen<W: View>(
        &self,
        header: &Result<Envelope<()>, String>,
        expected: Option<u32>,
        names_pairs_only: bool,
        facts: &InboxFacts,
    ) -> (r: Result<RawEnvelope, Handled<W>>)
        ensures
            match (r, self@.screened::<W::V>(result_view(*header), expected, names_pairs_only, facts@)) {
                (Ok(envelope), Ok(owed)) => envelope@ == owed,
                (Err(handled), Err(verdict)) => handled@ == verdict,
                _ => false,
            },
    {
        let value = match &self.record.value {
            Some(value) => value,
            None => {
                return Err(
                    self.refuse(None, "MALFORMED_ENVELOPE", "record has no value".to_owned()),
                );
            },
        };
        let header = match header {
            Ok(header) => header,
            Err(error) => {
                let mut detail: String = "envelope did not parse as JSON: ".to_owned();
                detail.append(error.as_str());
                return Err(self.refuse(None, "MALFORMED_ENVELOPE", detail));
            },
        };
        let payload: Vec<u8> = match read_json_member(value.as_slice(), "payload") {
            Some(payload) => payload,
            None => {
                let mut detail: String = "envelope did not parse as JSON: ".to_owned();
                detail.append("missing field `payload`");
                return Err(self.refuse(None, "MALFORMED_ENVELOPE", detail));
            },
        };
        let envelope: RawEnvelope = fill(header, payload);
        match expected {
            None => {
                if !names_pairs_only {
                    let mut detail: String = "unknown event type ".to_owned();
                    detail.append(envelope.event_type.as_str());
                    return Err(self.refuse(Some(envelope), "UNSUPPORTED_SCHEMA", detail));
                }
                let detail: String = pair_detail(&envelope);
                return Err(self.refuse(Some(envelope), "UNSUPPORTED_SCHEMA", detail));
            },
            Some(version) => {
                if envelope.schema_version != version {
                    let detail: String = pair_detail(&envelope);
                    return Err(self.refuse(Some(envelope), "UNSUPPORTED_SCHEMA", detail));
                }
            },
        }
        let hash: String = payload_hash(&envelope.payload);
        match check_gate(facts, hash.as_str(), envelope.aggregate_version) {
            Gate::Duplicate => Err(only(HandleOutcome::Duplicate, Effect::Rollback)),
            Gate::HashMismatch => Err(
                self.reject(
                    envelope,
                    "INBOX_HASH_MISMATCH",
                    "same event id redelivered with a different payload".to_owned(),
                ),
            ),
            Gate::Stale => Err(only(HandleOutcome::Stale, self.note(&envelope))),
            Gate::Gap => {
                let mut detail: String = "aggregate ".to_owned();
                detail.append(id_text(envelope.aggregate_id).as_str());
                detail.append(" version ");
                detail.append(i64_text(envelope.aggregate_version).as_str());
                detail.append(" arrived out of order");
                Err(self.shelve(envelope, "EXPECTED_VERSION_GAP", detail))
            },
            Gate::Open => Ok(envelope),
        }
    }
}

/// The view of the result of reading an envelope.
pub open spec fn result_view<P: View>(header: Result<Envelope<P>, String>) -> Result<
    EnvelopeView<P::V>,
    Seq<char>,
> {
    match header {
        Ok(envelope) => Ok(envelope@),
        Err(error) => Err(error@),
    }
}

/// The refusal of a type and version that do not go together.
fn pair_detail(envelope: &RawEnvelope) -> (r: String)
    ensures
        r@ == "unknown type/version pair "@ + envelope@.event_type + "/"@ + decimal(
            envelope@.schema_version as nat,
        ),
{
    let mut detail: String = "unknown type/version pair ".to_owned();
    detail.append(envelope.event_type.as_str());
    detail.append("/");
    detail.append(u64_text(envelope.schema_version as u64).as_str());
    detail
}

/// The counts of a handled batch.
#[derive(Debug, Clone, Copy, PartialEq, Eq, Structural)]
pub struct ProcessSummary {
    pub records_seen: usize,
    pub applied: usize,
    pub duplicate: usize,
    pub stale: usize,
    pub poison: usize,
    pub stopped_by_fault: bool,
}

impl Default for ProcessSummary {
    fn default() -> (r: ProcessSummary)
        ensures
            r == (ProcessSummary {
                records_seen: 0,
                applied: 0,
                duplicate: 0,
                stale: 0,
                poison: 0,
                stopped_by_fault: false,
            }),
    {
        ProcessSummary {
            records_seen: 0,
            applied: 0,
            duplicate: 0,
            stale: 0,
            poison: 0,
            stopped_by_fault: false,
        }
    }
}

impl ProcessSummary {
    /// How many records were handled.
    pub open spec fn handled(self) -> int {
        self.applied + self.duplicate + self.stale + self.poison
    }

    /// The summary with one more record that ended in `outcome`.
    pub open spec fn with(self, outcome: HandleOutcome) -> ProcessSummary {
        match outcome {
            HandleOutcome::Applied => ProcessSummary {
                applied: (self.applied + 1) as usize,
                ..self
            },
            HandleOutcome::Duplicate => ProcessSummary {
                duplicate: (self.duplicate + 1) as usize,
                ..self
            },
            HandleOutcome::Stale => ProcessSummary { stale: (self.stale + 1) as usize, ..self },
            HandleOutcome::Poison => ProcessSummary { poison: (self.poison + 1) as usize, ..self },
        }
    }
}

/// The label under which an outcome is counted.
pub open spec fn label_of(outcome: HandleOutcome) -> Seq<char> {
    match outcome {
        HandleOutcome::Applied => "applied"@,
        HandleOutcome::Duplicate => "duplicate"@,
        HandleOutcome::Stale => "stale"@,
        HandleOutcome::Poison => "poison"@,
    }
}

/// The label under which an outcome is counted.
pub fn outcome_label(outcome: HandleOutcome) -> (r: &'static str)
    ensures
        r@ == label_of(outcome),
{
    match outcome {
        HandleOutcome::Applied => "applied",
        HandleOutcome::Duplicate => "duplicate",
        HandleOutcome::Stale => "stale",
        HandleOutcome::Poison => "poison",
    }
}

/// How a batch goes on after a record.
#[derive(Debug, Clone, Copy, PartialEq, Eq, Structural)]
pub enum BatchStep {
    /// Commit the offset, if there is one, and take the next record.
    Continue { commit: Option<i64> },
    /// A fault fired: wait, and stop without committing an offset.
    Stop { delay_ms: Option<u64> },
}

/// A batch of fetched records on its way: the counts so far, and the offsets
/// that are done.
pub struct Batch {
    pub summary: ProcessSummary,
    pub tracker: ContiguousOffsetTracker,
}

impl Batch {
    /// The counts do not exceed the records.
    pub open spec fn valid(self) -> bool {
        &&& self.tracker.valid()
        &&& self.summary.handled() <= self.summary.records_seen
    }

    /// A batch of `records_seen` records from `start_offset` on.
    pub fn start(start_offset: i64, records_seen: usize) -> (r: Batch)
        ensures
            r.valid(),
            r.summary == (ProcessSummary {
                records_seen,
                applied: 0,
                duplicate: 0,
                stale: 0,
                poison: 0,
                stopped_by_fault: false,
            }),
            r.tracker.start() == start_offset,
            r.tracker.next() == start_offset,
            r.tracker.done() == Set::<int>::empty(),
    {
        Batch {
            summary: ProcessSummary {
                records_seen,
                applied: 0,
                duplicate: 0,
                stale: 0,
                poison: 0,
                stopped_by_fault: false,
            },
            tracker: ContiguousOffsetTracker::new(start_offset),
        }
    }

    /// Counts a handled record.
    fn tally(&mut self, outcome: HandleOutcome)
        requires
            old(self).valid(),
            old(self).summary.handled() < old(self).summary.records_seen,
        ensures
            final(self).valid(),
            final(self).tracker == old(self).tracker,
            final(self).summary == old(self).summary.with(outcome),
    {
        match outcome {
            HandleOutcome::Applied => {
                self.summary.applied = self.summary.applied + 1;
            },
            HandleOutcome::Duplicate => {
                self.summary.duplicate = self.summary.duplicate + 1;
            },
            HandleOutcome::Stale => {
                self.summary.stale = self.summary.stale + 1;
            },
            HandleOutcome::Poison => {
                self.summary.poison = self.summary.poison + 1;
            },
        }
    }

    /// Takes note of a record that was handled, whatever became of it. The
    /// fault point between the handling and the commit of the offset is asked
    /// with the offset as its subject; where it fires, the batch stops and
    /// the offset stays. Otherwise the record is done, and the offset to
    /// resume from is committed where the run of done records has grown.
    pub fn settle(
        &mut self,
        outcome: HandleOutcome,
        offset: i64,
        faults: &mut FaultInjector,
        fault_point: &str,
    ) -> (r: BatchStep)
        requires
            old(self).valid(),
            old(self).summary.handled() < old(self).summary.records_seen,
            offset < i64::MAX,
        ensures
            final(self).valid(),
            ({
                let fault = fires(
                    old(faults)@,
                    fault_point@,
                    Some(signed_decimal(offset as int)),
                );
                if fault {
                    &&& r == (BatchStep::Stop { delay_ms: old(faults)@[fault_point@].delay_ms })
                    &&& final(self).summary == (ProcessSummary {
                        stopped_by_fault: true,
                        ..old(self).summary.with(outcome)
                    })
                    &&& final(self).tracker == old(self).tracker
                    &&& final(faults)@ == after_firing(old(faults)@, fault_point@)
                } else {
                    &&& final(self).summary == old(self).summary.with(outcome)
                    &&& final(self).tracker.start() == old(self).tracker.start()
                    &&& final(self).tracker.done() == old(self).tracker.done().insert(offset as int)
                    &&& final(self).tracker.next() >= old(self).tracker.next()
                    &&& forall|k: int|
                        old(self).tracker.start() <= k < final(self).tracker.next()
                            ==> final(self).tracker.done().contains(k)
                    &&& !final(self).tracker.done().contains(final(self).tracker.next())
                    &&& r == (BatchStep::Continue {
                        commit: if final(self).tracker.next() > old(self).tracker.next() {
                            Some(final(self).tracker.next() as i64)
                        } else {
                            None
                        },
                    })
                    &&& final(faults)@ == old(faults)@
                }
            }),
    {
        self.tally(outcome);
        let subject: String = i64_text(offset);
        match faults.check(fault_point, Some(subject.as_str())) {
            Err((_, delay_ms)) => {
                self.summary.stopped_by_fault = true;
                BatchStep::Stop { delay_ms }
            },
            Ok(()) => {
                let commit: Option<i64> = self.tracker.complete(offset);
                BatchStep::Continue { commit }
            },
        }
    }
}

/// The writes that a list of effects commits.
pub open spec fn committed<W>(effects: Seq<EffectView<W>>) -> Option<W>
    decreases effects.len(),
{
    if effects.len() == 0 {
        None
    } else {
        match effects.first() {
            EffectView::Commit(set) => if set.writes is Some {
                set.writes
            } else {
                committed(effects.drop_first())
            },
            _ => committed(effects.drop_first()),
        }
    }
}

/// What the inbox of one consumer holds: the payload hash of every event that
/// it took, and the last version of every aggregate.
pub struct LedgerView {
    pub hashes: Map<u128, Seq<char>>,
    pub versions: Map<u128, i64>,
}

impl LedgerView {
    /// What the inbox says of an event.
    pub open spec fn facts(self, envelope: RawView) -> InboxFactsView {
        InboxFactsView {
            claimed_hash: if self.hashes.dom().contains(envelope.event_id) {
                Some(self.hashes[envelope.event_id])
            } else {
                None
            },
            last_version: if self.versions.dom().contains(envelope.aggregate_id) {
                Some(self.versions[envelope.aggregate_id])
            } else {
                None
            },
        }
    }

    /// The inbox after an effect.
    pub open spec fn after<W>(self, effect: EffectView<W>) -> LedgerView {
        match effect {
            EffectView::Commit(set) => LedgerView {
                hashes: self.hashes.insert(set.entry.event_id, set.entry.payload_hash),
                versions: match set.advance_to {
                    Some(version) => self.versions.insert(set.entry.aggregate_id, version),
                    None => self.versions,
                },
            },
            _ => self,
        }
    }

    /// The inbox after a list of effects.
    pub open spec fn after_all<W>(self, effects: Seq<EffectView<W>>) -> LedgerView
        decreases effects.len(),
    {
        if effects.len() == 0 {
            self
        } else {
            self.after(effects.first()).after_all(effects.drop_first())
        }
    }
}

/// A record that stops on its way to the reaction commits no writes; refused
/// for good, it leaves a dead letter.
pub proof fn stopped_records_write_nothing<W>(
    delivery: DeliveryView,
    header: Result<EnvelopeView<()>, Seq<char>>,
    expected: Option<u32>,
    names_pairs_only: bool,
    facts: InboxFactsView,
)
    requires
        delivery.screened::<W>(header, expected, names_pairs_only, facts) is Err,
    ensures
        ({
            let stopped = delivery.screened::<W>(header, expected, names_pairs_only, facts)->Err_0;
            &&& !(stopped.outcome is Applied)
            &&& committed(stopped.effects) is None
            &&& stopped.outcome is Poison ==> stopped.effects.last() is PublishDlq
        }),
{
    let stopped = delivery.screened::<W>(header, expected, names_pairs_only, facts)->Err_0;
    let rest = stopped.effects.drop_first();
    reveal_with_fuel(committed, 3);
    assert(stopped.effects.len() == 1 || stopped.effects.len() == 2);
    assert(stopped.effects.len() == 1 ==> rest.len() == 0);
    if stopped.effects.len() == 2 {
        assert(rest.len() == 1);
        assert(rest.first() == stopped.effects[1]);
        assert(rest.drop_first().len() == 0);
    }
}

/// The record can be read, its header is understood in its first version, it
/// is new, and it is next in line; `envelope` is what it holds.
pub open spec fn in_line(
    delivery: DeliveryView,
    header: EnvelopeView<()>,
    facts: InboxFactsView,
    envelope: RawView,
) -> bool {
    &&& delivery.record.value is Some
    &&& json_member(delivery.record.value->0, "payload"@) == Some(envelope.payload)
    &&& header.schema_version == 1
    &&& envelope.event_id == header.event_id
    &&& envelope.event_type == header.event_type
    &&& envelope.schema_version == header.schema_version
    &&& envelope.occurred_at == header.occurred_at
    &&& envelope.producer == header.producer
    &&& envelope.aggregate_type == header.aggregate_type
    &&& envelope.aggregate_id == header.aggregate_id
    &&& envelope.aggregate_version == header.aggregate_version
    &&& envelope.correlation_id == header.correlation_id
    &&& envelope.causation_id == header.causation_id
    &&& envelope.traceparent == header.traceparent
    &&& facts.claimed_hash is None
    &&& facts.last_version matches Some(last) ==> header.aggregate_version == last + 1
    &&& facts.last_version is None ==> header.aggregate_version == 1
}

/// A record that is dropped as a duplicate.
pub open spec fn dropped<W>() -> HandledView<W> {
    HandledView { outcome: HandleOutcome::Duplicate, effects: seq![EffectView::Rollback] }
}

proof fn lemma_ledger_after_all<W>(
    ledger: LedgerView,
    effects: Seq<EffectView<W>>,
    entry: EntryView,
    at: int,
)
    requires
        0 <= at < effects.len(),
        effects[at] is Commit,
        forall|i: int|
            0 <= i < effects.len() && #[trigger] effects[i] is Commit ==> effects[i]->Commit_0.entry
                == entry,
    ensures
        ledger.after_all(effects).hashes.dom().contains(entry.event_id),
        ledger.after_all(effects).hashes[entry.event_id] == entry.payload_hash,
    decreases effects.len(),
{
    let rest = effects.drop_first();
    let next = ledger.after(effects.first());
    assert forall|i: int|
        0 <= i < rest.len() && #[trigger] rest[i] is Commit implies rest[i]->Commit_0.entry
        == entry by {
        assert(rest[i] == effects[i + 1]);
    }
    if at > 0 {
        assert(rest[at - 1] == effects[at]);
        lemma_ledger_after_all(next, rest, entry, at - 1);
    } else {
        assert(effects.first() == effects[0]);
        lemma_ledger_keeps(next, rest, entry);
    }
}

proof fn lemma_ledger_keeps<W>(ledger: LedgerView, effects: Seq<EffectView<W>>, entry: EntryView)
    requires
        ledger.hashes.dom().contains(entry.event_id),
        ledger.hashes[entry.event_id] == entry.payload_hash,
        forall|i: int|
            0 <= i < effects.len() && #[trigger] effects[i] is Commit ==> effects[i]->Commit_0.entry
                == entry,
    ensures
        ledger.after_all(effects).hashes.dom().contains(entry.event_id),
        ledger.after_all(effects).hashes[entry.event_id] == entry.payload_hash,
    decreases effects.len(),
{
    if effects.len() > 0 {
        let rest = effects.drop_first();
        assert(effects.first() == effects[0]);
        assert forall|i: int|
            0 <= i < rest.len() && #[trigger] rest[i] is Commit implies rest[i]->Commit_0.entry
            == entry by {
            assert(rest[i] == effects[i + 1]);
        }
        lemma_ledger_keeps(ledger.after(effects.first()), rest, entry);
    }
}

/// An event whose inbox entry was committed, with a reaction or without, is a
/// duplicate from then on: it is dropped without any effect on the tables,
/// wherever and whenever it is delivered again.
pub proof fn taken_events_become_duplicates<W>(
    delivery: DeliveryView,
    again: DeliveryView,
    header: EnvelopeView<()>,
    expected: Option<u32>,
    names_pairs_only: bool,
    ledger: LedgerView,
    effects: Seq<EffectView<W>>,
    at: int,
)
    requires
        again.consumer == delivery.consumer,
        again.record.value == delivery.record.value,
        delivery.readable(),
        expected == Some(header.schema_version),
        0 <= at < effects.len(),
        effects[at] is Commit,
        forall|i: int|
            0 <= i < effects.len() && #[trigger] effects[i] is Commit ==> effects[i]->Commit_0.entry
                == delivery.entry(delivery.envelope(header)),
    ensures
        again.screened::<W>(
            Ok(header),
            expected,
            names_pairs_only,
            ledger.after_all(effects).facts(delivery.envelope(header)),
        ) == Err::<RawView, HandledView<W>>(dropped()),
{
    let entry = delivery.entry(delivery.envelope(header));
    lemma_ledger_after_all(ledger, effects, entry, at);
}

/// The same event identifier with another payload is refused and leaves the
/// tables alone.
pub proof fn reused_event_ids_are_refused<W>(
    delivery: DeliveryView,
    header: EnvelopeView<()>,
    expected: Option<u32>,
    names_pairs_only: bool,
    ledger: LedgerView,
    envelope: RawView,
)
    requires
        delivery.readable(),
        envelope == delivery.envelope(header),
        expected == Some(envelope.schema_version),
        ledger.hashes.dom().contains(envelope.event_id),
        ledger.hashes[envelope.event_id] != hash_of(envelope.payload),
    ensures
        ({
            let r = delivery.screened::<W>(
                Ok(header),
                expected,
                names_pairs_only,
                ledger.facts(envelope),
            );
            &&& r is Err
            &&& r->Err_0.outcome is Poison
            &&& ledger.after_all(r->Err_0.effects) == ledger
        }),
{
    let r = delivery.screened::<W>(Ok(header), expected, names_pairs_only, ledger.facts(envelope));
    let effects = r->Err_0.effects;
    let rest = effects.drop_first();
    reveal_with_fuel(LedgerView::after_all, 3);
    assert(rest.len() == 1);
    assert(rest.first() == effects[1]);
    assert(rest.drop_first().len() == 0);
}

/// A record that leaves a gap is put aside once: a dead letter tells of it,
/// its inbox entry is committed without a reaction, and from then on it is a
/// duplicate, which sends no second letter.
pub proof fn gaps_are_put_aside_once<W>(
    delivery: DeliveryView,
    again: DeliveryView,
    header: EnvelopeView<()>,
    expected: Option<u32>,
    names_pairs_only: bool,
    ledger: LedgerView,
)
    requires
        again.consumer == delivery.consumer,
        again.record.value == delivery.record.value,
        delivery.readable(),
        expected == Some(header.schema_version),
        gate(
            ledger.facts(delivery.envelope(header)),
            hash_of(delivery.envelope(header).payload),
            header.aggregate_version,
        ) is Gap,
    ensures
        ({
            let envelope = delivery.envelope(header);
            let first = delivery.screened::<W>(
                Ok(header),
                expected,
                names_pairs_only,
                ledger.facts(envelope),
            );
            let effects = first->Err_0.effects;
            &&& first is Err
            &&& first->Err_0.outcome is Poison
            &&& effects.len() == 2
            &&& effects[1] matches EffectView::PublishDlq(letter) && letter.error_code
                == "EXPECTED_VERSION_GAP"@ && letter.envelope == Some(envelope)
            &&& committed(effects) is None
            &&& again.screened::<W>(
                Ok(header),
                expected,
                names_pairs_only,
                ledger.after_all(effects).facts(envelope),
            ) == Err::<RawView, HandledView<W>>(dropped())
        }),
{
    let envelope = delivery.envelope(header);
    let facts = ledger.facts(envelope);
    let first = delivery.screened::<W>(Ok(header), expected, names_pairs_only, facts);
    let effects = first->Err_0.effects;
    stopped_records_write_nothing::<W>(delivery, Ok(header), expected, names_pairs_only, facts);
    assert(effects[0] is Commit);
    taken_events_become_duplicates::<W>(
        delivery,
        again,
        header,
        expected,
        names_pairs_only,
        ledger,
        effects,
        0,
    );
}

/// Events of one aggregate are applied in the order of their versions: after
/// version `v` is applied, exactly version `v + 1` is next, everything up to
/// `v` is stale, and everything beyond is a gap.
pub proof fn versions_apply_in_sequence(
    ledger: LedgerView,
    applied: RawView,
    next: RawView,
    consumer: Seq<char>,
    source_topic: Seq<char>,
    record: RecordView,
    now: Timestamp,
)
    requires
        next.aggregate_id == applied.aggregate_id,
        next.event_id != applied.event_id,
        !ledger.hashes.dom().contains(next.event_id),
    ensures
        ({
            let delivery = DeliveryView { consumer, source_topic, record, now };
            let later = ledger.after(delivery.commit(applied, ()));
            let verdict = gate(
                later.facts(next),
                hash_of(next.payload),
                next.aggregate_version,
            );
            &&& verdict is Open <==> next.aggregate_version == applied.aggregate_version + 1
            &&& verdict is Stale <==> next.aggregate_version <= applied.aggregate_version
            &&& verdict is Gap <==> next.aggregate_version > applied.aggregate_version + 1
        }),
{
}

}
