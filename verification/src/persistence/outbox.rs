//! The transactional outbox: messages are stored together with the change
//! that they announce and published from the store.

use vstd::arithmetic::power2::*;
use vstd::prelude::*;
use vstd::utf8::*;

use crate::consuming::{RawEnvelope, RawView};
use crate::contracts::{Envelope, EnvelopeView, EventPayload, EventPayloadView};
use crate::digest::{compact_json, json_compact, json_text_member, read_json_text_member};
use crate::domain_common::is_version_7;
use crate::ids::{fresh_id, id_text};
use crate::model::{copy_bytes, copy_opt_text, opt_view, views};
use crate::persistence::dlq::{text_header, Header};
use crate::test_support::fault::{after_firing, fires, FaultInjector};
use crate::text::{join, uuid_text};
use crate::time::{first_instant, last_instant, longest_span, Span, Timestamp};

verus! {

/// A message to store together with a change.
#[derive(Debug)]
pub struct NewOutboxEvent {
    pub id: u128,
    pub aggregate_type: String,
    pub aggregate_id: u128,
    pub aggregate_version: i64,
    pub topic: String,
    pub message_key: String,
    pub envelope: Envelope<EventPayload>,
}

/// What a [`NewOutboxEvent`] says.
pub struct OutboxView {
    pub id: u128,
    pub aggregate_type: Seq<char>,
    pub aggregate_id: u128,
    pub aggregate_version: i64,
    pub topic: Seq<char>,
    pub message_key: Seq<char>,
    pub envelope: EnvelopeView<EventPayloadView>,
}

impl View for NewOutboxEvent {
    type V = OutboxView;

    open spec fn view(&self) -> OutboxView {
        OutboxView {
            id: self.id,
            aggregate_type: self.aggregate_type@,
            aggregate_id: self.aggregate_id,
            aggregate_version: self.aggregate_version,
            topic: self.topic@,
            message_key: self.message_key@,
            envelope: self.envelope@,
        }
    }
}

/// The kind of a message: its type and version, who sends it, the kind of
/// aggregate it speaks of, and the topic it goes to.
#[derive(Debug, Clone, Copy)]
pub struct MessageKind {
    pub event_type: &'static str,
    pub schema_version: u32,
    pub producer: &'static str,
    pub aggregate_type: &'static str,
    pub topic: &'static str,
}

/// The message of the given kind that answers `trigger`: it belongs to the
/// same journey, names the trigger as its cause, and passes the trace on.
pub open spec fn reply_to(
    trigger: RawView,
    kind: MessageKind,
    aggregate_id: u128,
    aggregate_version: i64,
    order_id: u128,
    event_id: u128,
    now: Timestamp,
    payload: EventPayloadView,
) -> OutboxView {
    OutboxView {
        id: event_id,
        aggregate_type: kind.aggregate_type@,
        aggregate_id,
        aggregate_version,
        topic: kind.topic@,
        message_key: uuid_text(order_id),
        envelope: EnvelopeView {
            event_id,
            event_type: kind.event_type@,
            schema_version: kind.schema_version,
            occurred_at: now,
            producer: kind.producer@,
            aggregate_type: kind.aggregate_type@,
            aggregate_id,
            aggregate_version,
            correlation_id: trigger.correlation_id,
            causation_id: trigger.event_id,
            traceparent: trigger.traceparent,
            payload,
        },
    }
}

/// The message belongs to the journey of `trigger`, passes its trace on, and
/// names it as its cause.
pub open spec fn in_chain(trigger: RawView, message: OutboxView) -> bool {
    &&& message.envelope.correlation_id == trigger.correlation_id
    &&& message.envelope.causation_id == trigger.event_id
    &&& message.envelope.traceparent == trigger.traceparent
    &&& message.envelope.event_id == message.id
}

/// Everything about a message but what it says: its kind, whom it is from,
/// where it goes, which aggregate it speaks of in which version, the order
/// whose key it bears, its identifier and moment, and that it answers
/// `trigger`.
pub open spec fn answers(
    message: OutboxView,
    trigger: RawView,
    event_type: Seq<char>,
    producer: Seq<char>,
    topic: Seq<char>,
    aggregate_type: Seq<char>,
    aggregate_id: u128,
    aggregate_version: int,
    order_id: u128,
    event_id: u128,
    now: Timestamp,
) -> bool {
    &&& message.id == event_id
    &&& message.topic == topic
    &&& message.message_key == uuid_text(order_id)
    &&& message.aggregate_type == aggregate_type
    &&& message.aggregate_id == aggregate_id
    &&& message.aggregate_version == aggregate_version
    &&& message.envelope.event_id == event_id
    &&& message.envelope.event_type == event_type
    &&& message.envelope.schema_version == 1
    &&& message.envelope.occurred_at == now
    &&& message.envelope.producer == producer
    &&& message.envelope.aggregate_type == aggregate_type
    &&& message.envelope.aggregate_id == aggregate_id
    &&& message.envelope.aggregate_version == aggregate_version
    &&& message.envelope.correlation_id == trigger.correlation_id
    &&& message.envelope.causation_id == trigger.event_id
    &&& message.envelope.traceparent == trigger.traceparent
}

/// Every message of the sequence belongs to the journey of `trigger`.
pub open spec fn all_in_chain(trigger: RawView, messages: Seq<OutboxView>) -> bool {
    forall|i: int| 0 <= i < messages.len() ==> in_chain(trigger, #[trigger] messages[i])
}

/// Builds the message that answers `trigger`.
pub fn build_reply(
    trigger: &RawEnvelope,
    kind: MessageKind,
    aggregate_id: u128,
    aggregate_version: i64,
    order_id: u128,
    event_id: u128,
    now: Timestamp,
    payload: EventPayload,
) -> (r: NewOutboxEvent)
    ensures
        r@ == reply_to(
            trigger@,
            kind,
            aggregate_id,
            aggregate_version,
            order_id,
            event_id,
            now,
            payload@,
        ),
{
    NewOutboxEvent {
        id: event_id,
        aggregate_type: kind.aggregate_type.to_owned(),
        aggregate_id,
        aggregate_version,
        topic: kind.topic.to_owned(),
        message_key: id_text(order_id),
        envelope: Envelope {
            event_id,
            event_type: kind.event_type.to_owned(),
            schema_version: kind.schema_version,
            occurred_at: now,
            producer: kind.producer.to_owned(),
            aggregate_type: kind.aggregate_type.to_owned(),
            aggregate_id,
            aggregate_version,
            correlation_id: trigger.correlation_id,
            causation_id: trigger.event_id,
            traceparent: copy_opt_text(&trigger.traceparent),
            payload,
        },
    }
}

/// How the publisher works.
#[derive(Debug)]
pub struct PublisherConfig {
    pub claimed_by: String,
    pub batch_size: i64,
    pub lease_nanos: i128,
    pub poll_interval: Span,
    pub backoff_base: Span,
    pub backoff_cap: Span,
}

impl PublisherConfig {
    /// The spans are well formed.
    pub open spec fn valid(self) -> bool {
        self.poll_interval.valid() && self.backoff_base.valid() && self.backoff_cap.valid()
    }
}

impl Default for PublisherConfig {
    fn default() -> (r: PublisherConfig)
        ensures
            r.valid(),
            exists|id: u128|
                r.claimed_by@ == "publisher-"@ + #[trigger] uuid_text(id) && is_version_7(id),
            r.batch_size == 20,
            r.lease_nanos == 30_000_000_000,
            r.poll_interval.length() == 200_000_000,
            r.backoff_base.length() == 100_000_000,
            r.backoff_cap.length() == 30_000_000_000,
    {
        let id: u128 = fresh_id();
        PublisherConfig {
            claimed_by: join("publisher-", id_text(id).as_str()),
            batch_size: 20,
            lease_nanos: 30_000_000_000,
            poll_interval: Span::from_millis(200),
            backoff_base: Span::from_millis(100),
            backoff_cap: Span::from_secs(30),
        }
    }
}

/// The factor of the backoff after `attempts` failures: it doubles with each,
/// as far as 32 bits go.
pub open spec fn backoff_factor(attempts: u32) -> int {
    if attempts < 32 {
        pow2(attempts as nat) as int
    } else {
        u32::MAX as int
    }
}

/// The longest wait after `attempts` failures: the base times its factor, but
/// no longer than a span can be and no longer than the cap.
pub open spec fn longest_wait(attempts: u32, base: Span, cap: Span) -> int {
    let grown = base.length() * backoff_factor(attempts);
    let held = if grown <= longest_span() {
        grown
    } else {
        longest_span()
    };
    if cap.length() < held {
        cap.length()
    } else {
        held
    }
}

fn doubled(attempts: u32) -> (r: u32)
    ensures
        r == backoff_factor(attempts),
{
    if attempts >= 32 {
        return u32::MAX;
    }
    let mut factor: u32 = 1;
    let mut i: u32 = 0;
    proof {
        lemma2_to64();
    }
    while i < attempts
        invariant
            i <= attempts < 32,
            factor == pow2(i as nat),
        decreases attempts - i,
    {
        proof {
            lemma2_to64();
            lemma_pow2_unfold((i + 1) as nat);
            if i + 1 < 31 {
                lemma_pow2_strictly_increases((i + 1) as nat, 31);
            }
        }
        factor = factor * 2;
        i = i + 1;
    }
    factor
}

/// The longest wait after `attempts` failures.
pub fn backoff_limit(attempts: u32, base: Span, cap: Span) -> (r: Span)
    requires
        base.valid(),
        cap.valid(),
    ensures
        r.valid(),
        r.length() == longest_wait(attempts, base, cap),
{
    base.saturating_times(doubled(attempts)).shorter(cap)
}

/// Calls `rand::thread_rng().gen_range` on the spans from zero to `upper`. The
/// span that comes back is drawn by chance; it is one of these.
#[verifier::external_body]
fn random_span(upper: Span) -> (r: Span)
    requires
        upper.valid(),
    ensures
        r.valid(),
        r.length() <= upper.length(),
{
    let upper = std::time::Duration::new(upper.secs, upper.nanos);
    let drawn = rand::Rng::gen_range(&mut rand::thread_rng(), std::time::Duration::ZERO..=upper);
    Span { secs: drawn.as_secs(), nanos: drawn.subsec_nanos() }
}

/// A random wait between nothing and the longest wait after `attempts`
/// failures.
pub fn full_jitter_backoff(attempts: u32, base: Span, cap: Span) -> (r: Span)
    requires
        base.valid(),
        cap.valid(),
    ensures
        r.valid(),
        0 <= r.length() <= longest_wait(attempts, base, cap),
{
    let upper: Span = backoff_limit(attempts, base, cap);
    if upper.secs == 0 && upper.nanos == 0 {
        return Span { secs: 0, nanos: 0 };
    }
    random_span(upper)
}

/// A wait never exceeds the cap, and never shrinks with more failures.
pub proof fn waits_grow_up_to_the_cap(attempts: u32, base: Span, cap: Span)
    requires
        base.valid(),
        cap.valid(),
        attempts < u32::MAX,
    ensures
        0 <= longest_wait(attempts, base, cap) <= cap.length(),
        longest_wait(attempts, base, cap) <= longest_wait((attempts + 1) as u32, base, cap),
        attempts == 0 && base.length() <= cap.length() ==> longest_wait(attempts, base, cap)
            == base.length(),
{
    lemma2_to64();
    let a = backoff_factor(attempts);
    let b = backoff_factor((attempts + 1) as u32);
    if attempts < 31 {
        lemma_pow2_strictly_increases(attempts as nat, (attempts + 1) as nat);
    } else if attempts == 31 {
        assert(pow2(31) == 0x8000_0000);
    }
    assert(0 < a <= b) by {
        if attempts < 32 && attempts > 0 {
            lemma_pow2_strictly_increases(0, attempts as nat);
        }
    }
    assert(0 <= base.length() * a <= base.length() * b) by (nonlinear_arith)
        requires
            0 <= base.length(),
            0 < a <= b,
    ;
    if attempts == 0 {
        assert(base.length() * a == base.length()) by (nonlinear_arith)
            requires
                a == 1,
        ;
    }
}

/// A stored message with the state of its publication.
#[derive(Debug)]
pub struct OutboxRow {
    pub id: u128,
    pub aggregate_type: String,
    pub aggregate_id: u128,
    pub aggregate_version: i64,
    pub topic: String,
    pub message_key: String,
    /// The envelope as JSON text.
    pub envelope: Vec<u8>,
    pub created_at: Timestamp,
    pub published_at: Option<Timestamp>,
    pub next_attempt_at: Timestamp,
    pub claimed_by: Option<String>,
    pub claimed_until: Option<Timestamp>,
    pub attempts: i32,
    pub last_error: Option<String>,
}

/// The publication state of an [`OutboxRow`], with the row's identity and
/// age.
pub struct OutboxState {
    pub id: u128,
    pub created_at: Timestamp,
    pub published_at: Option<Timestamp>,
    pub next_attempt_at: Timestamp,
    pub claimed_by: Option<Seq<char>>,
    pub claimed_until: Option<Timestamp>,
    pub attempts: i32,
    pub last_error: Option<Seq<char>>,
}

impl View for OutboxRow {
    type V = OutboxState;

    open spec fn view(&self) -> OutboxState {
        OutboxState {
            id: self.id,
            created_at: self.created_at,
            published_at: self.published_at,
            next_attempt_at: self.next_attempt_at,
            claimed_by: opt_view(self.claimed_by),
            claimed_until: self.claimed_until,
            attempts: self.attempts,
            last_error: opt_view(self.last_error),
        }
    }
}

impl OutboxRow {
    /// Two rows hold the same message.
    pub open spec fn same_message(self, other: OutboxRow) -> bool {
        &&& self.id == other.id
        &&& self.aggregate_type == other.aggregate_type
        &&& self.aggregate_id == other.aggregate_id
        &&& self.aggregate_version == other.aggregate_version
        &&& self.topic == other.topic
        &&& self.message_key == other.message_key
        &&& self.envelope == other.envelope
        &&& self.created_at == other.created_at
    }
}

impl OutboxState {
    /// The times are well formed.
    pub open spec fn valid(self) -> bool {
        &&& self.created_at.valid()
        &&& self.next_attempt_at.valid()
        &&& self.claimed_until is Some ==> self.claimed_until->0.valid()
    }

    /// The message waits, its next attempt is due, and no live lease holds it.
    pub open spec fn claimable(self, now: Timestamp) -> bool {
        &&& self.published_at is None
        &&& self.next_attempt_at.instant() <= now.instant()
        &&& self.claimed_until is None || self.claimed_until->0.instant() < now.instant()
    }

    /// The order in which messages are claimed: the oldest first.
    pub open spec fn before(self, other: OutboxState) -> bool {
        self.created_at.instant() < other.created_at.instant() || (self.created_at.instant()
            == other.created_at.instant() && self.id < other.id)
    }

    /// The row after it was claimed.
    pub open spec fn claimed(self, by: Seq<char>, until: Timestamp) -> OutboxState {
        OutboxState { claimed_by: Some(by), claimed_until: Some(until), ..self }
    }

    /// The row after it was published.
    pub open spec fn published(self, now: Timestamp) -> OutboxState {
        OutboxState { published_at: Some(now), ..self }
    }

    /// The row after an attempt failed: one attempt more, the claim given
    /// back, and the next attempt set.
    pub open spec fn failed(self, next_attempt_at: Timestamp, error: Seq<char>) -> OutboxState {
        OutboxState {
            attempts: (self.attempts + 1) as i32,
            last_error: Some(error),
            next_attempt_at,
            claimed_by: None,
            claimed_until: None,
            ..self
        }
    }
}

/// A new row is due at once.
pub fn insert(event: &NewOutboxEvent, envelope: Vec<u8>, now: Timestamp) -> (r: OutboxRow)
    ensures
        r.id == event.id,
        r.aggregate_type == event.aggregate_type,
        r.aggregate_id == event.aggregate_id,
        r.aggregate_version == event.aggregate_version,
        r.topic == event.topic,
        r.message_key == event.message_key,
        r.envelope == envelope,
        r@ == (OutboxState {
            id: event.id,
            created_at: now,
            published_at: None,
            next_attempt_at: now,
            claimed_by: None,
            claimed_until: None,
            attempts: 0,
            last_error: None,
        }),
{
    OutboxRow {
        id: event.id,
        aggregate_type: event.aggregate_type.clone(),
        aggregate_id: event.aggregate_id,
        aggregate_version: event.aggregate_version,
        topic: event.topic.clone(),
        message_key: event.message_key.clone(),
        envelope,
        created_at: now,
        published_at: None,
        next_attempt_at: now,
        claimed_by: None,
        claimed_until: None,
        attempts: 0,
        last_error: None,
    }
}

/// A message that a publisher has claimed.
#[derive(Debug)]
pub struct ClaimedOutboxEvent {
    pub id: u128,
    pub aggregate_type: String,
    pub aggregate_id: u128,
    pub aggregate_version: i64,
    pub topic: String,
    pub message_key: String,
    /// The envelope as JSON text.
    pub envelope: Vec<u8>,
    pub created_at: Timestamp,
    pub attempts: i32,
    /// Whether an expired claim was taken over.
    pub was_previously_claimed: bool,
}

impl ClaimedOutboxEvent {
    /// The claim on `row`.
    pub open spec fn claims(self, row: OutboxRow) -> bool {
        &&& self.id == row.id
        &&& self.aggregate_type == row.aggregate_type
        &&& self.aggregate_id == row.aggregate_id
        &&& self.aggregate_version == row.aggregate_version
        &&& self.topic == row.topic
        &&& self.message_key == row.message_key
        &&& self.envelope@ == row.envelope@
        &&& self.created_at == row.created_at
        &&& self.attempts == row.attempts
        &&& self.was_previously_claimed == (row.claimed_by is Some)
    }
}

impl OutboxRow {
    /// Whether a publisher may claim the row.
    pub fn is_claimable(&self, now: Timestamp) -> (r: bool)
        requires
            self@.valid(),
            now.valid(),
        ensures
            r == self@.claimable(now),
    {
        if self.published_at.is_some() || !self.next_attempt_at.at_or_before(now) {
            return false;
        }
        match self.claimed_until {
            None => true,
            Some(until) => !now.at_or_before(until),
        }
    }

    /// Whether the row is claimed before another.
    pub fn comes_before(&self, other: &OutboxRow) -> (r: bool)
        requires
            self@.valid(),
            other@.valid(),
        ensures
            r == self@.before(other@),
    {
        if !self.created_at.at_or_before(other.created_at) {
            false
        } else if !other.created_at.at_or_before(self.created_at) {
            true
        } else {
            self.id < other.id
        }
    }

    /// Claims the row.
    pub fn claim(&mut self, claimed_by: &str, claimed_until: Timestamp) -> (r: ClaimedOutboxEvent)
        ensures
            r.claims(*old(self)),
            final(self)@ == old(self)@.claimed(claimed_by@, claimed_until),
            final(self).same_message(*old(self)),
    {
        let r = ClaimedOutboxEvent {
            id: self.id,
            aggregate_type: self.aggregate_type.clone(),
            aggregate_id: self.aggregate_id,
            aggregate_version: self.aggregate_version,
            topic: self.topic.clone(),
            message_key: self.message_key.clone(),
            envelope: copy_bytes(&self.envelope),
            created_at: self.created_at,
            attempts: self.attempts,
            was_previously_claimed: self.claimed_by.is_some(),
        };
        self.claimed_by = Some(claimed_by.to_owned());
        self.claimed_until = Some(claimed_until);
        r
    }

    /// Marks the row published.
    pub fn mark_published(&mut self, now: Timestamp)
        ensures
            final(self)@ == old(self)@.published(now),
            final(self).same_message(*old(self)),
    {
        self.published_at = Some(now);
    }

    /// Records a failed attempt.
    pub fn mark_failed(&mut self, next_attempt_at: Timestamp, error: &str)
        requires
            old(self).attempts < i32::MAX,
        ensures
            final(self)@ == old(self)@.failed(next_attempt_at, error@),
            final(self).same_message(*old(self)),
    {
        self.attempts = self.attempts + 1;
        self.last_error = Some(error.to_owned());
        self.next_attempt_at = next_attempt_at;
        self.claimed_by = None;
        self.claimed_until = None;
    }
}

/// `picked` holds the places of the rows that a claim takes: claimable ones,
/// the oldest first, and as many as there are, up to the size of the batch.
pub open spec fn is_next_batch(
    rows: Seq<OutboxState>,
    picked: Seq<int>,
    batch_size: i64,
    now: Timestamp,
) -> bool {
    &&& picked.len() <= batch_size
    &&& forall|k: int|
        0 <= k < picked.len() ==> 0 <= #[trigger] picked[k] < rows.len()
            && rows[picked[k]].claimable(now)
    &&& forall|j: int, k: int|
        0 <= j < k < picked.len() ==> picked[j] != picked[k] && !rows[#[trigger] picked[k]].before(
            rows[#[trigger] picked[j]],
        )
    &&& forall|i: int|
        0 <= i < rows.len() && (#[trigger] rows[i]).claimable(now) && !picked.contains(i) ==> {
            &&& picked.len() == batch_size
            &&& forall|k: int| 0 <= k < picked.len() ==> !rows[i].before(rows[#[trigger] picked[k]])
        }
}

/// What a claim does: the picked rows come out and are leased, all others
/// stay as they are.
pub open spec fn is_claim(
    before: Seq<OutboxRow>,
    after: Seq<OutboxRow>,
    claimed: Seq<ClaimedOutboxEvent>,
    picked: Seq<int>,
    claimed_by: Seq<char>,
    claimed_until: Timestamp,
) -> bool {
    &&& after.len() == before.len()
    &&& claimed.len() == picked.len()
    &&& forall|k: int| 0 <= k < picked.len() ==> (#[trigger] claimed[k]).claims(before[picked[k]])
    &&& forall|i: int|
        0 <= i < before.len() ==> if picked.contains(i) {
            &&& (#[trigger] after[i])@ == before[i]@.claimed(claimed_by, claimed_until)
            &&& after[i].same_message(before[i])
        } else {
            after[i] == before[i]
        }
}

/// The places of the claimable rows, the oldest first.
fn claimable_places(rows: &Vec<OutboxRow>, now: Timestamp) -> (r: Vec<usize>)
    requires
        now.valid(),
        forall|i: int| 0 <= i < rows@.len() ==> (#[trigger] rows@[i])@.valid(),
    ensures
        forall|k: int|
            0 <= k < r@.len() ==> 0 <= #[trigger] r@[k] < rows@.len()
                && rows@[r@[k] as int]@.claimable(now),
        forall|j: int, k: int|
            0 <= j < k < r@.len() ==> r@[j] != r@[k] && !rows@[#[trigger] r@[k] as int]@.before(
                rows@[#[trigger] r@[j] as int]@,
            ),
        forall|i: int|
            0 <= i < rows@.len() && (#[trigger] rows@[i])@.claimable(now) ==> exists|k: int|
                0 <= k < r@.len() && #[trigger] r@[k] == i,
{
    let mut places: Vec<usize> = Vec::new();
    let mut i: usize = 0;
    while i < rows.len()
        invariant
            i <= rows.len(),
            now.valid(),
            forall|x: int| 0 <= x < rows@.len() ==> (#[trigger] rows@[x])@.valid(),
            forall|k: int|
                0 <= k < places@.len() ==> 0 <= #[trigger] places@[k] < i
                    && rows@[places@[k] as int]@.claimable(now),
            forall|j: int, k: int|
                0 <= j < k < places@.len() ==> places@[j] != places@[k]
                    && !rows@[#[trigger] places@[k] as int]@.before(
                    rows@[#[trigger] places@[j] as int]@,
                ),
            forall|x: int|
                0 <= x < i && (#[trigger] rows@[x])@.claimable(now) ==> exists|k: int|
                    0 <= k < places@.len() && #[trigger] places@[k] == x,
        decreases rows.len() - i,
    {
        if rows[i].is_claimable(now) {
            let mut at: usize = places.len();
            while at > 0 && rows[i].comes_before(&rows[places[at - 1]])
                invariant
                    i < rows.len(),
                    at <= places.len(),
                    forall|x: int| 0 <= x < rows@.len() ==> (#[trigger] rows@[x])@.valid(),
                    forall|k: int| 0 <= k < places@.len() ==> 0 <= #[trigger] places@[k] < i,
                    forall|k: int|
                        at <= k < places@.len() ==> rows@[i as int]@.before(
                            rows@[#[trigger] places@[k] as int]@,
                        ),
                ensures
                    at <= places.len(),
                    forall|k: int| 0 <= k < places@.len() ==> 0 <= #[trigger] places@[k] < i,
                    forall|k: int|
                        at <= k < places@.len() ==> rows@[i as int]@.before(
                            rows@[#[trigger] places@[k] as int]@,
                        ),
                    at > 0 ==> !rows@[i as int]@.before(rows@[places@[at - 1] as int]@),
                decreases at,
            {
                at = at - 1;
            }
            let ghost held = places@;
            places.insert(at, i);
            proof {
                let grown = places@;
                assert(grown == held.insert(at as int, i));
                assert forall|k: int| 0 <= k < grown.len() implies 0 <= #[trigger] grown[k] < i + 1
                    && rows@[grown[k] as int]@.claimable(now) by {
                    if k < at {
                        assert(grown[k] == held[k]);
                    } else if k > at {
                        assert(grown[k] == held[k - 1]);
                    }
                }
                assert forall|j: int, k: int| 0 <= j < k < grown.len() implies grown[j] != grown[k]
                    && !rows@[#[trigger] grown[k] as int]@.before(
                    rows@[#[trigger] grown[j] as int]@,
                ) by {
                    let x = if j < at { j } else { j - 1 };
                    let y = if k < at { k } else { k - 1 };
                    if j == at {
                        assert(grown[k] == held[y]);
                        assert(rows@[i as int]@.before(rows@[held[y] as int]@));
                    } else if k == at {
                        assert(grown[j] == held[x]);
                        if x < at - 1 {
                            assert(!rows@[held[at - 1] as int]@.before(rows@[held[x] as int]@));
                        }
                    } else {
                        assert(grown[j] == held[x] && grown[k] == held[y]);
                        assert(held[x] != held[y] && !rows@[held[y] as int]@.before(
                            rows@[held[x] as int]@,
                        ));
                    }
                }
                assert forall|x: int|
                    0 <= x < i + 1 && (#[trigger] rows@[x])@.claimable(now) implies exists|k: int|
                    0 <= k < grown.len() && #[trigger] grown[k] == x by {
                    if x == i {
                        assert(grown[at as int] == x);
                    } else {
                        let k = choose|k: int| 0 <= k < held.len() && #[trigger] held[k] == x;
                        let m = if k < at { k } else { k + 1 };
                        assert(grown[m] == x);
                    }
                }
            }
        }
        i = i + 1;
    }
    places
}

/// Claims up to `batch_size` messages of the table for `claimed_by`, the
/// oldest first, for the length of the lease.
pub fn claim_batch(
    rows: &mut Vec<OutboxRow>,
    claimed_by: &str,
    lease_nanos: i128,
    batch_size: i64,
    now: Timestamp,
) -> (r: Vec<ClaimedOutboxEvent>)
    requires
        now.valid(),
        batch_size >= 0,
        first_instant() <= now.instant() + lease_nanos <= last_instant(),
        forall|i: int| 0 <= i < old(rows)@.len() ==> (#[trigger] old(rows)@[i])@.valid(),
    ensures
        exists|picked: Seq<int>, until: Timestamp|
            {
                &&& #[trigger] is_claim(
                    old(rows)@,
                    final(rows)@,
                    r@,
                    picked,
                    claimed_by@,
                    until,
                )
                &&& is_next_batch(views(old(rows)@), picked, batch_size, now)
                &&& until.valid()
                &&& until.instant() == now.instant() + lease_nanos
            },
{
    let claimed_until: Timestamp = now.plus_nanos(lease_nanos);
    let places: Vec<usize> = claimable_places(rows, now);
    let ghost before = rows@;
    let mut claimed: Vec<ClaimedOutboxEvent> = Vec::new();
    let mut k: usize = 0;
    while k < places.len() && (k as u64) < batch_size as u64
        invariant
            k <= places.len(),
            k <= batch_size,
            batch_size >= 0,
            rows@.len() == before.len(),
            claimed@.len() == k,
            forall|m: int| 0 <= m < places@.len() ==> 0 <= #[trigger] places@[m] < before.len(),
            forall|j: int, m: int|
                0 <= j < m < places@.len() ==> #[trigger] places@[j] != #[trigger] places@[m],
            forall|m: int|
                0 <= m < k ==> (#[trigger] claimed@[m]).claims(before[places@[m] as int]),
            forall|m: int|
                0 <= m < k ==> {
                    &&& rows@[#[trigger] places@[m] as int]@ == before[places@[m] as int]@.claimed(
                        claimed_by@,
                        claimed_until,
                    )
                    &&& rows@[places@[m] as int].same_message(before[places@[m] as int])
                },
            forall|i: int|
                0 <= i < before.len() && (forall|m: int|
                    0 <= m < k ==> #[trigger] places@[m] != i) ==> #[trigger] rows@[i] == before[i],
        ensures
            k <= places.len(),
            k <= batch_size,
            k == places.len() || k == batch_size,
            rows@.len() == before.len(),
            claimed@.len() == k,
            forall|m: int|
                0 <= m < k ==> (#[trigger] claimed@[m]).claims(before[places@[m] as int]),
            forall|m: int|
                0 <= m < k ==> {
                    &&& rows@[#[trigger] places@[m] as int]@ == before[places@[m] as int]@.claimed(
                        claimed_by@,
                        claimed_until,
                    )
                    &&& rows@[places@[m] as int].same_message(before[places@[m] as int])
                },
            forall|i: int|
                0 <= i < before.len() && (forall|m: int|
                    0 <= m < k ==> #[trigger] places@[m] != i) ==> #[trigger] rows@[i] == before[i],
        decreases places.len() - k,
    {
        let place: usize = places[k];
        assert(rows@[place as int] == before[place as int]);
        let ghost held = rows@;
        let event: ClaimedOutboxEvent = rows[place].claim(claimed_by, claimed_until);
        claimed.push(event);
        proof {
            assert forall|i: int|
                0 <= i < before.len() && (forall|m: int|
                    0 <= m < k + 1 ==> #[trigger] places@[m] != i) implies #[trigger] rows@[i]
                == before[i] by {
                assert(places@[k as int] != i);
                assert(rows@[i] == held[i]);
            }
            assert forall|m: int| 0 <= m < k + 1 implies {
                &&& rows@[#[trigger] places@[m] as int]@ == before[places@[m] as int]@.claimed(
                    claimed_by@,
                    claimed_until,
                )
                &&& rows@[places@[m] as int].same_message(before[places@[m] as int])
            } by {
                if m < k {
                    assert(places@[m] != places@[k as int]);
                    assert(rows@[places@[m] as int] == held[places@[m] as int]);
                }
            }
        }
        k = k + 1;
    }
    proof {
        let picked = Seq::new(k as nat, |m: int| places@[m] as int);
        let states = views(before);
        assert forall|i: int| 0 <= i < before.len() implies if picked.contains(i) {
            &&& (#[trigger] rows@[i])@ == before[i]@.claimed(claimed_by@, claimed_until)
            &&& rows@[i].same_message(before[i])
        } else {
            rows@[i] == before[i]
        } by {
            if picked.contains(i) {
                let m = choose|m: int| 0 <= m < picked.len() && picked[m] == i;
                assert(places@[m] == i);
            } else {
                assert forall|m: int| 0 <= m < k implies #[trigger] places@[m] != i by {
                    assert(picked[m] == places@[m]);
                }
            }
        }
        assert(is_claim(before, rows@, claimed@, picked, claimed_by@, claimed_until));
        assert forall|m: int| 0 <= m < picked.len() implies 0 <= #[trigger] picked[m] < states.len()
            && states[picked[m]].claimable(now) by {
            assert(picked[m] == places@[m]);
        }
        assert forall|j: int, m: int| 0 <= j < m < picked.len() implies picked[j] != picked[m]
            && !states[#[trigger] picked[m]].before(states[#[trigger] picked[j]]) by {
            assert(picked[m] == places@[m] && picked[j] == places@[j]);
        }
        assert forall|i: int|
            0 <= i < states.len() && (#[trigger] states[i]).claimable(now) && !picked.contains(
                i,
            ) implies {
            &&& picked.len() == batch_size
            &&& forall|m: int| 0 <= m < picked.len() ==> !states[i].before(states[#[trigger] picked[m]])
        } by {
            assert(states[i] == before[i]@);
            let n = choose|n: int| 0 <= n < places@.len() && #[trigger] places@[n] == i;
            if n < k {
                assert(picked[n] == i);
            }
            assert(k < places.len());
            assert forall|m: int| 0 <= m < picked.len() implies !states[i].before(
                states[#[trigger] picked[m]],
            ) by {
                assert(picked[m] == places@[m]);
                assert(!before[places@[n] as int]@.before(before[places@[m] as int]@));
            }
        }
        assert(is_next_batch(states, picked, batch_size, now));
    }
    claimed
}

/// A leased message cannot be claimed again while its lease lives, and can be
/// once the lease is over: then the claim counts as a recovery.
pub proof fn leases_exclude_and_expire(
    row: OutboxState,
    by: Seq<char>,
    until: Timestamp,
    later: Timestamp,
)
    requires
        row.published_at is None,
        row.next_attempt_at.instant() <= later.instant(),
    ensures
        row.claimed(by, until).claimable(later) <==> until.instant() < later.instant(),
        row.claimed(by, until).claimed_by is Some,
{
}

/// A published message is never claimed again.
pub proof fn published_messages_stay_published(
    row: OutboxState,
    published_at: Timestamp,
    later: Timestamp,
    by: Seq<char>,
    until: Timestamp,
)
    ensures
        !row.published(published_at).claimable(later),
        row.published(published_at).claimed(by, until).published_at is Some,
{
}

/// A failed message gives its claim back: it is claimable again from its next
/// attempt on, without waiting for the lease to end.
pub proof fn failed_messages_come_back(
    row: OutboxState,
    by: Seq<char>,
    until: Timestamp,
    next: Timestamp,
    error: Seq<char>,
    later: Timestamp,
)
    requires
        row.published_at is None,
        row.attempts < i32::MAX,
    ensures
        ({
            let failed = row.claimed(by, until).failed(next, error);
            &&& failed.claimable(later) <==> next.instant() <= later.instant()
            &&& failed.attempts == row.attempts + 1
            &&& failed.claimed_by is None
        }),
{
}

/// The counters of a publisher.
#[derive(Debug, Clone, Copy, PartialEq, Eq, Structural)]
pub struct PublishMetrics {
    pub attempts_total: u64,
    pub failures_total: u64,
    pub lease_recoveries_total: u64,
    pub published_total: u64,
}

impl Default for PublishMetrics {
    fn default() -> (r: PublishMetrics)
        ensures
            r == (PublishMetrics {
                attempts_total: 0,
                failures_total: 0,
                lease_recoveries_total: 0,
                published_total: 0,
            }),
    {
        PublishMetrics {
            attempts_total: 0,
            failures_total: 0,
            lease_recoveries_total: 0,
            published_total: 0,
        }
    }
}

impl PublishMetrics {
    /// Attempts, failures, lease recoveries and publications.
    pub fn snapshot(&self) -> (r: (u64, u64, u64, u64))
        ensures
            r == (
                self.attempts_total,
                self.failures_total,
                self.lease_recoveries_total,
                self.published_total,
            ),
    {
        (
            self.attempts_total,
            self.failures_total,
            self.lease_recoveries_total,
            self.published_total,
        )
    }
}

/// One more, in 64 bits.
pub open spec fn counted(n: u64) -> u64 {
    if n == u64::MAX {
        0
    } else {
        (n + 1) as u64
    }
}

/// Counts one more, in 64 bits.
pub fn count(n: u64) -> (r: u64)
    ensures
        r == counted(n),
{
    n.wrapping_add(1)
}

pub const FAULT_AFTER_BROKER_PUBLISH_BEFORE_MARK_PUBLISHED: &'static str =
    "orders.outbox.after_broker_publish_before_mark_published";

/// The header for a text member of an envelope, where there is one.
pub open spec fn member_header(envelope: Seq<u8>, field: Seq<char>) -> Seq<(Seq<char>, Seq<u8>)> {
    match json_text_member(envelope, field) {
        Some(text) => seq![(field, encode_utf8(text))],
        None => Seq::empty(),
    }
}

/// The headers of a message: its identifier, then the correlation, the cause
/// and the producer, as far as its envelope tells them.
pub open spec fn envelope_headers(event_id: u128, envelope: Seq<u8>) -> Seq<(Seq<char>, Seq<u8>)> {
    seq![("event_id"@, encode_utf8(uuid_text(event_id)))] + member_header(
        envelope,
        "correlation_id"@,
    ) + member_header(envelope, "causation_id"@) + member_header(envelope, "producer"@)
}

/// What headers say.
pub open spec fn header_views(headers: Seq<Header>) -> Seq<(Seq<char>, Seq<u8>)> {
    Seq::new(headers.len(), |i: int| (headers[i].0@, headers[i].1@))
}

fn push_member_header(headers: &mut Vec<Header>, envelope: &[u8], field: &str)
    ensures
        header_views(final(headers)@) == header_views(old(headers)@) + member_header(
            envelope@,
            field@,
        ),
{
    match read_json_text_member(envelope, field) {
        Some(text) => {
            headers.push(text_header(field, text.as_str()));
        },
        None => {},
    }
    assert(header_views(headers@) =~= header_views(old(headers)@) + member_header(
        envelope@,
        field@,
    ));
}

/// The headers of a message.
pub fn headers_from_envelope(event_id: u128, envelope: &Vec<u8>) -> (r: Vec<Header>)
    ensures
        header_views(r@) == envelope_headers(event_id, envelope@),
{
    let mut headers: Vec<Header> = Vec::new();
    headers.push(text_header("event_id", id_text(event_id).as_str()));
    assert(header_views(headers@) =~= seq![("event_id"@, encode_utf8(uuid_text(event_id)))]);
    push_member_header(&mut headers, envelope.as_slice(), "correlation_id");
    push_member_header(&mut headers, envelope.as_slice(), "causation_id");
    push_member_header(&mut headers, envelope.as_slice(), "producer");
    headers
}

/// A message as it goes to the broker.
#[derive(Debug)]
pub struct Publication {
    pub topic: String,
    pub key: String,
    pub payload: Vec<u8>,
    pub headers: Vec<Header>,
}

/// The counters after the next attempt began.
pub open spec fn attempt_counted(metrics: PublishMetrics, recovered: bool) -> PublishMetrics {
    PublishMetrics {
        attempts_total: counted(metrics.attempts_total),
        lease_recoveries_total: if recovered {
            counted(metrics.lease_recoveries_total)
        } else {
            metrics.lease_recoveries_total
        },
        ..metrics
    }
}

/// Begins the publication of a claimed message. Nothing comes back where the
/// stored envelope is no JSON.
pub fn begin_publication(row: &ClaimedOutboxEvent, metrics: &mut PublishMetrics) -> (r: Option<
    Publication,
>)
    ensures
        *final(metrics) == attempt_counted(*old(metrics), row.was_previously_claimed),
        match (r, json_compact(row.envelope@)) {
            (Some(publication), Some(text)) => {
                &&& publication.topic@ == row.topic@
                &&& publication.key@ == row.message_key@
                &&& publication.payload@ == text
                &&& header_views(publication.headers@) == envelope_headers(row.id, row.envelope@)
            },
            (None, None) => true,
            _ => false,
        },
{
    if row.was_previously_claimed {
        metrics.lease_recoveries_total = count(metrics.lease_recoveries_total);
    }
    metrics.attempts_total = count(metrics.attempts_total);
    let headers: Vec<Header> = headers_from_envelope(row.id, &row.envelope);
    match compact_json(row.envelope.as_slice()) {
        Some(payload) => Some(
            Publication {
                topic: row.topic.clone(),
                key: row.message_key.clone(),
                payload,
                headers,
            },
        ),
        None => None,
    }
}

/// What is to be done with a claimed message after the broker answered.
#[derive(Debug)]
pub enum Settlement {
    /// The publisher is taken to have crashed: the row stays claimed and
    /// unpublished.
    Crashed { delay_ms: Option<u64> },
    /// Mark the row published.
    Published,
    /// Record the failure and try again later.
    Failed { next_attempt_at: Timestamp, error: String },
}

/// The longest wait that is added to a moment, in nanoseconds; a longer one
/// counts as none.
pub open spec fn longest_delay() -> int {
    9_223_372_036_854_775_807_000_000
}

/// The delay that a wait stands for.
pub open spec fn delay_of(wait: Span) -> int {
    if wait.length() <= longest_delay() {
        wait.length()
    } else {
        0
    }
}

/// Settles a claimed message, given the broker's answer and a wait for the
/// case that it was a failure.
pub fn settle_publication(
    row: &ClaimedOutboxEvent,
    answer: Result<(), String>,
    wait: Span,
    faults: &mut FaultInjector,
    metrics: &mut PublishMetrics,
    now: Timestamp,
) -> (r: Settlement)
    requires
        now.valid(),
        wait.valid(),
        first_instant() <= now.instant(),
        now.instant() + delay_of(wait) <= last_instant(),
    ensures
        ({
            let point = FAULT_AFTER_BROKER_PUBLISH_BEFORE_MARK_PUBLISHED@;
            let crashed = fires(old(faults)@, point, Some(uuid_text(row.id)));
            match answer {
                Ok(()) => if crashed {
                    &&& r == (Settlement::Crashed { delay_ms: old(faults)@[point].delay_ms })
                    &&& final(faults)@ == after_firing(old(faults)@, point)
                    &&& *final(metrics) == *old(metrics)
                } else {
                    &&& r is Published
                    &&& final(faults)@ == old(faults)@
                    &&& *final(metrics) == (PublishMetrics {
                        published_total: counted(old(metrics).published_total),
                        ..*old(metrics)
                    })
                },
                Err(text) => {
                    &&& r is Failed
                    &&& r->error == text
                    &&& r->next_attempt_at.valid()
                    &&& r->next_attempt_at.instant() == now.instant() + delay_of(wait)
                    &&& final(faults)@ == old(faults)@
                    &&& *final(metrics) == (PublishMetrics {
                        failures_total: counted(old(metrics).failures_total),
                        ..*old(metrics)
                    })
                },
            }
        }),
{
    match answer {
        Ok(()) => {
            let subject: String = id_text(row.id);
            match faults.check(
                FAULT_AFTER_BROKER_PUBLISH_BEFORE_MARK_PUBLISHED,
                Some(subject.as_str()),
            ) {
                Err((_, delay_ms)) => Settlement::Crashed { delay_ms },
                Ok(()) => {
                    metrics.published_total = count(metrics.published_total);
                    Settlement::Published
                },
            }
        },
        Err(error) => {
            metrics.failures_total = count(metrics.failures_total);
            let nanos: u128 = wait.as_nanos();
            let delay: i128 = if nanos <= 9_223_372_036_854_775_807_000_000u128 {
                nanos as i128
            } else {
                0
            };
            let next_attempt_at: Timestamp = now.plus_nanos(delay);
            Settlement::Failed { next_attempt_at, error }
        },
    }
}

/// Settles a claimed message at the given moment, with a random wait where
/// the broker's answer was a failure.
pub fn settle_with_backoff(
    row: &ClaimedOutboxEvent,
    answer: Result<(), String>,
    config: &PublisherConfig,
    faults: &mut FaultInjector,
    metrics: &mut PublishMetrics,
    now: Timestamp,
) -> (r: Settlement)
    requires
        now.valid(),
        config.valid(),
        first_instant() <= now.instant() <= last_instant(),
        answer is Err ==> now.instant() + longest_wait(
            row.attempts as u32,
            config.backoff_base,
            config.backoff_cap,
        ) <= last_instant(),
    ensures
        ({
            let point = FAULT_AFTER_BROKER_PUBLISH_BEFORE_MARK_PUBLISHED@;
            let crashed = fires(old(faults)@, point, Some(uuid_text(row.id)));
            &&& r is Crashed <==> answer is Ok && crashed
            &&& r is Published <==> answer is Ok && !crashed
            &&& r is Failed <==> answer is Err
            &&& r is Failed ==> {
                &&& r->error == answer->Err_0
                &&& now.instant() <= r->next_attempt_at.instant() <= now.instant() + longest_wait(
                    row.attempts as u32,
                    config.backoff_base,
                    config.backoff_cap,
                )
            }
            &&& final(faults)@ == if r is Crashed {
                after_firing(old(faults)@, point)
            } else {
                old(faults)@
            }
            &&& *final(metrics) == (PublishMetrics {
                failures_total: if r is Failed {
                    counted(old(metrics).failures_total)
                } else {
                    old(metrics).failures_total
                },
                published_total: if r is Published {
                    counted(old(metrics).published_total)
                } else {
                    old(metrics).published_total
                },
                ..*old(metrics)
            })
        }),
{
    let wait: Span = match &answer {
        Ok(()) => Span { secs: 0, nanos: 0 },
        Err(_) => full_jitter_backoff(
            row.attempts as u32,
            config.backoff_base,
            config.backoff_cap,
        ),
    };
    settle_publication(row, answer, wait, faults, metrics, now)
}

/// How long the publisher waits before its next batch, given how many messages
/// the last one claimed, where it did not fail: after a batch with messages
/// the next follows at once, for there may be more; after an empty one, or a
/// failure, the poll interval passes first.
pub fn pause_after(claimed: Option<usize>, config: &PublisherConfig) -> (r: Option<Span>)
    ensures
        r == match claimed {
            Some(n) if n > 0 => None,
            _ => Some(config.poll_interval),
        },
{
    match claimed {
        Some(n) => if n > 0 {
            None
        } else {
            Some(config.poll_interval)
        },
        None => Some(config.poll_interval),
    }
}

/// How many messages wait, and for how long the oldest of them has.
#[derive(Debug, Clone, Copy, PartialEq, Eq, Structural)]
pub struct BacklogMetrics {
    pub unpublished_count: i64,
    pub oldest_unpublished_age_millis: Option<i128>,
}

/// Whole milliseconds from `oldest` to `now`, zero where `oldest` is later.
pub open spec fn age_millis(oldest: Timestamp, now: Timestamp) -> int {
    if now.instant() <= oldest.instant() {
        0
    } else {
        (now.instant() - oldest.instant()) / 1_000_000
    }
}

/// The backlog, given the number of waiting messages and the age of the
/// oldest.
pub fn backlog_metrics(
    unpublished_count: i64,
    oldest: Option<Timestamp>,
    now: Timestamp,
) -> (r: BacklogMetrics)
    requires
        now.valid(),
        oldest matches Some(t) ==> t.valid(),
    ensures
        r.unpublished_count == unpublished_count,
        match (oldest, r.oldest_unpublished_age_millis) {
            (Some(t), Some(age)) => age == age_millis(t, now),
            (None, None) => true,
            _ => false,
        },
{
    let age: Option<i128> = match oldest {
        Some(t) => {
            let from: i128 = t.seconds as i128 * 1_000_000_000i128 + t.nanos as i128;
            let to: i128 = now.seconds as i128 * 1_000_000_000i128 + now.nanos as i128;
            if to <= from {
                Some(0)
            } else {
                Some((to - from) / 1_000_000i128)
            }
        },
        None => None,
    };
    BacklogMetrics { unpublished_count, oldest_unpublished_age_millis: age }
}

/// While the leases of one claim live, another claim takes none of its
/// messages: two publishers never publish the same message at once.
pub proof fn live_claims_do_not_overlap(
    before: Seq<OutboxRow>,
    after: Seq<OutboxRow>,
    claimed: Seq<ClaimedOutboxEvent>,
    picked: Seq<int>,
    claimed_by: Seq<char>,
    claimed_until: Timestamp,
    later_picked: Seq<int>,
    later_size: i64,
    later: Timestamp,
)
    requires
        is_claim(before, after, claimed, picked, claimed_by, claimed_until),
        forall|k: int| 0 <= k < picked.len() ==> 0 <= #[trigger] picked[k] < before.len(),
        is_next_batch(views(after), later_picked, later_size, later),
        later.instant() <= claimed_until.instant(),
    ensures
        forall|j: int, k: int|
            0 <= j < picked.len() && 0 <= k < later_picked.len() ==> #[trigger] picked[j]
                != #[trigger] later_picked[k],
{
    assert forall|j: int, k: int|
        0 <= j < picked.len() && 0 <= k < later_picked.len() implies #[trigger] picked[j]
        != #[trigger] later_picked[k] by {
        if picked[j] == later_picked[k] {
            let i = picked[j];
            assert(picked.contains(i));
            assert(after[i]@ == before[i]@.claimed(claimed_by, claimed_until));
            assert(views(after)[i] == after[i]@);
            assert(views(after)[later_picked[k]].claimable(later));
        }
    }
}

}
