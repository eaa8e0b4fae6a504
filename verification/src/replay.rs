//! Putting a dead letter back on its topic.

use vstd::prelude::*;
use vstd::utf8::encode_utf8;
use vstd::string::*;

use crate::digest::{json_member, json_text_member, read_json_member, read_json_text_member};
use crate::messaging::ConsumedRecord;
use crate::persistence::dlq::{dlq_topic, says, text_header, DlqRecord, Header};
use crate::persistence::outbox::Publication;
use crate::text::{decimal, i64_text, signed_decimal, text_eq, u64_text};

verus! {

/// Why a dead letter is not replayed.
#[derive(Debug)]
pub enum ReplayError {
    Usage,
    NoRecord { offset: i64 },
    NoValue,
    WrongTopic { belongs_to: String, asked_for: String },
    NoEnvelope,
}

impl ReplayError {
    /// The error in words.
    pub open spec fn words(self) -> Seq<char> {
        match self {
            ReplayError::Usage => "usage: replay-dlq <source-topic> <dlq-offset> [broker]"@,
            ReplayError::NoRecord { offset } => "no DLQ record at offset "@ + signed_decimal(
                offset as int,
            ),
            ReplayError::NoValue => "DLQ record has no value"@,
            ReplayError::WrongTopic { belongs_to, asked_for } => "DLQ record belongs to "@
                + belongs_to@ + ", not "@ + asked_for@,
            ReplayError::NoEnvelope =>
                "DLQ record has no parseable envelope; correct it before replay"@,
        }
    }

    /// The error in words.
    pub fn message(&self) -> (r: String)
        ensures
            r@ == self.words(),
    {
        match self {
            ReplayError::Usage =>
                "usage: replay-dlq <source-topic> <dlq-offset> [broker]".to_owned(),
            ReplayError::NoRecord { offset } => {
                let mut out: String = "no DLQ record at offset ".to_owned();
                out.append(i64_text(*offset).as_str());
                out
            },
            ReplayError::NoValue => "DLQ record has no value".to_owned(),
            ReplayError::WrongTopic { belongs_to, asked_for } => {
                let mut out: String = "DLQ record belongs to ".to_owned();
                out.append(belongs_to.as_str());
                out.append(", not ");
                out.append(asked_for.as_str());
                out
            },
            ReplayError::NoEnvelope =>
                "DLQ record has no parseable envelope; correct it before replay".to_owned(),
        }
    }
}

/// How the tool is called.
pub fn usage() -> (r: ReplayError)
    ensures
        r is Usage,
{
    ReplayError::Usage
}

/// What is known of a replay besides the message itself.
#[derive(Debug)]
pub struct Replay {
    pub publication: Publication,
    pub event_id: String,
    pub replay_count: u32,
}

/// The identifier that an envelope tells.
pub open spec fn told_event_id(envelope: Seq<u8>) -> Seq<char> {
    match json_text_member(envelope, "event_id"@) {
        Some(id) => id,
        None => "unknown"@,
    }
}

/// One replay more, as far as 32 bits go.
pub open spec fn next_replay(count: u32) -> u32 {
    if count == u32::MAX {
        count
    } else {
        (count + 1) as u32
    }
}

/// Puts a dead letter back on its topic: the envelope goes out as it is,
/// under its old key, with headers that tell where it comes from and how
/// often it was replayed. `letter` is what `record` reads; its envelope is
/// taken from the record.
pub fn replay(source_topic: &str, record: &ConsumedRecord, letter: &DlqRecord<()>) -> (r: Result<
    Replay,
    ReplayError,
>)
    ensures
        match r {
            Err(e) => if record.value is None {
                e is NoValue
            } else if letter.original_topic@ != source_topic@ {
                e is WrongTopic && e->belongs_to@ == letter.original_topic@ && e->asked_for@
                    == source_topic@
            } else {
                e is NoEnvelope && (letter.envelope is None || json_member(
                    record.value->0@,
                    "envelope"@,
                ) is None)
            },
            Ok(again) => {
                let envelope = json_member(record.value->0@, "envelope"@);
                &&& record.value is Some
                &&& letter.original_topic@ == source_topic@
                &&& letter.envelope is Some
                &&& envelope is Some
                &&& again.publication.payload@ == envelope->0
                &&& again.publication.topic@ == source_topic@
                &&& again.publication.key@ == match letter.original_key {
                    Some(key) => key@,
                    None => Seq::empty(),
                }
                &&& again.event_id@ == told_event_id(envelope->0)
                &&& again.replay_count == next_replay(letter.replay_count)
                &&& again.publication.headers@.len() == 3
                &&& says(
                    again.publication.headers@[0],
                    "replayed_from_dlq"@,
                    source_topic@ + ".dlq"@,
                )
                &&& says(
                    again.publication.headers@[1],
                    "replay_count"@,
                    decimal(again.replay_count as nat),
                )
                &&& says(again.publication.headers@[2], "event_id"@, again.event_id@)
            },
        },
{
    let value = match &record.value {
        Some(value) => value,
        None => {
            return Err(ReplayError::NoValue);
        },
    };
    if !text_eq(letter.original_topic.as_str(), source_topic) {
        return Err(
            ReplayError::WrongTopic {
                belongs_to: letter.original_topic.clone(),
                asked_for: source_topic.to_owned(),
            },
        );
    }
    if letter.envelope.is_none() {
        return Err(ReplayError::NoEnvelope);
    }
    let payload: Vec<u8> = match read_json_member(value.as_slice(), "envelope") {
        Some(payload) => payload,
        None => {
            return Err(ReplayError::NoEnvelope);
        },
    };
    let event_id: String = match read_json_text_member(payload.as_slice(), "event_id") {
        Some(id) => id,
        None => "unknown".to_owned(),
    };
    let replay_count: u32 = letter.replay_count.saturating_add(1);
    let key: String = match &letter.original_key {
        Some(key) => key.clone(),
        None => String::new(),
    };
    let mut headers: Vec<Header> = Vec::new();
    headers.push(text_header("replayed_from_dlq", dlq_topic(source_topic).as_str()));
    headers.push(text_header("replay_count", u64_text(replay_count as u64).as_str()));
    headers.push(text_header("event_id", event_id.as_str()));
    Ok(
        Replay {
            publication: Publication { topic: source_topic.to_owned(), key, payload, headers },
            event_id,
            replay_count,
        },
    )
}

/// The record at the asked-for offset, where the window holds it.
pub fn find_letter(offsets: &Vec<i64>, offset: i64) -> (r: Result<usize, ReplayError>)
    ensures
        match r {
            Ok(i) => {
                &&& i < offsets@.len()
                &&& offsets@[i as int] == offset
                &&& forall|j: int| 0 <= j < i ==> #[trigger] offsets@[j] != offset
            },
            Err(e) => e == (ReplayError::NoRecord { offset }) && forall|j: int|
                0 <= j < offsets@.len() ==> #[trigger] offsets@[j] != offset,
        },
{
    let mut i: usize = 0;
    while i < offsets.len()
        invariant
            i <= offsets.len(),
            forall|j: int| 0 <= j < i ==> #[trigger] offsets@[j] != offset,
        decreases offsets.len() - i,
    {
        if offsets[i] == offset {
            return Ok(i);
        }
        i = i + 1;
    }
    Err(ReplayError::NoRecord { offset })
}

/// A replay is counted as one more, as far as the count goes, and is known by
/// the identifier that its envelope tells.
pub proof fn replays_are_counted(count: u32, envelope: Seq<u8>)
    ensures
        count < u32::MAX ==> next_replay(count) == count + 1,
        count == u32::MAX ==> next_replay(count) == u32::MAX,
        json_text_member(envelope, "event_id"@) is Some ==> told_event_id(envelope)
            == json_text_member(envelope, "event_id"@)->0,
        json_text_member(envelope, "event_id"@) is None ==> told_event_id(envelope) == "unknown"@,
{
}

/// The words for a replay that cannot be done tell what stands in its way.
pub proof fn refused_replays_tell_why(e: ReplayError)
    ensures
        e is Usage ==> e.words() == "usage: replay-dlq <source-topic> <dlq-offset> [broker]"@,
        e matches ReplayError::NoRecord { offset } ==> e.words() == "no DLQ record at offset "@
            + signed_decimal(offset as int),
        e is NoValue ==> e.words() == "DLQ record has no value"@,
        e matches ReplayError::WrongTopic { belongs_to, asked_for } ==> e.words()
            == "DLQ record belongs to "@ + belongs_to@ + ", not "@ + asked_for@,
        e is NoEnvelope ==> e.words()
            == "DLQ record has no parseable envelope; correct it before replay"@,
{
}

/// A dead letter is replayed exactly where it holds an envelope and belongs to
/// the topic that is named: the envelope goes out as it is, under its old
/// key, counted as one more replay.
pub proof fn letters_are_replayed_as_they_are(
    source_topic: &str,
    record: &ConsumedRecord,
    letter: &DlqRecord<()>,
    r: Result<Replay, ReplayError>,
)
    requires
        call_ensures(replay, (source_topic, record, letter), r),
    ensures
        ({
            let envelope = json_member(record.value->0@, "envelope"@);
            &&& r is Ok <==> record.value is Some && letter.original_topic@ == source_topic@
                && letter.envelope is Some && envelope is Some
            &&& r is Err && record.value is None ==> r->Err_0 is NoValue
            &&& record.value is Some && letter.original_topic@ != source_topic@ ==> r->Err_0
                is WrongTopic
            &&& r is Ok ==> {
                let publication = r->Ok_0.publication;
                &&& publication.topic@ == source_topic@
                &&& publication.payload@ == envelope->0
                &&& letter.original_key is Some ==> publication.key@ == letter.original_key->0@
                &&& letter.original_key is None ==> publication.key@.len() == 0
                &&& letter.replay_count < u32::MAX ==> r->Ok_0.replay_count == letter.replay_count
                    + 1
                &&& json_text_member(envelope->0, "event_id"@) is Some ==> r->Ok_0.event_id@
                    == json_text_member(envelope->0, "event_id"@)->0
                &&& publication.headers@.len() == 3
                &&& publication.headers@[0].0@ == "replayed_from_dlq"@
                    && publication.headers@[0].1@ == encode_utf8(source_topic@ + ".dlq"@)
                &&& publication.headers@[1].0@ == "replay_count"@ && publication.headers@[1].1@
                    == encode_utf8(decimal(r->Ok_0.replay_count as nat))
                &&& publication.headers@[2].0@ == "event_id"@ && publication.headers@[2].1@
                    == encode_utf8(r->Ok_0.event_id@)
            }
        }),
{
}

/// The letter that is found is one at the offset that was asked for; where
/// none is found, the offset is named.
pub proof fn letters_are_found_by_offset(
    offsets: &Vec<i64>,
    offset: i64,
    r: Result<usize, ReplayError>,
)
    requires
        call_ensures(find_letter, (offsets, offset), r),
    ensures
        r is Ok ==> r->Ok_0 < offsets@.len() && offsets@[r->Ok_0 as int] == offset,
        r is Err ==> r->Err_0 == (ReplayError::NoRecord { offset }),
{
}

}
