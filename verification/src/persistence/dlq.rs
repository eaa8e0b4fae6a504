//! Dead letters: records that a consumer cannot process, with the reason.

use vstd::prelude::*;
use vstd::string::*;
use vstd::utf8::*;

use crate::messaging::{ConsumedRecord, RecordView};
use crate::digest::{lossy_text, utf8_lossy};
use crate::model::opt_view;
use crate::text::join;
use crate::time::Timestamp;

verus! {

/// A dead letter. `E` is the form in which the envelope is held; there is none
/// where the record held no envelope that could be read.
#[derive(Debug)]
pub struct DlqRecord<E> {
    pub original_topic: String,
    pub original_partition: i32,
    pub original_offset: i64,
    pub original_key: Option<String>,
    pub envelope: Option<E>,
    pub consumer: String,
    pub attempts: u32,
    pub first_failure_at: Timestamp,
    pub last_failure_at: Timestamp,
    pub error_code: String,
    pub error_detail: String,
    pub replay_count: u32,
}

/// What a [`DlqRecord`] says.
pub struct DlqView<E> {
    pub original_topic: Seq<char>,
    pub original_partition: i32,
    pub original_offset: i64,
    pub original_key: Option<Seq<char>>,
    pub envelope: Option<E>,
    pub consumer: Seq<char>,
    pub attempts: u32,
    pub first_failure_at: Timestamp,
    pub last_failure_at: Timestamp,
    pub error_code: Seq<char>,
    pub error_detail: Seq<char>,
    pub replay_count: u32,
}

impl<E: View> View for DlqRecord<E> {
    type V = DlqView<E::V>;

    open spec fn view(&self) -> DlqView<E::V> {
        DlqView {
            original_topic: self.original_topic@,
            original_partition: self.original_partition,
            original_offset: self.original_offset,
            original_key: opt_view(self.original_key),
            envelope: opt_view(self.envelope),
            consumer: self.consumer@,
            attempts: self.attempts,
            first_failure_at: self.first_failure_at,
            last_failure_at: self.last_failure_at,
            error_code: self.error_code@,
            error_detail: self.error_detail@,
            replay_count: self.replay_count,
        }
    }
}

/// The topic that holds the dead letters of `source_topic`.
pub fn dlq_topic(source_topic: &str) -> (r: String)
    ensures
        r@ == source_topic@ + ".dlq"@,
{
    join(source_topic, ".dlq")
}

/// A header of a message: its name and its value.
pub type Header = (String, Vec<u8>);

/// A header that says `value` under `name`.
pub open spec fn says(header: Header, name: Seq<char>, value: Seq<char>) -> bool {
    header.0@ == name && header.1@ == encode_utf8(value)
}

/// A header with a text value.
pub fn text_header(name: &str, value: &str) -> (r: Header)
    ensures
        says(r, name@, value@),
{
    (name.to_owned(), value.as_bytes_vec())
}

/// Where a dead letter goes, and the headers that it carries.
pub fn publication<E>(source_topic: &str, record: &DlqRecord<E>) -> (r: (String, Vec<Header>))
    ensures
        r.0@ == source_topic@ + ".dlq"@,
        r.1@.len() == 2,
        says(r.1@[0], "error_code"@, record.error_code@),
        says(r.1@[1], "original_topic"@, record.original_topic@),
{
    let mut headers: Vec<Header> = Vec::new();
    headers.push(text_header("error_code", record.error_code.as_str()));
    headers.push(text_header("original_topic", record.original_topic.as_str()));
    (dlq_topic(source_topic), headers)
}

/// The key of a record as text: empty where it has none.
pub open spec fn key_text(record: RecordView) -> Seq<char> {
    match record.key {
        Some(bytes) => lossy_text(bytes),
        None => Seq::empty(),
    }
}

/// The key of a record as text.
pub fn record_key(record: &ConsumedRecord) -> (r: String)
    ensures
        r@ == key_text(record@),
{
    match &record.key {
        Some(bytes) => utf8_lossy(bytes.as_slice()),
        None => String::new(),
    }
}

/// The dead letter for a record that `consumer` gave up on at `now`.
pub open spec fn dead_letter<E>(
    consumer: Seq<char>,
    source_topic: Seq<char>,
    record: RecordView,
    envelope: Option<E>,
    error_code: Seq<char>,
    error_detail: Seq<char>,
    now: Timestamp,
) -> DlqView<E> {
    DlqView {
        original_topic: source_topic,
        original_partition: 0,
        original_offset: record.offset,
        original_key: Some(key_text(record)),
        envelope,
        consumer,
        attempts: 1,
        first_failure_at: now,
        last_failure_at: now,
        error_code,
        error_detail,
        replay_count: 0,
    }
}

/// Writes the dead letter for a record.
pub fn write_dead_letter<E: View>(
    consumer: &str,
    source_topic: &str,
    record: &ConsumedRecord,
    envelope: Option<E>,
    error_code: &str,
    error_detail: String,
    now: Timestamp,
) -> (r: DlqRecord<E>)
    ensures
        r@ == dead_letter(
            consumer@,
            source_topic@,
            record@,
            opt_view(envelope),
            error_code@,
            error_detail@,
            now,
        ),
{
    DlqRecord {
        original_topic: source_topic.to_owned(),
        original_partition: 0,
        original_offset: record.offset,
        original_key: Some(record_key(record)),
        envelope,
        consumer: consumer.to_owned(),
        attempts: 1,
        first_failure_at: now,
        last_failure_at: now,
        error_code: error_code.to_owned(),
        error_detail,
        replay_count: 0,
    }
}

}
