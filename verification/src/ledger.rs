//! The inbox of a service, kept in memory.

use vstd::prelude::*;

use crate::consuming::{CommitSet, EffectView, LedgerView, RawView};
use crate::contracts::Envelope;
use crate::persistence::inbox::{
    advance_version, claims_differ, fetch, hashes_of, hashes_tell_the_claims, is_claimed,
    last_version, mark_processed, marks_keep_the_hashes, try_claim, versions_differ, versions_of,
    InboxFacts, InboxRow, VersionRow,
};

verus! {

/// The tables of an inbox: the events that were taken, and the last version
/// of every aggregate, for every consumer.
#[derive(Debug)]
pub struct Inbox {
    pub events: Vec<InboxRow>,
    pub versions: Vec<VersionRow>,
}

impl Inbox {
    /// Every event is held once, and so is every aggregate.
    pub open spec fn valid(self) -> bool {
        claims_differ(self.events@) && versions_differ(self.versions@)
    }

    /// What the tables say of one consumer.
    pub open spec fn ledger(self, consumer_name: Seq<char>) -> LedgerView {
        LedgerView {
            hashes: hashes_of(self.events@, consumer_name),
            versions: versions_of(self.versions@, consumer_name),
        }
    }

    /// An empty inbox.
    pub fn new() -> (r: Inbox)
        ensures
            r.valid(),
            forall|consumer_name: Seq<char>| #[trigger]
                r.ledger(consumer_name) == (LedgerView {
                    hashes: Map::empty(),
                    versions: Map::empty(),
                }),
    {
        Inbox { events: Vec::new(), versions: Vec::new() }
    }

    /// What the inbox knows of an event and of its aggregate.
    pub fn facts(&self, consumer_name: &str, header: &Envelope<()>) -> (r: InboxFacts)
        requires
            self.valid(),
        ensures
            forall|envelope: RawView|
                envelope.event_id == header.event_id && envelope.aggregate_id
                    == header.aggregate_id ==> r@ == #[trigger] self.ledger(consumer_name@).facts(
                    envelope,
                ),
    {
        proof {
            hashes_tell_the_claims(self.events@, consumer_name@);
        }
        let claimed_hash: Option<String> = match fetch(
            &self.events,
            consumer_name,
            header.event_id,
        ) {
            Some(at) => Some(self.events[at].payload_hash.clone()),
            None => None,
        };
        InboxFacts {
            claimed_hash,
            last_version: last_version(&self.versions, consumer_name, header.aggregate_id),
        }
    }

    /// Commits a record: its event is held from now on, as processed, and its
    /// aggregate advances where it does. An event that is already held commits
    /// nothing.
    pub fn commit<W: View>(&mut self, set: &CommitSet<W>) -> (r: bool)
        requires
            old(self).valid(),
        ensures
            final(self).valid(),
            r == !is_claimed(old(self).events@, set@.entry.consumer_name, set@.entry.event_id),
            !r ==> *final(self) == *old(self),
            r ==> forall|name: Seq<char>| #[trigger]
                final(self).ledger(name) == if name == set@.entry.consumer_name {
                    old(self).ledger(name).after(EffectView::Commit(set@))
                } else {
                    old(self).ledger(name)
                },
    {
        let ghost before = self.events@;
        if !try_claim(&mut self.events, set.processed_at, &set.entry) {
            return false;
        }
        let ghost claimed = self.events@;
        mark_processed(
            &mut self.events,
            set.entry.consumer_name.as_str(),
            set.entry.event_id,
            set.processed_at,
        );
        proof {
            assert(claimed.drop_last() =~= before);
            assert forall|name: Seq<char>| #[trigger]
                hashes_of(self.events@, name) == if name == set@.entry.consumer_name {
                    hashes_of(before, name).insert(set@.entry.event_id, set@.entry.payload_hash)
                } else {
                    hashes_of(before, name)
                } by {
                marks_keep_the_hashes(claimed, self.events@, name);
            }
            assert forall|i: int, j: int| 0 <= i < j < self.events@.len() implies !(
            #[trigger] self.events@[i]).holds(
                (#[trigger] self.events@[j]).consumer_name@,
                self.events@[j].event_id,
            ) by {
                assert(!claimed[i].holds(claimed[j].consumer_name@, claimed[j].event_id));
            }
        }
        match set.advance_to {
            Some(version) => advance_version(
                &mut self.versions,
                set.entry.consumer_name.as_str(),
                set.entry.aggregate_id,
                version,
            ),
            None => {},
        }
        true
    }
}

}
