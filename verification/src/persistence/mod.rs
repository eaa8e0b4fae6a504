//! What every service keeps besides its own tables: an inbox, an outbox, dead
//! letters and counters.

use vstd::prelude::*;

pub mod dlq;
pub mod inbox;
pub mod laws;
pub mod metrics;
pub mod outbox;

verus! {

/// The table that holds the outbox.
pub const OUTBOX_TABLE: &'static str = "outbox_events";

/// The table that holds the inbox.
pub const INBOX_TABLE: &'static str = "inbox_events";

}
