//! An order system in four services that share no database and never call
//! each other: orders, inventory, payments and fulfilment pass commands and
//! events through topics, each service writing what it sends into an outbox in
//! the same transaction as what it decides, and taking each message once
//! through an inbox.
//!
//! The crate holds what the services decide. A decision is a function from
//! what the tables say and a message to what is to be written and sent; the
//! program around it reads and writes the tables and moves the messages.

pub mod consuming;
pub mod contracts;
pub mod deliveries;
pub mod digest;
pub mod domain_common;
pub mod fulfilment;
pub mod ids;
pub mod inventory;
pub mod ledger;
pub mod messaging;
pub mod model;
pub mod orders;
pub mod payments;
pub mod persistence;
pub mod replay;
pub mod retry;
pub mod test_support;
pub mod text;
pub mod text_map;
pub mod time;
