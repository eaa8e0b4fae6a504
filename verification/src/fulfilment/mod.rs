//! The fulfilment service: it decides once for each order whether it can be
//! fulfilled.

pub mod consumer;
pub mod domain;
pub mod laws;
pub mod repository;
