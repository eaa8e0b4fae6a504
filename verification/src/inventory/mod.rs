//! The inventory service: stock and reservations.

pub mod consumer;
pub mod domain;
pub mod errors;
pub mod laws;
pub mod repository;
