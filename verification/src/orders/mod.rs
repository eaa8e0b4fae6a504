//! The orders service: order lifecycle, idempotent creation and the saga
//! decisions.

pub mod config;
pub mod domain;
pub mod errors;
pub mod http;
pub mod laws;
pub mod messages;
pub mod outcome_consumer;
pub mod placing;
pub mod reactions;
pub mod repository;
pub mod saga;
