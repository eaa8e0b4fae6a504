//! The payments service: authorizations, refunds and the provider's ledger.

pub mod config;
pub mod consumer;
pub mod domain;
pub mod errors;
pub mod http;
pub mod laws;
pub mod provider;
pub mod repository;
