//! A text-tokenization gateway: a resolver that loads a tokenization table by
//! model or scheme name, a single-assignment slot that publishes the table,
//! the one-shot warmup that fills the slot, and the three gateway operations
//! (health, readiness, tokenize) that read it.

pub mod text;
pub mod table;
pub mod resolver;
pub mod gateway;
pub mod config;
pub mod cache;
pub mod laws;
