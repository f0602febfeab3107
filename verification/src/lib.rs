//! A ledger-backed record-keeping service: per-user health summaries and
//! per-user health goals, kept consistent under atomic, all-or-nothing
//! operations against a flat key-value store.
//!
//! The store itself is modelled inside the library; the surrounding host
//! (a transactional ledger) supplies the current timestamp and persistence.

pub mod contract;
pub mod laws;
pub mod store;
pub mod types;
