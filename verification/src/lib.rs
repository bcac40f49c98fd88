//! Per-workspace settings for a chat-completion feature: a tri-state patch
//! model, a deterministic merge engine, secret redaction, and a transactional
//! in-memory store with read / patch / delete / list operations.

pub mod laws;
pub mod merge;
pub mod model;
pub mod service;
pub mod store;
pub mod tristate;
