//! The domain: entities, connectors and the orchestration of a sync.

pub mod connectors;
pub mod models;
pub mod sync;
