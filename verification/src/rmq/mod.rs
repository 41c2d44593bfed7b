//! The hub's view of its broker: exchanges, queues, and connection settings.

pub mod builder;
pub mod schemas;
