//! The hub's work: what it does with each message that arrives, and what it
//! sends.

pub mod consumer;
pub mod guarantees;
pub mod producer;
pub mod protocol;
