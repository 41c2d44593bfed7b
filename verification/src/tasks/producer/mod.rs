//! Outgoing messages.

pub mod methods;
