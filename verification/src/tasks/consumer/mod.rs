//! Incoming messages.

pub mod methods;
pub mod utils;
