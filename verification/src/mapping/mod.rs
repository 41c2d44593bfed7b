//! The messages that travel through the hub and the rules they must meet.

pub mod schemas;
pub mod validators;
