//! Rows of the store's tables.

pub mod services;

pub use services::Services;
