//! What the hub reads from and writes to its relational store.

pub mod functions;
pub mod models;
