//! Request-handling core of a shipping service: cart totals, quote formatting,
//! tracking identifiers and trace-context propagation.

pub mod text;
pub mod types;
pub mod quote;
pub mod cart;
pub mod tracking;
pub mod trace;
pub mod service;
