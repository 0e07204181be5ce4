//! Error-classification and observability interception for a small HTTP
//! calculator service.
//!
//! The interesting surface is the middleware layer: it wraps every request,
//! captures failures, assigns HTTP status codes to typed error conditions,
//! attaches reporting metadata, and decides which failures are forwarded to
//! the telemetry sink and which are suppressed as expected client faults.

pub mod classified;
pub mod handlers;
pub mod errors;
pub mod middleware;
pub mod telemetry;
