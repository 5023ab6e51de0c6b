//! Per-request telemetry for a web service: immutable request records,
//! their fixed-column rendering, date-rotated file sinks with retention,
//! and the dispatch of each record to an ordered list of sinks.
pub mod text;
pub mod timestamp;
pub mod message;
pub mod template;
pub mod output;
pub mod dispatch;
pub mod exchange;
pub mod resp;
pub mod auth;
