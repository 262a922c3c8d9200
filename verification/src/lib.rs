//! A verified core for a push-notification dispatch pipeline.
//!
//! The library models the unit of work (a notification record), the template
//! catalog and placeholder substitution, the platform-specific message
//! builder, a durable queue with explicit acknowledgement, the append-only
//! history recorder, and the per-cycle dispatch decisions. Network and
//! storage transports live outside the library and hand plain values in.

pub mod catalog;
pub mod config;
pub mod dispatch;
pub mod dtos;
pub mod enums;
pub mod errors;
pub mod messages;
pub mod numbers;
pub mod pagination;
pub mod queue;
pub mod record;
pub mod text;
pub mod types;
