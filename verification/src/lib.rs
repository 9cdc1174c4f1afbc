//! A log-tailing source connector for a Loki-style log-aggregation service.
//!
//! The connector pulls log records from an upstream service — either over a
//! long-lived tail subscription or by periodically re-issued windowed range
//! queries — decodes the payloads into normalized records, and commits them
//! batch by batch into a downstream transactional sink, surviving transient
//! upstream faults by supervised reconnection.

pub mod config;
pub mod errors;
pub mod records;
pub mod transport;
pub mod emitter;
pub mod machine;
