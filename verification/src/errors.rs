//! The connector's error taxonomy. Only `SourceError` crosses the connector
//! boundary; the remaining kinds are recovered locally.

use vstd::prelude::*;

verus! {

/// A fatal connector error, surfaced to the caller: either the transport
/// could not be opened at all, or the downstream sink refused data.
#[derive(Debug, PartialEq, Eq, Clone)]
pub enum SourceError {
    /// The initial transport open failed (bad endpoint, handshake failure,
    /// or a non-success upstream status).
    Initialization(String),
    /// A sink transaction or insert failed; retrying here would violate the
    /// ordering guarantees agreed with the sink.
    Persistence(String),
}

/// One payload failed to parse as the expected envelope. Non-fatal: the
/// payload is dropped with a diagnostic and the connector continues.
#[derive(Debug, PartialEq, Eq, Clone)]
pub struct DecodeError {
    pub detail: String,
}

/// One polling tick failed (transport, status, body download or
/// deserialization). Non-fatal: the tick is dropped, the schedule continues.
#[derive(Debug, PartialEq, Eq, Clone)]
pub struct QueryError {
    pub detail: String,
}

} // verus!
