//! The connector's run state machine. The reader owns the connection
//! parameters, the selector query, the transport strategy chosen at
//! construction, and the current phase; each upstream or sink event is fed
//! to [`LokiSourceReader::on_event`], which moves the phase and answers
//! with the single action the driver must perform next. All suspension —
//! awaiting a message, a tick, the reconnect delay, a commit — happens in
//! the driver, between events.

use vstd::prelude::*;
use vstd::string::StringExecFns;

use crate::config::LokiConnectionInfo;
use crate::errors::{DecodeError, QueryError, SourceError};
use crate::records::NormalizedRecord;
use crate::transport::{
    basic_auth_header,
    auth_header_chars,
    range_request_url,
    tail_request_url,
    range_pairs,
    tail_pairs,
    url_query_of,
    url_with_scheme_of,
};

verus! {

/// Fixed delay before a streaming reconnect, in nanoseconds.
pub const RETRY_DELAY_NS: u64 = 5_000_000_000;

/// Length of one polling window, in nanoseconds.
pub const BATCH_WINDOW_NS: u64 = 10_000_000_000;

/// The two transport strategies, chosen at construction and never switched
/// at runtime.
#[derive(Debug, PartialEq, Eq, Clone, Copy)]
pub enum TransportMode {
    /// One persistent tail subscription; each inbound message is a payload.
    Streaming,
    /// One range query per fixed tick; each response is a payload.
    Polling,
}

/// One polling window over wall-clock time, in nanoseconds since the epoch.
#[derive(Debug, PartialEq, Eq, Clone, Copy)]
pub struct TimeWindow {
    pub start_ns: u64,
    pub end_ns: u64,
}

impl TimeWindow {
    /// The window invariant: it is non-empty and no longer than one batch
    /// window.
    pub open spec fn wf(self) -> bool {
        self.start_ns < self.end_ns && self.end_ns - self.start_ns <= BATCH_WINDOW_NS
    }
}

/// The window one tick queries: it ends now and reaches one batch window
/// back, clipped at the epoch. Consecutive windows are computed from
/// wall-clock time independently, so delayed ticks may overlap or leave
/// gaps.
pub open spec fn window_for(now_ns: u64) -> TimeWindow {
    TimeWindow {
        start_ns: if now_ns >= BATCH_WINDOW_NS {
            (now_ns - BATCH_WINDOW_NS) as u64
        } else {
            0u64
        },
        end_ns: now_ns,
    }
}

/// The connector's run phase.
#[derive(Debug, PartialEq, Eq, Clone, Copy)]
pub enum Phase {
    /// Created, not yet started.
    Idle,
    /// A transport open is in flight.
    Connecting,
    /// The subscription is live; awaiting the next message.
    Tailing,
    /// A payload was handed out for envelope parsing.
    Decoding,
    /// A batch was handed to the sink; awaiting the transaction's outcome.
    Emitting,
    /// A mid-stream fault occurred at the given time; the fixed reconnect
    /// delay is running.
    WaitingToRetry { fault_ns: u64 },
    /// Polling mode is live; awaiting the next tick or its outcome.
    Polling,
    /// The connector is finished, cleanly or with a fatal error.
    Terminated { failed: bool },
}

/// One event the driver reports to the machine.
#[derive(Debug, PartialEq, Eq)]
pub enum SourceEvent {
    /// The connector is started at the given wall-clock time.
    Started { now_ns: u64 },
    /// The transport open succeeded.
    Opened,
    /// The transport open failed: bad endpoint, handshake failure, or a
    /// non-success upstream status. Fatal.
    OpenFailed { detail: String },
    /// One raw streaming message arrived.
    Message { payload: Vec<u8> },
    /// The envelope parse and normalization of the last payload finished.
    PayloadDecoded { outcome: Result<Vec<NormalizedRecord>, DecodeError> },
    /// A mid-stream transport read error at the given time. Recoverable.
    StreamFault { at_ns: u64 },
    /// The reconnect delay has elapsed; it is now the given time.
    RetryElapsed { now_ns: u64 },
    /// A poll tick fired at the given time.
    TickFired { now_ns: u64 },
    /// The range query of the last tick finished.
    TickOutcome { outcome: Result<Vec<NormalizedRecord>, QueryError> },
    /// The sink transaction for the last batch finished; a detail is given
    /// exactly when an insert failed.
    BatchDone { error: Option<String> },
    /// Cooperative shutdown.
    Shutdown,
}

/// The single action the driver must perform after an event.
#[derive(Debug, PartialEq, Eq)]
pub enum SourceAction {
    /// Nothing to do; await the next event.
    Skip,
    /// Open a new tail subscription anchored at the given start time.
    Connect { start_ns: u64 },
    /// Parse the payload as a tail envelope and normalize its records.
    Decode { payload: Vec<u8> },
    /// Sleep for the given delay, then report `RetryElapsed`.
    Wait { delay_ns: u64 },
    /// Issue one range query over the given window.
    RunQuery { window: TimeWindow },
    /// Open one sink transaction and insert the records in order.
    EmitBatch { records: Vec<NormalizedRecord> },
    /// Stop the connector, surfacing the error if there is one.
    Stop { error: Option<SourceError> },
}

/// The transition relation of the connector: from a phase and an event to
/// the next phase and the action owed. A terminated machine absorbs every
/// event; an event that does not belong to the current phase is ignored.
pub open spec fn transition_sp(mode: TransportMode, phase: Phase, event: SourceEvent) -> (
    Phase,
    SourceAction,
) {
    match (phase, event) {
        (Phase::Terminated { failed }, _) => (Phase::Terminated { failed }, SourceAction::Skip),
        (_, SourceEvent::Shutdown) => (
            Phase::Terminated { failed: false },
            SourceAction::Stop { error: None },
        ),
        (Phase::Idle, SourceEvent::Started { now_ns }) => match mode {
            TransportMode::Streaming => (
                Phase::Connecting,
                SourceAction::Connect { start_ns: now_ns },
            ),
            TransportMode::Polling => (Phase::Polling, SourceAction::Skip),
        },
        (Phase::Connecting, SourceEvent::Opened) => (Phase::Tailing, SourceAction::Skip),
        (Phase::Connecting, SourceEvent::OpenFailed { detail }) => (
            Phase::Terminated { failed: true },
            SourceAction::Stop { error: Some(SourceError::Initialization(detail)) },
        ),
        (Phase::Tailing, SourceEvent::Message { payload }) => if payload@.len() == 0 {
            (Phase::Tailing, SourceAction::Skip)
        } else {
            (Phase::Decoding, SourceAction::Decode { payload })
        },
        (Phase::Tailing, SourceEvent::StreamFault { at_ns }) => (
            Phase::WaitingToRetry { fault_ns: at_ns },
            SourceAction::Wait { delay_ns: RETRY_DELAY_NS },
        ),
        (Phase::WaitingToRetry { .. }, SourceEvent::RetryElapsed { now_ns }) => (
            Phase::Connecting,
            SourceAction::Connect { start_ns: now_ns },
        ),
        (Phase::Decoding, SourceEvent::PayloadDecoded { outcome }) => match outcome {
            Ok(records) => (Phase::Emitting, SourceAction::EmitBatch { records }),
            Err(_) => (Phase::Tailing, SourceAction::Skip),
        },
        (Phase::Polling, SourceEvent::TickFired { now_ns }) => if now_ns == 0 {
            (Phase::Polling, SourceAction::Skip)
        } else {
            (Phase::Polling, SourceAction::RunQuery { window: window_for(now_ns) })
        },
        (Phase::Polling, SourceEvent::TickOutcome { outcome }) => match outcome {
            Ok(records) => (Phase::Emitting, SourceAction::EmitBatch { records }),
            Err(_) => (Phase::Polling, SourceAction::Skip),
        },
        (Phase::Emitting, SourceEvent::BatchDone { error }) => match error {
            Some(detail) => (
                Phase::Terminated { failed: true },
                SourceAction::Stop { error: Some(SourceError::Persistence(detail)) },
            ),
            None => match mode {
                TransportMode::Streaming => (Phase::Tailing, SourceAction::Skip),
                TransportMode::Polling => (Phase::Polling, SourceAction::Skip),
            },
        },
        (p, _) => (p, SourceAction::Skip),
    }
}

/// One step of the transition relation, executably.
pub fn transition(mode: TransportMode, phase: Phase, event: SourceEvent) -> (r: (
    Phase,
    SourceAction,
))
    ensures
        r == transition_sp(mode, phase, event),
{
    match (phase, event) {
        (Phase::Terminated { failed }, _) => (Phase::Terminated { failed }, SourceAction::Skip),
        (_, SourceEvent::Shutdown) => (
            Phase::Terminated { failed: false },
            SourceAction::Stop { error: None },
        ),
        (Phase::Idle, SourceEvent::Started { now_ns }) => match mode {
            TransportMode::Streaming => (
                Phase::Connecting,
                SourceAction::Connect { start_ns: now_ns },
            ),
            TransportMode::Polling => (Phase::Polling, SourceAction::Skip),
        },
        (Phase::Connecting, SourceEvent::Opened) => (Phase::Tailing, SourceAction::Skip),
        (Phase::Connecting, SourceEvent::OpenFailed { detail }) => (
            Phase::Terminated { failed: true },
            SourceAction::Stop { error: Some(SourceError::Initialization(detail)) },
        ),
        (Phase::Tailing, SourceEvent::Message { payload }) => if payload.len() == 0 {
            (Phase::Tailing, SourceAction::Skip)
        } else {
            (Phase::Decoding, SourceAction::Decode { payload })
        },
        (Phase::Tailing, SourceEvent::StreamFault { at_ns }) => (
            Phase::WaitingToRetry { fault_ns: at_ns },
            SourceAction::Wait { delay_ns: RETRY_DELAY_NS },
        ),
        (Phase::WaitingToRetry { .. }, SourceEvent::RetryElapsed { now_ns }) => (
            Phase::Connecting,
            SourceAction::Connect { start_ns: now_ns },
        ),
        (Phase::Decoding, SourceEvent::PayloadDecoded { outcome }) => match outcome {
            Ok(records) => (Phase::Emitting, SourceAction::EmitBatch { records }),
            Err(_) => (Phase::Tailing, SourceAction::Skip),
        },
        (Phase::Polling, SourceEvent::TickFired { now_ns }) => if now_ns == 0 {
            (Phase::Polling, SourceAction::Skip)
        } else {
            let start_ns: u64 = if now_ns >= BATCH_WINDOW_NS {
                now_ns - BATCH_WINDOW_NS
            } else {
                0
            };
            (
                Phase::Polling,
                SourceAction::RunQuery { window: TimeWindow { start_ns, end_ns: now_ns } },
            )
        },
        (Phase::Polling, SourceEvent::TickOutcome { outcome }) => match outcome {
            Ok(records) => (Phase::Emitting, SourceAction::EmitBatch { records }),
            Err(_) => (Phase::Polling, SourceAction::Skip),
        },
        (Phase::Emitting, SourceEvent::BatchDone { error }) => match error {
            Some(detail) => (
                Phase::Terminated { failed: true },
                SourceAction::Stop { error: Some(SourceError::Persistence(detail)) },
            ),
            None => match mode {
                TransportMode::Streaming => (Phase::Tailing, SourceAction::Skip),
                TransportMode::Polling => (Phase::Polling, SourceAction::Skip),
            },
        },
        (p, _) => (p, SourceAction::Skip),
    }
}

/// The source reader: connection parameters, the selector passed verbatim
/// upstream, the transport strategy, and the current run phase.
pub struct LokiSourceReader {
    pub conn_info: LokiConnectionInfo,
    pub query: String,
    pub mode: TransportMode,
    pub phase: Phase,
}

impl LokiSourceReader {
    /// Creates a reader: the service path of the chosen transport is
    /// appended to the endpoint, and the machine starts idle.
    pub fn new(conn_info: LokiConnectionInfo, query: String, mode: TransportMode) -> (r:
        LokiSourceReader)
        ensures
            r.conn_info@.user == conn_info@.user,
            r.conn_info@.pw == conn_info@.pw,
            mode == TransportMode::Streaming ==> r.conn_info@.endpoint == conn_info@.endpoint
                + "/loki/api/v1/tail"@,
            mode == TransportMode::Polling ==> r.conn_info@.endpoint == conn_info@.endpoint
                + "/loki/api/v1/query_range"@,
            r.query == query,
            r.mode == mode,
            r.phase == Phase::Idle,
    {
        let mut ci = conn_info;
        match mode {
            TransportMode::Streaming => ci.endpoint.append("/loki/api/v1/tail"),
            TransportMode::Polling => ci.endpoint.append("/loki/api/v1/query_range"),
        }
        LokiSourceReader { conn_info: ci, query, mode, phase: Phase::Idle }
    }

    /// Feeds one event to the machine: the phase moves along the
    /// transition relation and the owed action is returned. Everything else
    /// about the reader stays as it was.
    pub fn on_event(&mut self, event: SourceEvent) -> (a: SourceAction)
        ensures
            final(self).conn_info == old(self).conn_info,
            final(self).query == old(self).query,
            final(self).mode == old(self).mode,
            (final(self).phase, a) == transition_sp(old(self).mode, old(self).phase, event),
    {
        let (next, action) = transition(self.mode, self.phase, event);
        self.phase = next;
        action
    }

    /// The tail-subscription URL for a connection attempt anchored at the
    /// given start time.
    pub fn tail_url(&self, start_ns: u64) -> (r: Option<String>)
        ensures
            r.deep_view() == url_with_scheme_of(
                self.conn_info@.endpoint,
                "wss"@,
                tail_pairs(self.query@, start_ns),
            ),
    {
        tail_request_url(self.conn_info.endpoint.as_str(), self.query.as_str(), start_ns)
    }

    /// The range-query URL for one polling window.
    pub fn range_url(&self, window: TimeWindow) -> (r: Option<String>)
        ensures
            r.deep_view() == url_query_of(
                self.conn_info@.endpoint,
                range_pairs(self.query@, window.start_ns, window.end_ns),
            ),
    {
        range_request_url(
            self.conn_info.endpoint.as_str(),
            self.query.as_str(),
            window.start_ns,
            window.end_ns,
        )
    }

    /// The Basic authentication header for a connection attempt, present
    /// exactly when a username is configured.
    pub fn auth_header(&self) -> (r: Option<String>)
        ensures
            r is Some <==> self.conn_info@.user is Some,
            self.conn_info@.user matches Some(u) ==> r matches Some(h) && h@ == auth_header_chars(
                u,
                self.conn_info@.pw,
            ),
    {
        basic_auth_header(&self.conn_info)
    }
}

/// Empty-payload skip: an empty streaming message is a heartbeat; neither
/// decode nor emit is asked for, no record is produced, and the machine
/// keeps tailing.
pub proof fn lemma_empty_payload_skip(mode: TransportMode, payload: Vec<u8>)
    requires
        payload@.len() == 0,
    ensures
        transition_sp(mode, Phase::Tailing, SourceEvent::Message { payload }) == (
            Phase::Tailing,
            SourceAction::Skip,
        ),
{
}

/// Decode resilience: a payload that failed to parse is dropped without
/// terminating the connector, the machine accepts the next payload, and a
/// well-formed one still hands its records to the emitter.
pub proof fn lemma_decode_resilience(
    e: DecodeError,
    good: Vec<u8>,
    records: Vec<NormalizedRecord>,
)
    requires
        good@.len() > 0,
    ensures
        transition_sp(
            TransportMode::Streaming,
            Phase::Decoding,
            SourceEvent::PayloadDecoded { outcome: Err(e) },
        ) == (Phase::Tailing, SourceAction::Skip),
        transition_sp(
            TransportMode::Streaming,
            Phase::Tailing,
            SourceEvent::Message { payload: good },
        ) == (Phase::Decoding, SourceAction::Decode { payload: good }),
        transition_sp(
            TransportMode::Streaming,
            Phase::Decoding,
            SourceEvent::PayloadDecoded { outcome: Ok(records) },
        ) == (Phase::Emitting, SourceAction::EmitBatch { records }),
{
}

/// Reconnect behavior: a mid-stream fault starts the fixed delay, and once
/// it has elapsed the machine makes exactly one new connection attempt,
/// anchored at the current time — at or after the fault. A stray elapse
/// while already connecting asks for no second attempt.
pub proof fn lemma_reconnect_after_fault(at_ns: u64, now_ns: u64, later_ns: u64)
    requires
        at_ns <= now_ns,
    ensures
        transition_sp(
            TransportMode::Streaming,
            Phase::Tailing,
            SourceEvent::StreamFault { at_ns },
        ) == (
            Phase::WaitingToRetry { fault_ns: at_ns },
            SourceAction::Wait { delay_ns: RETRY_DELAY_NS },
        ),
        transition_sp(
            TransportMode::Streaming,
            Phase::WaitingToRetry { fault_ns: at_ns },
            SourceEvent::RetryElapsed { now_ns },
        ) == (Phase::Connecting, SourceAction::Connect { start_ns: now_ns }),
        now_ns >= at_ns,
        transition_sp(
            TransportMode::Streaming,
            Phase::Connecting,
            SourceEvent::RetryElapsed { now_ns: later_ns },
        ) == (Phase::Connecting, SourceAction::Skip),
{
}

/// Poll tolerance: a failed tick is dropped and the machine keeps polling;
/// the next tick still runs its query on schedule, and a successful
/// outcome still hands its records to the emitter.
pub proof fn lemma_poll_tolerance(q: QueryError, now_ns: u64, records: Vec<NormalizedRecord>)
    requires
        now_ns > 0,
    ensures
        transition_sp(
            TransportMode::Polling,
            Phase::Polling,
            SourceEvent::TickOutcome { outcome: Err(q) },
        ) == (Phase::Polling, SourceAction::Skip),
        transition_sp(
            TransportMode::Polling,
            Phase::Polling,
            SourceEvent::TickFired { now_ns },
        ) == (Phase::Polling, SourceAction::RunQuery { window: window_for(now_ns) }),
        transition_sp(
            TransportMode::Polling,
            Phase::Polling,
            SourceEvent::TickOutcome { outcome: Ok(records) },
        ) == (Phase::Emitting, SourceAction::EmitBatch { records }),
{
}

/// Persistence failures are fatal: a failed batch terminates the
/// connector with the sink's detail, and a terminated machine absorbs
/// every further event without taking another action.
pub proof fn lemma_persistence_failure_fatal(
    mode: TransportMode,
    detail: String,
    event: SourceEvent,
)
    ensures
        transition_sp(
            mode,
            Phase::Emitting,
            SourceEvent::BatchDone { error: Some(detail) },
        ) == (
            Phase::Terminated { failed: true },
            SourceAction::Stop { error: Some(SourceError::Persistence(detail)) },
        ),
        transition_sp(mode, Phase::Terminated { failed: true }, event) == (
            Phase::Terminated { failed: true },
            SourceAction::Skip,
        ),
{
}

/// Every window the machine queries is well-formed: it ends at the tick's
/// current time, starts strictly before it, and spans at most one batch
/// window.
pub proof fn lemma_window_wf(now_ns: u64)
    requires
        now_ns > 0,
    ensures
        window_for(now_ns).wf(),
        window_for(now_ns).end_ns == now_ns,
{
}

} // verus!
