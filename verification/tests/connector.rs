//! End-to-end tests of the connector library: builder overrides, payload
//! normalization, request building against the real url and base64 crates,
//! and the run state machine's resilience rules.

use loki_source::config::LokiConnectionInfo;
use loki_source::emitter::BatchEmitter;
use loki_source::errors::{DecodeError, QueryError, SourceError};
use loki_source::machine::{
    LokiSourceReader, Phase, SourceAction, SourceEvent, TimeWindow, TransportMode,
};
use loki_source::records::{decode_parsed, normalize, LogEntry, NormalizedRecord, RawStream};
use loki_source::transport::u64_to_dec;

fn s(x: &str) -> String {
    x.to_string()
}

fn sample_streams() -> Vec<RawStream> {
    vec![
        RawStream {
            labels: vec![(s("job"), s("systemd-journal")), (s("host"), s("a"))],
            entries: vec![
                LogEntry { ts: s("1"), line: s("first") },
                LogEntry { ts: s("2"), line: s("second") },
            ],
        },
        RawStream {
            labels: vec![(s("job"), s("nginx"))],
            entries: vec![LogEntry { ts: s("3"), line: s("third") }],
        },
    ]
}

#[test]
fn builder_override_semantics() {
    let c = LokiConnectionInfo::new(s("https://example.net"), None, None)
        .with_user(Some(s("a")))
        .with_user(None);
    assert_eq!(c.user, Some(s("a")));
    let c = c.with_user(Some(s("b")));
    assert_eq!(c.user, Some(s("b")));
    assert_eq!(c.endpoint, s("https://example.net"));
}

#[test]
fn builder_password_and_endpoint_override() {
    let c = LokiConnectionInfo::new(s(""), None, Some(s("pw1")))
        .with_password(None)
        .with_endpoint(Some(s("http://other")));
    assert_eq!(c.pw, Some(s("pw1")));
    assert_eq!(c.endpoint, s("http://other"));
    let c = c.with_password(Some(s("pw2"))).with_endpoint(None);
    assert_eq!(c.pw, Some(s("pw2")));
    assert_eq!(c.endpoint, s("http://other"));
}

#[test]
fn normalize_preserves_order_and_labels() {
    let recs = normalize(&sample_streams());
    assert_eq!(recs.len(), 3);
    assert_eq!(
        recs[0],
        NormalizedRecord {
            ts: s("1"),
            line: s("first"),
            labels: vec![(s("job"), s("systemd-journal")), (s("host"), s("a"))],
        }
    );
    assert_eq!(recs[1].ts, s("2"));
    assert_eq!(recs[1].line, s("second"));
    assert_eq!(recs[1].labels, recs[0].labels);
    assert_eq!(
        recs[2],
        NormalizedRecord { ts: s("3"), line: s("third"), labels: vec![(s("job"), s("nginx"))] }
    );
}

#[test]
fn normalize_of_no_streams_is_empty() {
    assert_eq!(normalize(&Vec::new()), Vec::new());
}

#[test]
fn decode_parsed_maps_parse_failure_to_decode_error() {
    let r = decode_parsed(&None, s("expected a streams envelope"));
    assert_eq!(r, Err(DecodeError { detail: s("expected a streams envelope") }));
    let ok = decode_parsed(&Some(sample_streams()), s("")).unwrap();
    assert_eq!(ok.len(), 3);
}

#[test]
fn decimal_formatting() {
    assert_eq!(u64_to_dec(0), s("0"));
    assert_eq!(u64_to_dec(9), s("9"));
    assert_eq!(u64_to_dec(105), s("105"));
    assert_eq!(u64_to_dec(5_000_000_000), s("5000000000"));
    assert_eq!(u64_to_dec(u64::MAX), s("18446744073709551615"));
}

#[test]
fn tail_url_for_grafana_endpoint() {
    let conn = LokiConnectionInfo::new(
        s("https://logs-prod-us-central1.grafana.net"),
        Some(s("5442")),
        Some(s(""))
    );
    let reader = LokiSourceReader::new(
        conn,
        s("{job=\"systemd-journal\"}"),
        TransportMode::Streaming,
    );
    assert_eq!(reader.conn_info.endpoint, s("https://logs-prod-us-central1.grafana.net/loki/api/v1/tail"));
    let url = reader.tail_url(1234).unwrap();
    assert_eq!(
        url,
        s("wss://logs-prod-us-central1.grafana.net/loki/api/v1/tail\
           ?query=%7Bjob%3D%22systemd-journal%22%7D&limit=5000&start=1234")
    );
}

#[test]
fn range_url_keeps_scheme_and_orders_window() {
    let conn = LokiConnectionInfo::new(s("http://localhost:3100"), None, None);
    let reader = LokiSourceReader::new(conn, s("{app=\"x\"}"), TransportMode::Polling);
    let url = reader
        .range_url(TimeWindow { start_ns: 5_000_000_000, end_ns: 15_000_000_000 })
        .unwrap();
    assert_eq!(
        url,
        s("http://localhost:3100/loki/api/v1/query_range\
           ?query=%7Bapp%3D%22x%22%7D&start=5000000000&end=15000000000&direction=forward")
    );
}

#[test]
fn bad_endpoint_yields_no_url() {
    let conn = LokiConnectionInfo::new(s("not a url"), None, None);
    let reader = LokiSourceReader::new(conn, s("{}"), TransportMode::Streaming);
    assert_eq!(reader.tail_url(0), None);
}

#[test]
fn non_upgradable_scheme_yields_no_url() {
    // A non-special scheme cannot be switched to the secure streaming
    // scheme, so the connection attempt must be refused.
    let conn = LokiConnectionInfo::new(s("mailto:someone@example.net"), None, None);
    let reader = LokiSourceReader::new(conn, s("{}"), TransportMode::Streaming);
    assert_eq!(reader.tail_url(0), None);
}

#[test]
fn auth_header_present_exactly_with_user() {
    let with_user = LokiConnectionInfo::new(s("https://e"), Some(s("user")), Some(s("pw")));
    let reader = LokiSourceReader::new(with_user, s("{}"), TransportMode::Streaming);
    assert_eq!(reader.auth_header(), Some(s("Basic dXNlcjpwdw==")));

    let empty_pw = LokiConnectionInfo::new(s("https://e"), Some(s("5442")), Some(s("")));
    let reader = LokiSourceReader::new(empty_pw, s("{}"), TransportMode::Streaming);
    assert_eq!(reader.auth_header(), Some(s("Basic NTQ0Mjo=")));

    let no_pw = LokiConnectionInfo::new(s("https://e"), Some(s("5442")), None);
    let reader = LokiSourceReader::new(no_pw, s("{}"), TransportMode::Streaming);
    assert_eq!(reader.auth_header(), Some(s("Basic NTQ0Mjo=")));

    let no_user = LokiConnectionInfo::new(s("https://e"), None, Some(s("pw")));
    let reader = LokiSourceReader::new(no_user, s("{}"), TransportMode::Streaming);
    assert_eq!(reader.auth_header(), None);
}

fn streaming_reader() -> LokiSourceReader {
    let conn = LokiConnectionInfo::new(s("https://logs.example.net"), None, None);
    LokiSourceReader::new(conn, s("{job=\"j\"}"), TransportMode::Streaming)
}

fn polling_reader() -> LokiSourceReader {
    let conn = LokiConnectionInfo::new(s("https://logs.example.net"), None, None);
    LokiSourceReader::new(conn, s("{job=\"j\"}"), TransportMode::Polling)
}

#[test]
fn empty_payload_is_skipped() {
    let mut r = streaming_reader();
    assert_eq!(r.on_event(SourceEvent::Started { now_ns: 7 }), SourceAction::Connect {
        start_ns: 7
    });
    assert_eq!(r.on_event(SourceEvent::Opened), SourceAction::Skip);
    let a = r.on_event(SourceEvent::Message { payload: Vec::new() });
    assert_eq!(a, SourceAction::Skip);
    assert_eq!(r.phase, Phase::Tailing);
}

#[test]
fn decode_resilience_across_payloads() {
    let mut r = streaming_reader();
    r.on_event(SourceEvent::Started { now_ns: 0 });
    r.on_event(SourceEvent::Opened);

    // A malformed payload: handed out for decoding, the parse fails, the
    // payload is dropped and the connector keeps running.
    let bad = b"{not json".to_vec();
    assert_eq!(
        r.on_event(SourceEvent::Message { payload: bad.clone() }),
        SourceAction::Decode { payload: bad }
    );
    let failed = decode_parsed(&None, s("bad json"));
    assert_eq!(
        r.on_event(SourceEvent::PayloadDecoded { outcome: failed }),
        SourceAction::Skip
    );
    assert_eq!(r.phase, Phase::Tailing);

    // The following well-formed payload yields its records.
    let good = b"{\"streams\":[]}".to_vec();
    assert_eq!(
        r.on_event(SourceEvent::Message { payload: good.clone() }),
        SourceAction::Decode { payload: good }
    );
    let decoded = decode_parsed(&Some(sample_streams()), s(""));
    let records = decoded.clone().unwrap();
    assert_eq!(
        r.on_event(SourceEvent::PayloadDecoded { outcome: decoded }),
        SourceAction::EmitBatch { records }
    );
    assert_eq!(r.phase, Phase::Emitting);
    assert_eq!(r.on_event(SourceEvent::BatchDone { error: None }), SourceAction::Skip);
    assert_eq!(r.phase, Phase::Tailing);
}

#[test]
fn stream_fault_reconnects_after_fixed_delay() {
    let mut r = streaming_reader();
    r.on_event(SourceEvent::Started { now_ns: 100 });
    r.on_event(SourceEvent::Opened);
    let fault_ns = 200;
    assert_eq!(
        r.on_event(SourceEvent::StreamFault { at_ns: fault_ns }),
        SourceAction::Wait { delay_ns: 5_000_000_000 }
    );
    let now_ns = fault_ns + 5_000_000_000;
    let a = r.on_event(SourceEvent::RetryElapsed { now_ns });
    match a {
        SourceAction::Connect { start_ns } => assert!(start_ns >= fault_ns),
        other => panic!("expected a reconnect, got {:?}", other),
    }
    // Exactly one attempt: a stray elapse asks for no second connect.
    assert_eq!(r.on_event(SourceEvent::RetryElapsed { now_ns: now_ns + 1 }), SourceAction::Skip);
}

#[test]
fn initial_connect_failure_is_fatal() {
    let mut r = streaming_reader();
    r.on_event(SourceEvent::Started { now_ns: 0 });
    let a = r.on_event(SourceEvent::OpenFailed { detail: s("handshake refused") });
    assert_eq!(
        a,
        SourceAction::Stop { error: Some(SourceError::Initialization(s("handshake refused"))) }
    );
    assert_eq!(r.phase, Phase::Terminated { failed: true });
    // Terminated absorbs everything.
    assert_eq!(r.on_event(SourceEvent::Opened), SourceAction::Skip);
    assert_eq!(r.phase, Phase::Terminated { failed: true });
}

#[test]
fn poll_tolerance_across_ticks() {
    let mut r = polling_reader();
    assert_eq!(r.on_event(SourceEvent::Started { now_ns: 0 }), SourceAction::Skip);
    assert_eq!(r.phase, Phase::Polling);

    // Tick N fires and its query fails: the tick is dropped.
    assert_eq!(
        r.on_event(SourceEvent::TickFired { now_ns: 15_000_000_000 }),
        SourceAction::RunQuery {
            window: TimeWindow { start_ns: 5_000_000_000, end_ns: 15_000_000_000 }
        }
    );
    let failed: Result<Vec<NormalizedRecord>, QueryError> =
        Err(QueryError { detail: s("status 500") });
    assert_eq!(r.on_event(SourceEvent::TickOutcome { outcome: failed }), SourceAction::Skip);
    assert_eq!(r.phase, Phase::Polling);

    // Tick N+1 still runs on schedule and produces records.
    assert_eq!(
        r.on_event(SourceEvent::TickFired { now_ns: 25_000_000_000 }),
        SourceAction::RunQuery {
            window: TimeWindow { start_ns: 15_000_000_000, end_ns: 25_000_000_000 }
        }
    );
    let records = normalize(&sample_streams());
    assert_eq!(
        r.on_event(SourceEvent::TickOutcome { outcome: Ok(records.clone()) }),
        SourceAction::EmitBatch { records }
    );
}

#[test]
fn early_tick_window_is_clipped_at_epoch() {
    let mut r = polling_reader();
    r.on_event(SourceEvent::Started { now_ns: 0 });
    assert_eq!(
        r.on_event(SourceEvent::TickFired { now_ns: 3 }),
        SourceAction::RunQuery { window: TimeWindow { start_ns: 0, end_ns: 3 } }
    );
}

#[test]
fn batch_emitter_hands_rows_out_in_order() {
    let records = normalize(&sample_streams());
    let mut e = BatchEmitter::new(records.clone());
    assert_eq!(e.next_row(), Some(&records[0]));
    e.record_result(true);
    assert_eq!(e.next_row(), Some(&records[1]));
    e.record_result(true);
    assert_eq!(e.next_row(), Some(&records[2]));
    e.record_result(true);
    assert_eq!(e.next_row(), None);
    assert!(e.is_complete());
    assert!(!e.has_failed());
}

#[test]
fn transaction_atomicity_stops_at_first_failure() {
    // The second of three inserts fails: the emitter offers no further
    // row, whatever is reported afterwards, and the batch is not complete.
    let records = normalize(&sample_streams());
    let mut e = BatchEmitter::new(records.clone());
    assert_eq!(e.next_row(), Some(&records[0]));
    e.record_result(true);
    assert_eq!(e.next_row(), Some(&records[1]));
    e.record_result(false);
    assert_eq!(e.next_row(), None);
    e.record_result(true);
    assert_eq!(e.next_row(), None);
    assert!(e.has_failed());
    assert!(!e.is_complete());
}

#[test]
fn persistence_failure_terminates_connector() {
    let mut r = streaming_reader();
    r.on_event(SourceEvent::Started { now_ns: 0 });
    r.on_event(SourceEvent::Opened);
    let payload = b"x".to_vec();
    r.on_event(SourceEvent::Message { payload });
    let records = normalize(&sample_streams());
    r.on_event(SourceEvent::PayloadDecoded { outcome: Ok(records) });
    let a = r.on_event(SourceEvent::BatchDone { error: Some(s("sink refused the row")) });
    assert_eq!(
        a,
        SourceAction::Stop { error: Some(SourceError::Persistence(s("sink refused the row"))) }
    );
    assert_eq!(r.phase, Phase::Terminated { failed: true });
}

#[test]
fn shutdown_terminates_cleanly() {
    let mut r = streaming_reader();
    r.on_event(SourceEvent::Started { now_ns: 0 });
    assert_eq!(r.on_event(SourceEvent::Shutdown), SourceAction::Stop { error: None });
    assert_eq!(r.phase, Phase::Terminated { failed: false });
}
