use sensor_mock::alert::{decimal_bytes, render_alert, ALERT_HEAD, ALERT_TAIL};
use sensor_mock::generator::{Action, Operation, Phase, StreamGenerator};
use sensor_mock::ingest::{IngestSession, IngestStep, MockSensorService, StreamItem};
use sensor_mock::pacing::pacing_delay_ns;
use sensor_mock::reporter::ThroughputReporter;
use std::sync::atomic::{AtomicU64, Ordering};
use std::sync::Arc;

const SEC: u64 = 1_000_000_000;

fn sent_record(a: &Action) -> Vec<u8> {
    match &a.op {
        Operation::Send { record } => record.clone(),
        other => panic!("expected a record, got {:?}", other),
    }
}

fn record_id(record: &[u8]) -> u64 {
    let text = std::str::from_utf8(record).unwrap();
    let start = text.find("\"signature_id\":").unwrap() + "\"signature_id\":".len();
    let rest = &text[start..];
    let end = rest.find(',').unwrap();
    rest[..end].parse().unwrap()
}

fn run_session(svc: &MockSensorService, session: &mut IngestSession, counts: &[u64]) {
    for &m in counts {
        let step = svc.on_stream_item(session, StreamItem::Event { metrics: m });
        assert!(matches!(step, IngestStep::Continue { added, .. } if added == m));
    }
}

#[test]
fn decimal_digits() {
    assert_eq!(decimal_bytes(0), b"0".to_vec());
    assert_eq!(decimal_bytes(7), b"7".to_vec());
    assert_eq!(decimal_bytes(10), b"10".to_vec());
    assert_eq!(decimal_bytes(1234567), b"1234567".to_vec());
    assert_eq!(decimal_bytes(u64::MAX), b"18446744073709551615".to_vec());
}

#[test]
fn alert_record_layout() {
    let r = render_alert(1000001);
    let mut expected = ALERT_HEAD.as_bytes().to_vec();
    expected.extend_from_slice(b"1000001");
    expected.extend_from_slice(ALERT_TAIL.as_bytes());
    assert_eq!(r, expected);
    assert_eq!(*r.last().unwrap(), b'\n');
    assert_eq!(r.iter().filter(|&&b| b == b'\n').count(), 1);
    let text = String::from_utf8(r).unwrap();
    assert!(text.contains("\"signature_id\":1000001,\"rev\":1"));
    assert!(text.starts_with("{\"metadata\":{\"sensor_id\":\"test\""));
    assert!(text.contains("\"event_type\":\"alert\""));
}

#[test]
fn pacing_unlimited_never_waits() {
    assert_eq!(pacing_delay_ns(0, 0, 0), 0);
    assert_eq!(pacing_delay_ns(0, 1_000_000, 5), 0);
}

#[test]
fn pacing_fixed_interval() {
    assert_eq!(pacing_delay_ns(2, 0, 0), 0);
    assert_eq!(pacing_delay_ns(2, 1, 0), 500_000_000);
    assert_eq!(pacing_delay_ns(2, 3, 1_200_000_000), 300_000_000);
    assert_eq!(pacing_delay_ns(2, 3, 2_000_000_000), 0);
    assert_eq!(pacing_delay_ns(3, 1, 0), 333_333_333);
    assert_eq!(pacing_delay_ns(1, u64::MAX, 0), u64::MAX);
}

fn records_within(rate: u64, horizon_ns: u64) -> u64 {
    // ideal clock: each record leaves exactly when its wait is over
    let mut t: u64 = 0;
    let mut k: u64 = 0;
    loop {
        t += pacing_delay_ns(rate, k, t);
        if t > horizon_ns {
            return k;
        }
        k += 1;
    }
}

#[test]
fn rate_two_for_three_seconds() {
    let n = records_within(2, 3 * SEC);
    assert!((5..=7).contains(&n), "{}", n);
}

#[test]
fn rate_limit_tracks_rate_times_time() {
    for &(rate, secs) in &[(1u64, 2u64), (5, 2), (10, 4), (100, 3)] {
        let n = records_within(rate, secs * SEC);
        assert!(n >= rate * secs && n <= rate * secs + 1, "rate {} secs {}: {}", rate, secs, n);
        assert!(n < records_within(rate * 10, secs * SEC));
    }
}

#[test]
fn generator_waits_for_endpoint() {
    let mut g = StreamGenerator::new(0);
    let a = g.first_action();
    assert!(matches!(a.op, Operation::Probe));
    assert_eq!(a.wait_ns, 0);
    for _ in 0..4 {
        let a = g.step(false, 0);
        assert!(matches!(a.op, Operation::Probe));
        assert_eq!(a.wait_ns, 500_000_000);
        assert_eq!(g.phase, Phase::AwaitEndpoint);
    }
    // the endpoint appears: the next probe finds it and a connection follows at once
    let a = g.step(true, 2 * SEC);
    assert!(matches!(a.op, Operation::Connect));
    assert_eq!(a.wait_ns, 0);
    let a = g.step(false, 2 * SEC);
    assert!(matches!(a.op, Operation::Connect));
    assert_eq!(a.wait_ns, 500_000_000);
    let a = g.step(true, 2 * SEC);
    assert_eq!(g.phase, Phase::Emitting);
    assert_eq!(record_id(&sent_record(&a)), 1);
    assert_eq!(a.wait_ns, 0);
}

#[test]
fn generator_reconnects_after_failed_write() {
    let mut g = StreamGenerator::new(0);
    g.step(true, 0);
    let a = g.step(true, 0);
    assert_eq!(record_id(&sent_record(&a)), 1);
    // the endpoint goes away
    let a = g.step(false, 0);
    assert!(matches!(a.op, Operation::Connect));
    assert_eq!(a.wait_ns, 0);
    assert_eq!(g.phase, Phase::Reconnecting);
    // reconnection fails: the record is dropped, the next one follows after a pause
    let a = g.step(false, 0);
    assert_eq!(g.phase, Phase::Emitting);
    assert_eq!(record_id(&sent_record(&a)), 2);
    assert_eq!(a.wait_ns, 100_000_000);
    for _ in 0..5 {
        let a = g.step(false, 0);
        assert!(matches!(a.op, Operation::Connect));
        let a = g.step(false, 0);
        assert_eq!(a.wait_ns, 100_000_000);
        assert!(matches!(a.op, Operation::Send { .. }));
    }
    // the endpoint is back
    let a = g.step(false, 0);
    assert!(matches!(a.op, Operation::Connect));
    let a = g.step(true, 0);
    assert_eq!(g.phase, Phase::Emitting);
    assert_eq!(a.wait_ns, 0);
    assert_eq!(record_id(&sent_record(&a)), 8);
    let a = g.step(true, 0);
    assert_eq!(record_id(&sent_record(&a)), 9);
}

#[test]
fn generator_paces_records() {
    let mut g = StreamGenerator::new(2);
    g.step(true, 0);
    let a = g.step(true, 10 * SEC);
    assert_eq!(a.wait_ns, 0);
    let a = g.step(true, 10 * SEC);
    assert_eq!(a.wait_ns, 500_000_000);
    let a = g.step(true, 10 * SEC + 500_000_000);
    assert_eq!(a.wait_ns, 500_000_000);
    let a = g.step(true, 12 * SEC);
    assert_eq!(a.wait_ns, 0);
}

#[test]
fn identifiers_strictly_increase() {
    let mut g = StreamGenerator::new(0);
    g.step(true, 0);
    let mut ids = Vec::new();
    let mut records = Vec::new();
    for _ in 0..200 {
        let a = g.step(true, 0);
        let r = sent_record(&a);
        ids.push(record_id(&r));
        records.push(r);
    }
    assert_eq!(ids, (1..=200).collect::<Vec<u64>>());
    records.sort();
    records.dedup();
    assert_eq!(records.len(), 200);
}

#[test]
fn identifier_wraps_on_overflow() {
    let mut g = StreamGenerator::new(0);
    g.phase = Phase::Emitting;
    g.last_id = u64::MAX;
    let a = g.step(true, 0);
    assert_eq!(g.last_id, 0);
    assert_eq!(record_id(&sent_record(&a)), 0);
}

#[test]
fn two_sessions_total() {
    let counter = Arc::new(AtomicU64::new(0));
    let svc = MockSensorService::new(counter.clone());
    let mut s1 = IngestSession::new();
    let mut s2 = IngestSession::new();
    svc.on_stream_item(&mut s1, StreamItem::Event { metrics: 1 });
    svc.on_stream_item(&mut s2, StreamItem::Event { metrics: 4 });
    svc.on_stream_item(&mut s1, StreamItem::Event { metrics: 2 });
    svc.on_stream_item(&mut s2, StreamItem::Event { metrics: 5 });
    svc.on_stream_item(&mut s1, StreamItem::Event { metrics: 3 });
    assert_eq!(svc.on_stream_item(&mut s1, StreamItem::End), IngestStep::Acknowledge);
    assert_eq!(svc.on_stream_item(&mut s2, StreamItem::End), IngestStep::Acknowledge);
    assert_eq!(counter.load(Ordering::Relaxed), 15);
    assert_eq!(svc.total(), 15);
    assert_eq!((s1.events, s1.metrics), (3, 6));
    assert_eq!((s2.events, s2.metrics), (2, 9));
}

#[test]
fn sessions_in_any_order_sum() {
    let counter = Arc::new(AtomicU64::new(0));
    let svc = MockSensorService::new(counter);
    let mut s = IngestSession::new();
    run_session(&svc, &mut s, &[5, 4, 3, 2, 1]);
    let mut t = IngestSession::new();
    run_session(&svc, &mut t, &[10, 0, 7]);
    assert_eq!(svc.total(), 32);
    assert_eq!(svc.counter().load(Ordering::Relaxed), 32);
}

#[test]
fn empty_session_acknowledged() {
    let svc = MockSensorService::new(Arc::new(AtomicU64::new(9)));
    let mut s = IngestSession::new();
    assert_eq!(svc.on_stream_item(&mut s, StreamItem::End), IngestStep::Acknowledge);
    assert_eq!(svc.total(), 9);
    assert_eq!((s.events, s.metrics), (0, 0));
}

#[test]
fn read_error_fails_call() {
    let svc = MockSensorService::new(Arc::new(AtomicU64::new(0)));
    let mut s = IngestSession::new();
    run_session(&svc, &mut s, &[3]);
    assert_eq!(svc.on_stream_item(&mut s, StreamItem::ReadError), IngestStep::Fail);
    assert_eq!(svc.total(), 3);
    assert_eq!(s.events, 1);
}

#[test]
fn progress_report_every_thousand_events() {
    let svc = MockSensorService::new(Arc::new(AtomicU64::new(0)));
    let mut s = IngestSession::new();
    let mut reports = Vec::new();
    for i in 1..=2500u64 {
        if let IngestStep::Continue { report: true, .. } = svc.on_stream_item(&mut s, StreamItem::Event { metrics: 2 }) {
            reports.push(i);
        }
    }
    assert_eq!(reports, vec![1000, 2000]);
    assert_eq!(svc.total(), 5000);
}

#[test]
fn reporter_deltas() {
    let mut r = ThroughputReporter::new();
    assert_eq!(r.sample(10), 10);
    assert_eq!(r.sample(25), 15);
    assert_eq!(r.sample(25), 0);
    assert_eq!(r.last, 25);
    r.last = u64::MAX - 1;
    assert_eq!(r.sample(3), 5);
}

#[test]
fn reporter_reads_service_counter() {
    let svc = MockSensorService::new(Arc::new(AtomicU64::new(0)));
    let mut r = ThroughputReporter::new();
    let mut s = IngestSession::new();
    assert_eq!(r.tick(&svc), 0);
    run_session(&svc, &mut s, &[1, 2, 3]);
    assert_eq!(r.tick(&svc), 6);
    run_session(&svc, &mut s, &[4, 5]);
    assert_eq!(r.tick(&svc), 9);
    assert_eq!(r.tick(&svc), 0);
}
