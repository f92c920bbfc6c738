use monitor_agent::config::{Args, ClientType};
use monitor_agent::decimal::{decimal_string, indexed_label_string};
use monitor_agent::metrics::{HttpClient, InfluxDBClient, Metrics, MetricsClient};
use monitor_agent::monitor::{
    make_poll_record, make_stream_record, to_ms, MonitorManager, PollAction, PollEvent,
    PollMonitor, PollState, StreamAction, StreamEvent, StreamMonitor, StreamState, Transport,
    POLL_PERIOD_MS, RECONNECT_BACKOFF_MS,
};
use std::cell::Cell;

fn strings(v: &[&str]) -> Vec<String> {
    v.iter().map(|s| s.to_string()).collect()
}

fn args(ws_names: &[&str], ws: &[&str], http_names: &[&str], http: &[&str]) -> Args {
    Args {
        name: "agent".to_string(),
        ws_names: strings(ws_names),
        ws: strings(ws),
        ws_client: ClientType::Http,
        http_names: strings(http_names),
        http: strings(http),
        http_client: ClientType::Influx,
        server: "http://localhost:7777".to_string(),
        db_host: "http://localhost:8181".to_string(),
        db_name: "test".to_string(),
        table_name: "ws_metric".to_string(),
        token: "tok-1".to_string(),
    }
}

#[test]
fn ws_names_fill_in_placeholders() {
    let a = args(&["eth"], &["ws://a", "ws://b", "ws://c"], &[], &[]);
    let c = a.get_ws_configs();
    assert_eq!(c.len(), 3);
    let tags: Vec<&str> = c.iter().map(|x| x.tag.as_str()).collect();
    assert_eq!(tags, vec!["eth", "websocket-1", "websocket-2"]);
    for x in &c {
        assert_eq!(x.name, "agent");
        assert_eq!(x.client, ClientType::Http);
    }
}

#[test]
fn http_names_fill_in_placeholders() {
    let a = args(&[], &[], &[], &["http://a", "http://b"]);
    let c = a.get_http_configs();
    let names: Vec<&str> = c.iter().map(|x| x.name.as_str()).collect();
    assert_eq!(names, vec!["http-0", "http-1"]);
    assert_eq!(c[1].url, "http://b");
    assert_eq!(c[0].client, ClientType::Influx);
}

#[test]
fn longer_name_list_is_cut_to_urls() {
    let a = args(&[], &[], &["x", "y", "z"], &["http://a"]);
    let c = a.get_http_configs();
    assert_eq!(c.len(), 1);
    assert_eq!(c[0].name, "x");
}

#[test]
fn placeholder_with_two_digit_index() {
    let urls: Vec<String> = (0..12).map(|i| format!("ws://n{}", i)).collect();
    let refs: Vec<&str> = urls.iter().map(|s| s.as_str()).collect();
    let a = args(&[], &refs, &[], &[]);
    let c = a.get_ws_configs();
    assert_eq!(c[10].tag, "websocket-10");
    assert_eq!(c[11].tag, "websocket-11");
}

#[test]
fn resolution_keeps_pair_order() {
    let pairs = [("a", "ws://1"), ("b", "ws://2"), ("c", "ws://3")];
    let names: Vec<&str> = pairs.iter().map(|p| p.0).collect();
    let urls: Vec<&str> = pairs.iter().map(|p| p.1).collect();
    let a = args(&names, &urls, &names, &urls);
    let ws = a.get_ws_configs();
    let http = a.get_http_configs();
    for (i, p) in pairs.iter().enumerate() {
        assert_eq!(ws[i].tag, p.0);
        assert_eq!(ws[i].url, p.1);
        assert_eq!(http[i].name, p.0);
        assert_eq!(http[i].url, p.1);
    }
}

#[test]
fn empty_config_gives_no_jobs() {
    let a = args(&[], &[], &[], &[]);
    assert!(a.get_ws_configs().is_empty());
    assert!(a.get_http_configs().is_empty());
    let m = MonitorManager::new(a);
    assert!(m.jobs().is_empty());
}

#[test]
fn jobs_list_streams_then_polls() {
    let a = args(&["s"], &["ws://1"], &[], &["http://1", "http://2"]);
    let jobs = MonitorManager::new(a).jobs();
    assert_eq!(jobs.len(), 3);
    assert_eq!(jobs[0].transport, Transport::Stream);
    assert_eq!(jobs[0].name, "s");
    assert_eq!(jobs[0].config.ws, vec!["ws://1".to_string()]);
    assert_eq!(jobs[1].transport, Transport::Poll);
    assert_eq!(jobs[1].name, "http-0");
    assert_eq!(jobs[2].name, "http-1");
    assert_eq!(jobs[2].config.http_names, vec!["http-1".to_string()]);
    assert_eq!(jobs[2].config.http, vec!["http://2".to_string()]);
    assert_eq!(jobs[2].config.token, "tok-1");
}

#[test]
fn for_monitor_replaces_lists_of_its_kind() {
    let a = args(&["a", "b"], &["ws://a", "ws://b"], &["c"], &["http://c"]);
    let h = a.for_monitor("n".to_string(), "u".to_string(), ClientType::Http);
    assert_eq!(h.ws_names, vec!["n".to_string()]);
    assert_eq!(h.ws, vec!["u".to_string()]);
    assert_eq!(h.http_names, vec!["c".to_string()]);
    assert_eq!(h.server, "http://localhost:7777");
    let i = a.for_monitor("n".to_string(), "u".to_string(), ClientType::Influx);
    assert_eq!(i.http_names, vec!["n".to_string()]);
    assert_eq!(i.http, vec!["u".to_string()]);
    assert_eq!(i.ws.len(), 2);
}

#[test]
fn client_type_defaults_to_http() {
    assert_eq!(ClientType::default(), ClientType::Http);
}

#[test]
fn seconds_to_milliseconds() {
    assert_eq!(to_ms(0), 0);
    assert_eq!(to_ms(1_700_000_000), 1_700_000_000_000);
}

#[test]
fn decimal_notation() {
    assert_eq!(decimal_string(0), "0");
    assert_eq!(decimal_string(7), "7");
    assert_eq!(decimal_string(1234), "1234");
    assert_eq!(indexed_label_string("http", 305), "http-305");
}

#[test]
fn stream_reconnects_after_two_failures() {
    let mut m = StreamMonitor::new("node".to_string());
    assert!(matches!(m.pending(), StreamAction::Connect));
    for _ in 0..2 {
        let a = m.step(StreamEvent::ConnectFailed);
        assert!(matches!(a, StreamAction::WaitBackoff { ms } if ms == RECONNECT_BACKOFF_MS));
        assert_eq!(RECONNECT_BACKOFF_MS, 5000);
        assert_eq!(m.state, StreamState::Disconnected);
        // nothing but the end of the backoff leads to a new attempt
        assert!(matches!(m.step(StreamEvent::Connected), StreamAction::WaitBackoff { .. }));
        assert!(matches!(m.step(StreamEvent::BackoffElapsed), StreamAction::Connect));
    }
    assert!(matches!(m.step(StreamEvent::Connected), StreamAction::AwaitHeader));
    match m.step(StreamEvent::Header { number: 42, timestamp: 1_700_000_000, now: 5_000 }) {
        StreamAction::Emit(r) => {
            assert_eq!(r.name, "node");
            assert_eq!(r.block_height, 42);
            assert_eq!(r.block_timestamp, 1_700_000_000);
            assert_eq!(r.os_timestamp, 5_000);
            assert_eq!(r.diff, 0);
        }
        _ => panic!("expected a record"),
    }
    assert!(matches!(m.step(StreamEvent::StreamEnded), StreamAction::WaitBackoff { .. }));
    assert_eq!(m.state, StreamState::Disconnected);
}

#[test]
fn poll_latency_is_measured_within_the_tick() {
    let mut m = PollMonitor::new("poller".to_string());
    assert!(matches!(m.pending(), PollAction::AwaitTick));
    assert!(matches!(m.step(PollEvent::Tick { now: 10_000 }), PollAction::RequestLatest));
    assert!(matches!(m.step(PollEvent::NumberFetched { number: 99 }), PollAction::RequestBlock { number: 99 }));
    match m.step(PollEvent::BlockFetched { timestamp: 1_700_000_123, now: 10_250 }) {
        PollAction::EndTick { record: Some(r), sleep_ms } => {
            assert_eq!(sleep_ms, POLL_PERIOD_MS);
            assert_eq!(sleep_ms, 1000);
            assert_eq!(r.name, "poller");
            assert_eq!(r.block_height, 99);
            assert_eq!(r.block_timestamp, 1_700_000_123);
            assert_eq!(r.os_timestamp, 10_000);
            assert_eq!(r.diff, 250);
        }
        _ => panic!("expected a record"),
    }
    assert_eq!(m.state, PollState::Idle);
}

#[test]
fn poll_failures_skip_the_tick() {
    let mut m = PollMonitor::new("p".to_string());
    m.step(PollEvent::Tick { now: 1 });
    assert!(matches!(m.step(PollEvent::NumberFailed), PollAction::EndTick { record: None, .. }));
    assert_eq!(m.state, PollState::Idle);
    m.step(PollEvent::Tick { now: 2 });
    m.step(PollEvent::NumberFetched { number: 3 });
    assert!(matches!(m.step(PollEvent::BlockMissing), PollAction::EndTick { record: None, .. }));
    assert!(matches!(m.step(PollEvent::Tick { now: 3 }), PollAction::RequestLatest));
}

#[test]
fn poll_refuses_unrepresentable_latency() {
    let mut m = PollMonitor::new("p".to_string());
    m.step(PollEvent::Tick { now: i64::MIN });
    m.step(PollEvent::NumberFetched { number: 1 });
    assert!(!m.accepts(PollEvent::BlockFetched { timestamp: 0, now: i64::MAX }));
    assert!(m.accepts(PollEvent::BlockFetched { timestamp: 0, now: -1 }));
}

struct FailingSink {
    attempts: Cell<usize>,
    failures: Cell<usize>,
}

impl MetricsClient for FailingSink {
    fn name(&self) -> &str {
        "failing"
    }

    fn write(&self, _metric: &Metrics) {
        self.attempts.set(self.attempts.get() + 1);
        self.failures.set(self.failures.get() + 1);
    }
}

#[test]
fn failing_sink_does_not_stop_streaming() {
    let sink = FailingSink { attempts: Cell::new(0), failures: Cell::new(0) };
    let mut m = StreamMonitor::new(sink.name().to_string());
    m.step(StreamEvent::Connected);
    for n in 0..10u64 {
        match m.step(StreamEvent::Header { number: n, timestamp: n, now: n as i64 }) {
            StreamAction::Emit(r) => sink.write(&r),
            _ => panic!("expected a record"),
        }
        assert_eq!(m.state, StreamState::Subscribed);
    }
    assert_eq!(sink.attempts.get(), 10);
    assert_eq!(sink.failures.get(), 10);
}

#[test]
fn failing_sink_does_not_stop_polling() {
    let sink = FailingSink { attempts: Cell::new(0), failures: Cell::new(0) };
    let mut m = PollMonitor::new("p".to_string());
    for n in 0..5i64 {
        m.step(PollEvent::Tick { now: n * 1000 });
        m.step(PollEvent::NumberFetched { number: n as u64 });
        match m.step(PollEvent::BlockFetched { timestamp: 0, now: n * 1000 + 5 }) {
            PollAction::EndTick { record: Some(r), .. } => sink.write(&r),
            _ => panic!("expected a record"),
        }
    }
    assert_eq!(sink.attempts.get(), 5);
    assert_eq!(sink.failures.get(), 5);
    assert_eq!(m.state, PollState::Idle);
}

#[test]
fn repeated_records_differ_only_in_time() {
    let name = "n".to_string();
    let a = make_stream_record(&name, 7, 100, 1_000);
    let b = make_stream_record(&name, 7, 100, 1_003);
    assert_eq!(a.name, b.name);
    assert_eq!(a.block_height, b.block_height);
    assert_eq!(a.block_timestamp, b.block_timestamp);
    assert_eq!(a.diff, b.diff);
    assert!(a.os_timestamp <= b.os_timestamp);
}

#[test]
fn poll_record_values() {
    let r = make_poll_record(&"x".to_string(), 5, 6, 100, 130);
    assert_eq!(r.os_timestamp, 100);
    assert_eq!(r.diff, 30);
}

#[test]
fn http_sink_identity() {
    let a = args(&[], &[], &[], &[]);
    let c = HttpClient::new(a.clone());
    assert_eq!(c.chain_name, "http-client");
    assert_eq!(c.name(), "agent");
    assert_eq!(c.merge_url(), "http://localhost:7777/api/metrics/merge");
    let m = a.for_monitor("eth".to_string(), "ws://e".to_string(), ClientType::Http);
    let c = HttpClient::new(m);
    assert_eq!(c.chain_name, "eth");
    let rec = make_stream_record(&"agent".to_string(), 10, 20, 30);
    let body = c.message_body(&rec);
    assert_eq!(body.chain_name, "eth");
    assert_eq!(body.block_timestamp, 20);
    assert_eq!(body.db.host, "http://localhost:8181");
    assert_eq!(body.db.table, "ws_metric");
    assert_eq!(body.db.name, "test");
}

#[test]
fn influx_sink_identity() {
    let a = args(&[], &[], &[], &[]);
    let c = InfluxDBClient::new(a.clone(), Some("host1".to_string()));
    assert_eq!(c.chain_name, "host1");
    assert_eq!(c.name(), "host1");
    let c = InfluxDBClient::new(a.clone(), None);
    assert_eq!(c.chain_name, "unknown_chain");
    let m = a.for_monitor("base".to_string(), "http://b".to_string(), ClientType::Influx);
    let c = InfluxDBClient::new(m, None);
    assert_eq!(c.name(), "base");
    assert_eq!(c.measurement(), "ws_metric:base");
    let rec = make_poll_record(&"source".to_string(), 1, 2, 3, 4);
    let p = c.point(&rec);
    assert_eq!(p.name, "source");
    assert_eq!(p.chain_name, "base");
    assert_eq!(p.diff, 1);
}

#[test]
fn malformed_urls_are_left_out() {
    let a = args(&["a", "b", "c"], &["ws://1", "not a url", "ws://3"], &[], &["http://x", ""]);
    let ws = a.get_ws_configs();
    assert_eq!(ws.len(), 2);
    assert_eq!(ws[0].tag, "a");
    assert_eq!(ws[0].url, "ws://1");
    assert_eq!(ws[1].tag, "c");
    assert_eq!(ws[1].url, "ws://3");
    let http = a.get_http_configs();
    assert_eq!(http.len(), 1);
    assert_eq!(http[0].name, "http-0");
    let jobs = MonitorManager::new(a).jobs();
    assert_eq!(jobs.len(), 3);
    assert_eq!(jobs[2].url, "http://x");
}

#[test]
fn unnamed_malformed_url_keeps_later_placeholders() {
    let a = args(&[], &["bad url", "ws://b"], &[], &[]);
    let ws = a.get_ws_configs();
    assert_eq!(ws.len(), 1);
    assert_eq!(ws[0].tag, "websocket-1");
}
