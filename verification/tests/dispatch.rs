use latency_probe::config::{ConfigStore, ProbeConfig, TargetConfig};
use latency_probe::dispatch::{dispatch_tick, plan_probe, record_outcome, tick_requests};
use latency_probe::metrics::{inc_timeout, FailureCounters, MetricsError};
use latency_probe::prober::{
    classify, echo_payload, ping_payload, FailureReason, Latency, ProbeEvent, ProbeKind,
    ProbeResult, HTTP_CLIENT_TIMEOUT_MS,
};

fn target(name: &str, kind: ProbeKind, host: &str, port: Option<u16>) -> TargetConfig {
    TargetConfig { name: name.to_string(), kind, host: host.to_string(), port }
}

fn millis(ms: u32) -> Latency {
    Latency { secs: (ms / 1000) as u64, subsec_nanos: (ms % 1000) * 1_000_000 }
}

#[test]
fn labels_are_stable() {
    assert_eq!(ProbeKind::Icmp.label(), "icmp");
    assert_eq!(ProbeKind::TcpConnect.label(), "tcp_connect");
    assert_eq!(ProbeKind::Http.label(), "http");
    assert_eq!(ProbeKind::Echo.label(), "echo");
}

#[test]
fn plan_routes_each_kind() {
    let icmp = plan_probe(&target("i", ProbeKind::Icmp, "10.0.0.1", Some(7)), 2500);
    assert_eq!((icmp.kind, icmp.port, icmp.deadline_ms), (ProbeKind::Icmp, None, 2500));
    assert_eq!(icmp.address(), "10.0.0.1");

    let tcp = plan_probe(&target("t", ProbeKind::TcpConnect, "db", None), 2500);
    assert_eq!((tcp.kind, tcp.port, tcp.deadline_ms), (ProbeKind::TcpConnect, Some(80), 3000));
    assert_eq!(tcp.address(), "db:80");

    let http = plan_probe(&target("h", ProbeKind::Http, "example.com", Some(8080)), 2500);
    assert_eq!((http.kind, http.port, http.deadline_ms), (ProbeKind::Http, Some(8080), 30000));
    assert_eq!(http.address(), "example.com:8080");
    assert_eq!(HTTP_CLIENT_TIMEOUT_MS, 5000);

    let echo = plan_probe(&target("e", ProbeKind::Echo, "peer", None), 2500);
    assert_eq!((echo.kind, echo.port, echo.deadline_ms), (ProbeKind::Echo, Some(9000), 1000));
    assert_eq!(echo.address(), "peer:9000");
}

#[test]
fn http_address_is_the_http_url() {
    for port in [None, Some(443u16)] {
        let t = target("w", ProbeKind::Http, "example.com", port);
        assert_eq!(plan_probe(&t, 1).address(), t.get_http_url());
    }
}

#[test]
fn tick_dispatches_one_request_per_target_in_order() {
    let snapshot = vec![
        target("a", ProbeKind::Icmp, "h1", None),
        target("b", ProbeKind::TcpConnect, "h2", Some(22)),
        target("c", ProbeKind::Http, "h3", None),
        target("d", ProbeKind::Echo, "h4", None),
    ];
    let requests = dispatch_tick(&snapshot, 700);
    assert_eq!(requests.len(), snapshot.len());
    for (request, t) in requests.iter().zip(snapshot.iter()) {
        assert_eq!(request.target, t.name);
        assert_eq!(request.kind, t.kind);
        assert_eq!(request.host, t.host);
    }
    assert_eq!(requests[0].deadline_ms, 700);
    assert!(dispatch_tick(&Vec::new(), 700).is_empty());
}

#[test]
fn failure_of_one_target_does_not_stop_the_others() {
    let snapshot = vec![
        target("x", ProbeKind::TcpConnect, "down", None),
        target("y", ProbeKind::Http, "up", None),
        target("z", ProbeKind::Echo, "silent", None),
    ];
    let requests = dispatch_tick(&snapshot, 1000);
    let outcomes = vec![
        requests[0].failed(FailureReason::NetworkError),
        requests[1].succeeded(millis(40)),
        requests[2].failed(FailureReason::Timeout),
    ];
    let mut counters = FailureCounters::new();
    let mut samples = Vec::new();
    for outcome in &outcomes {
        if let Some(sample) = record_outcome(&mut counters, outcome) {
            samples.push(sample);
        }
    }
    assert_eq!(samples.len(), 1);
    assert_eq!(samples[0].target, "y");
    assert_eq!(samples[0].probe_type, "http");
    assert_eq!(samples[0].latency, millis(40));
    assert_eq!(counters.failure_count("x", "tcp_connect"), 1);
    assert_eq!(counters.failure_count("y", "http"), 0);
    assert_eq!(counters.failure_count("z", "echo"), 1);
}

#[test]
fn failures_add_up_whatever_comes_between() {
    let mut counters = FailureCounters::new();
    let m = 25u64;
    for i in 0..m {
        inc_timeout(&mut counters, "db1", "tcp_connect");
        if i % 2 == 0 {
            inc_timeout(&mut counters, "web1", "http");
        }
        if i % 5 == 0 {
            inc_timeout(&mut counters, "db1", "icmp");
        }
    }
    assert_eq!(counters.failure_count("db1", "tcp_connect"), m);
    assert_eq!(counters.failure_count("web1", "http"), 13);
    assert_eq!(counters.failure_count("db1", "icmp"), 5);
    assert_eq!(counters.failure_count("other", "tcp_connect"), 0);
}

#[test]
fn label_values_that_read_the_same_share_a_series() {
    let mut counters = FailureCounters::new();
    inc_timeout(&mut counters, "ab", "c");
    inc_timeout(&mut counters, "a", "bc");
    assert_eq!(counters.failure_count("ab", "c"), 2);
    assert_eq!(counters.failure_count("a", "bc"), 2);
    assert_eq!(counters.failure_count("", "abc"), 2);
}

#[test]
fn snapshot_is_not_reached_by_a_later_refresh() {
    let first = ProbeConfig {
        probe_interval_ms: 1000,
        default_timeout_ms: 500,
        targets: vec![target("old1", ProbeKind::Icmp, "h1", None), target("old2", ProbeKind::Echo, "h2", None)],
        log_level: "info".to_string(),
        enable_latency_history: false,
    };
    let mut store = ConfigStore::new(first);
    let snapshot = store.current_targets();
    let timeout = store.current_default_timeout();

    let second = ProbeConfig {
        probe_interval_ms: 1000,
        default_timeout_ms: 900,
        targets: vec![target("new", ProbeKind::Http, "h3", None)],
        log_level: "info".to_string(),
        enable_latency_history: false,
    };
    store.apply_refresh(Some(second));

    let requests = dispatch_tick(&snapshot, timeout);
    let names: Vec<&str> = requests.iter().map(|r| r.target.as_str()).collect();
    assert_eq!(names, vec!["old1", "old2"]);
    assert_eq!(requests[0].deadline_ms, 500);

    let next_tick = tick_requests(&store);
    assert_eq!(next_tick.len(), 1);
    assert_eq!(next_tick[0].target, "new");
    assert_eq!(next_tick[0].deadline_ms, 30000);
}

#[test]
fn tick_job_reads_targets_and_timeout_from_the_store() {
    let store = ConfigStore::new(ProbeConfig {
        probe_interval_ms: 1000,
        default_timeout_ms: 450,
        targets: vec![target("p", ProbeKind::Icmp, "h1", None), target("q", ProbeKind::Echo, "h2", Some(7))],
        log_level: "info".to_string(),
        enable_latency_history: true,
    });
    let requests = tick_requests(&store);
    assert_eq!(requests.len(), 2);
    assert_eq!((requests[0].target.as_str(), requests[0].deadline_ms), ("p", 450));
    assert_eq!((requests[1].target.as_str(), requests[1].address()), ("q", "h2:7".to_string()));
}

#[test]
fn refused_tcp_connect_counts_one_failure_and_no_latency() {
    let t = target("db1", ProbeKind::TcpConnect, "10.0.0.5", Some(5432));
    let request = plan_probe(&t, 2000);
    assert_eq!(request.address(), "10.0.0.5:5432");
    assert_eq!(request.deadline_ms, 3000);
    let outcome = request.failed(FailureReason::ConnectionRefused);
    assert_eq!(outcome.result, ProbeResult::Failure(FailureReason::ConnectionRefused));

    let mut counters = FailureCounters::new();
    let sample = record_outcome(&mut counters, &outcome);
    assert!(sample.is_none());
    assert_eq!(counters.failure_count("db1", "tcp_connect"), 1);
}

#[test]
fn http_response_records_one_latency_and_no_failure() {
    let t = target("web1", ProbeKind::Http, "example.com", Some(80));
    let request = plan_probe(&t, 2000);
    assert_eq!(request.address(), "example.com:80");
    let outcome = request.succeeded(millis(120));

    let mut counters = FailureCounters::new();
    let sample = record_outcome(&mut counters, &outcome).unwrap();
    assert_eq!(sample.target, "web1");
    assert_eq!(sample.probe_type, "http");
    let latency_ms = sample.latency.as_nanos() as f64 / 1_000_000.0;
    assert!((latency_ms - 120.0).abs() < 1e-9);
    assert_eq!(counters.failure_count("web1", "http"), 0);
}

#[test]
fn echo_without_listener_counts_a_failure_after_its_deadline() {
    let t = target("echo1", ProbeKind::Echo, "192.0.2.1", Some(7));
    let request = plan_probe(&t, 2000);
    assert_eq!(request.deadline_ms, 1000);
    let outcome = request.failed(FailureReason::Timeout);

    let mut counters = FailureCounters::new();
    assert!(record_outcome(&mut counters, &outcome).is_none());
    assert_eq!(counters.failure_count("echo1", "echo"), 1);
}

#[test]
fn a_failed_probe_is_not_retried_by_recording() {
    let request = plan_probe(&target("t", ProbeKind::Icmp, "h", None), 100);
    let mut counters = FailureCounters::new();
    for reason in [
        FailureReason::ResolutionError,
        FailureReason::ConnectionRefused,
        FailureReason::NetworkError,
        FailureReason::Timeout,
        FailureReason::RequestError,
    ] {
        assert!(record_outcome(&mut counters, &request.failed(reason)).is_none());
    }
    assert_eq!(counters.failure_count("t", "icmp"), 5);
}

#[test]
fn counters_register_once_with_a_registry() {
    let mut registry = prometheus::Registry::new();
    let mut counters = FailureCounters::new();
    assert!(counters.register(&mut registry).is_ok());
    assert!(counters.register(&mut registry).is_err());
    inc_timeout(&mut counters, "db1", "tcp_connect");
    assert!(counters.register(&mut registry).is_err());
    let families = registry.gather();
    assert_eq!(families.len(), 1);
    assert_eq!(families[0].get_name(), "probe_timeout_total");
}

#[test]
fn latency_as_nanos() {
    assert_eq!(millis(120).as_nanos(), 120_000_000);
    assert_eq!(Latency { secs: 2, subsec_nanos: 5 }.as_nanos(), 2_000_000_005);
    assert_eq!(
        Latency { secs: u64::MAX, subsec_nanos: u32::MAX }.as_nanos(),
        u64::MAX as u128 * 1_000_000_000 + u32::MAX as u128
    );
}

#[test]
fn payloads() {
    assert_eq!(ping_payload(0x0001_abcd), [0xab, 0xcd]);
    assert_eq!(ping_payload(0x0001_abcd), (0x0001_abcdu32 as u16).to_be_bytes());
    assert_eq!(ping_payload(7), [0, 7]);
    assert_eq!(&echo_payload(), b"ping");
}

#[test]
fn events_are_filed_by_driver() {
    let (timeout, resolution, refused_conn, network, request) = (
        FailureReason::Timeout,
        FailureReason::ResolutionError,
        FailureReason::ConnectionRefused,
        FailureReason::NetworkError,
        FailureReason::RequestError,
    );
    let (elapsed, unresolved, refused, transport, protocol) = (
        ProbeEvent::DeadlineElapsed,
        ProbeEvent::NameUnresolved,
        ProbeEvent::Refused,
        ProbeEvent::TransportFault,
        ProbeEvent::ProtocolFault,
    );
    let table = [
        (ProbeKind::Icmp, elapsed, timeout),
        (ProbeKind::Icmp, unresolved, resolution),
        (ProbeKind::Icmp, refused, network),
        (ProbeKind::Icmp, transport, network),
        (ProbeKind::Icmp, protocol, network),
        (ProbeKind::TcpConnect, elapsed, timeout),
        (ProbeKind::TcpConnect, unresolved, network),
        (ProbeKind::TcpConnect, refused, refused_conn),
        (ProbeKind::TcpConnect, transport, network),
        (ProbeKind::TcpConnect, protocol, network),
        (ProbeKind::Http, elapsed, timeout),
        (ProbeKind::Http, unresolved, request),
        (ProbeKind::Http, refused, request),
        (ProbeKind::Http, transport, request),
        (ProbeKind::Http, protocol, request),
        (ProbeKind::Echo, elapsed, timeout),
        (ProbeKind::Echo, unresolved, network),
        (ProbeKind::Echo, refused, network),
        (ProbeKind::Echo, transport, network),
        (ProbeKind::Echo, protocol, network),
    ];
    for (kind, event, reason) in table {
        assert_eq!(classify(kind, event), ProbeResult::Failure(reason));
    }
    for kind in [ProbeKind::Icmp, ProbeKind::TcpConnect, ProbeKind::Http, ProbeKind::Echo] {
        assert_eq!(classify(kind, ProbeEvent::Replied(millis(3))), ProbeResult::Success(millis(3)));
    }
}

#[test]
fn request_concludes_with_the_classified_result() {
    let request = plan_probe(&target("db1", ProbeKind::TcpConnect, "10.0.0.5", Some(5432)), 1);
    let refused = request.concluded(ProbeEvent::Refused);
    assert_eq!(refused.target, "db1");
    assert_eq!(refused.kind, ProbeKind::TcpConnect);
    assert_eq!(refused.result, ProbeResult::Failure(FailureReason::ConnectionRefused));
    let replied = request.concluded(ProbeEvent::Replied(millis(7)));
    assert_eq!(replied.result, ProbeResult::Success(millis(7)));
}

#[test]
fn a_second_set_of_counters_is_refused_by_the_same_registry() {
    let mut registry = prometheus::Registry::new();
    let first = FailureCounters::new();
    let second = FailureCounters::new();
    assert_eq!(first.register(&mut registry), Ok(()));
    assert_eq!(second.register(&mut registry), Err(MetricsError::NotRegistered));
    let mut other = prometheus::Registry::new();
    assert_eq!(second.register(&mut other), Ok(()));
}
