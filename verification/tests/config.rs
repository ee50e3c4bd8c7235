use latency_probe::config::{
    config_file_path, default_enable_latency_history, default_log_level, filter_directive,
    ConfigError, ConfigSource, ConfigStore, LogLevel, ProbeConfig, RefreshOutcome, TargetConfig,
};
use latency_probe::prober::ProbeKind;

fn target(name: &str, kind: ProbeKind, host: &str, port: Option<u16>) -> TargetConfig {
    TargetConfig { name: name.to_string(), kind, host: host.to_string(), port }
}

fn config(log_level: &str, targets: Vec<TargetConfig>) -> ProbeConfig {
    ProbeConfig {
        probe_interval_ms: 1000,
        default_timeout_ms: 2500,
        targets,
        log_level: log_level.to_string(),
        enable_latency_history: false,
    }
}

#[test]
fn defaults_are_info_and_no_history() {
    assert_eq!(default_log_level(), "info");
    assert!(!default_enable_latency_history());
}

#[test]
fn tracing_level_for_each_name() {
    let cases = [
        ("trace", LogLevel::Trace),
        ("debug", LogLevel::Debug),
        ("info", LogLevel::Info),
        ("warn", LogLevel::Warn),
        ("warning", LogLevel::Warn),
        ("error", LogLevel::Error),
    ];
    for (name, level) in cases {
        assert_eq!(config(name, vec![]).get_tracing_level().unwrap(), level);
    }
}

#[test]
fn tracing_level_ignores_case() {
    assert_eq!(config("INFO", vec![]).get_tracing_level().unwrap(), LogLevel::Info);
    assert_eq!(config("Warning", vec![]).get_tracing_level().unwrap(), LogLevel::Warn);
    assert_eq!(config("dEbUg", vec![]).get_tracing_level().unwrap(), LogLevel::Debug);
}

#[test]
fn tracing_level_refuses_other_text() {
    for bad in ["", "verbose", " info", "info ", "warn!", "errors"] {
        match config(bad, vec![]).get_tracing_level() {
            Err(ConfigError::InvalidLogLevel(level)) => assert_eq!(level, bad),
            Ok(level) => panic!("{:?} accepted as {:?}", bad, level),
        }
    }
}

#[test]
fn invalid_log_level_message_names_the_level_as_written() {
    let err = config("LOUD", vec![]).get_tracing_level().unwrap_err();
    assert_eq!(
        err.message(),
        "Invalid log level: LOUD. Valid levels are: trace, debug, info, warn, error"
    );
}

#[test]
fn validate_log_level_follows_tracing_level() {
    assert!(config("Error", vec![]).validate_log_level().is_ok());
    assert!(config("none", vec![]).validate_log_level().is_err());
}

#[test]
fn level_names_round_trip() {
    for level in [LogLevel::Trace, LogLevel::Debug, LogLevel::Info, LogLevel::Warn, LogLevel::Error] {
        assert_eq!(LogLevel::from_lowercase(level.name()), Some(level));
    }
    assert_eq!(LogLevel::from_lowercase("INFO"), None);
}

#[test]
fn filter_directive_names_the_agent_and_level() {
    assert_eq!(filter_directive(LogLevel::Debug), "latency_probe=debug");
    assert_eq!(filter_directive(LogLevel::Warn), "latency_probe=warn");
}

#[test]
fn host_port_prefers_port_in_host_text() {
    let t = target("a", ProbeKind::TcpConnect, "example.com:8443", Some(22));
    assert_eq!(t.get_host_port(80), ("example.com".to_string(), 8443));
}

#[test]
fn host_port_falls_back_to_target_port_then_default() {
    let with_port = target("a", ProbeKind::TcpConnect, "example.com", Some(22));
    assert_eq!(with_port.get_host_port(80), ("example.com".to_string(), 22));
    let without = target("a", ProbeKind::TcpConnect, "example.com", None);
    assert_eq!(without.get_host_port(80), ("example.com".to_string(), 80));
}

#[test]
fn http_url_is_host_colon_port() {
    assert_eq!(target("w", ProbeKind::Http, "example.com", None).get_http_url(), "example.com:80");
    assert_eq!(
        target("w", ProbeKind::Http, "example.com", Some(8080)).get_http_url(),
        "example.com:8080"
    );
}

#[test]
fn targets_and_configs_compare_by_content() {
    let a = target("a", ProbeKind::Echo, "h", Some(1));
    assert!(a == a.clone());
    assert!(a != target("b", ProbeKind::Echo, "h", Some(1)));
    assert!(a != target("a", ProbeKind::Http, "h", Some(1)));
    assert!(a != target("a", ProbeKind::Echo, "i", Some(1)));
    assert!(a != target("a", ProbeKind::Echo, "h", None));
    let c = config("info", vec![a.clone()]);
    assert!(c == c.clone());
    assert!(c != config("info", vec![]));
    assert!(c != config("warn", vec![a.clone()]));
    assert!(c != config("info", vec![a.clone(), a.clone()]));
    let mut d = c.clone();
    d.default_timeout_ms = 1;
    assert!(c != d);
}

#[test]
fn store_hands_out_what_it_holds() {
    let initial = config("info", vec![target("a", ProbeKind::Icmp, "h", None)]);
    let store = ConfigStore::new(initial.clone());
    assert!(store.current_config() == initial);
    assert!(store.current_targets() == initial.targets);
    assert_eq!(store.current_default_timeout(), 2500);
}

#[test]
fn refresh_with_new_config_updates_store() {
    let mut store = ConfigStore::new(config("info", vec![]));
    let mut next = config("debug", vec![target("a", ProbeKind::Http, "h", None)]);
    next.default_timeout_ms = 9;
    assert_eq!(store.apply_refresh(Some(next.clone())), RefreshOutcome::Updated);
    assert!(store.current_config() == next);
    assert_eq!(store.current_targets().len(), 1);
    assert_eq!(store.current_default_timeout(), 9);
}

#[test]
fn refresh_with_same_config_changes_nothing() {
    let initial = config("info", vec![target("a", ProbeKind::Http, "h", None)]);
    let mut store = ConfigStore::new(initial.clone());
    assert_eq!(store.apply_refresh(Some(initial.clone())), RefreshOutcome::Unchanged);
    assert!(store.current_config() == initial);
}

#[test]
fn failed_refresh_keeps_last_good_config() {
    let initial = config("info", vec![target("a", ProbeKind::Http, "h", None)]);
    let mut store = ConfigStore::new(initial.clone());
    assert_eq!(store.apply_refresh(None), RefreshOutcome::KeptLastGood);
    assert!(store.current_config() == initial);
    assert_eq!(store.current_default_timeout(), 2500);
}

#[test]
fn source_is_app_config_only_for_true() {
    assert_eq!(ConfigSource::select(Some("true")), ConfigSource::AppConfig);
    for other in ["false", "TRUE", "True", "1", "yes", "", " true"] {
        assert_eq!(ConfigSource::select(Some(other)), ConfigSource::LocalFile);
    }
    assert_eq!(ConfigSource::select(None), ConfigSource::LocalFile);
}

#[test]
fn poll_interval_defaults_by_source() {
    assert_eq!(ConfigSource::AppConfig.poll_interval_secs(None), 60);
    assert_eq!(ConfigSource::LocalFile.poll_interval_secs(None), 30);
    assert_eq!(ConfigSource::AppConfig.poll_interval_secs(Some("soon")), 60);
    assert_eq!(ConfigSource::LocalFile.poll_interval_secs(Some("-5")), 30);
    assert_eq!(ConfigSource::LocalFile.poll_interval_secs(Some("")), 30);
    assert_eq!(ConfigSource::LocalFile.poll_interval_secs(Some("18446744073709551616")), 30);
}

#[test]
fn poll_interval_reads_decimal_setting() {
    assert_eq!(ConfigSource::AppConfig.poll_interval_secs(Some("5")), 5);
    assert_eq!(ConfigSource::LocalFile.poll_interval_secs(Some("+120")), 120);
    assert_eq!(ConfigSource::LocalFile.poll_interval_secs(Some("0")), 0);
    assert_eq!(
        ConfigSource::LocalFile.poll_interval_secs(Some("18446744073709551615")),
        u64::MAX
    );
}

#[test]
fn config_file_path_defaults_to_targets_json() {
    assert_eq!(config_file_path(None), "targets.json");
    assert_eq!(config_file_path(Some("/etc/probe.json")), "/etc/probe.json");
}
