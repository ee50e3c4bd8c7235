//! Probe configuration: targets, settings, the log level they name, and the
//! store that holds the configuration last read successfully.

use crate::prober::{ProbeKind, DEFAULT_HTTP_PORT};
use crate::text::{lowercase, lowercase_of, parse_unsigned, parse_unsigned_spec, same_text};
use crate::util::{join_host_port, join_host_port_spec, parse_host_port, parse_host_port_spec};
use vstd::prelude::*;
use vstd::std_specs::cmp::PartialEqSpecImpl;

verus! {

/// One endpoint to probe.
#[derive(Debug)]
pub struct TargetConfig {
    /// Identifies the target; the label of its metrics.
    pub name: String,
    pub kind: ProbeKind,
    pub host: String,
    pub port: Option<u16>,
}

/// A target as plain values.
pub struct TargetView {
    pub name: Seq<char>,
    pub kind: ProbeKind,
    pub host: Seq<char>,
    pub port: Option<u16>,
}

impl View for TargetConfig {
    type V = TargetView;

    open spec fn view(&self) -> TargetView {
        TargetView { name: self.name@, kind: self.kind, host: self.host@, port: self.port }
    }
}

impl Clone for TargetConfig {
    fn clone(&self) -> (r: Self)
        ensures
            r@ == self@,
    {
        TargetConfig {
            name: self.name.clone(),
            kind: self.kind,
            host: self.host.clone(),
            port: self.port,
        }
    }
}

impl PartialEq for TargetConfig {
    fn eq(&self, other: &Self) -> (r: bool) {
        self.name == other.name && self.kind == other.kind && self.host == other.host
            && self.port == other.port
    }
}

impl PartialEqSpecImpl for TargetConfig {
    open spec fn obeys_eq_spec() -> bool {
        true
    }

    open spec fn eq_spec(&self, other: &Self) -> bool {
        self@ == other@
    }
}

/// The port that a target is reached at: its own, or `default_port`.
pub open spec fn port_or(port: Option<u16>, default_port: u16) -> u16 {
    match port {
        Some(p) => p,
        None => default_port,
    }
}

impl TargetConfig {
    /// The host and port that the target's host text names, with the target's
    /// own port, or else `default_port`, where the text names none.
    pub fn get_host_port(&self, default_port: u16) -> (r: (String, u16))
        ensures
            (r.0@, r.1) == parse_host_port_spec(self.host@, port_or(self.port, default_port)),
    {
        let fallback = match self.port {
            Some(p) => p,
            None => default_port,
        };
        parse_host_port(self.host.as_str(), fallback)
    }

    /// The address of an HTTP probe: host, `:` and the port in decimal, 80 where
    /// the target names none.
    pub fn get_http_url(&self) -> (url: String)
        ensures
            url@ == join_host_port_spec(self.host@, port_or(self.port, DEFAULT_HTTP_PORT)),
    {
        let port = match self.port {
            Some(p) => p,
            None => DEFAULT_HTTP_PORT,
        };
        join_host_port(self.host.as_str(), port)
    }
}

/// The targets of a list as plain values, in order.
pub open spec fn targets_view(targets: Seq<TargetConfig>) -> Seq<TargetView> {
    Seq::new(targets.len(), |i: int| targets[i]@)
}

/// A copy of a list of targets.
pub fn clone_targets(targets: &Vec<TargetConfig>) -> (r: Vec<TargetConfig>)
    ensures
        targets_view(r@) == targets_view(targets@),
{
    let mut r: Vec<TargetConfig> = Vec::new();
    let mut i: usize = 0;
    while i < targets.len()
        invariant
            i <= targets.len(),
            r.len() == i,
            forall|j: int| 0 <= j < i ==> r@[j]@ == targets@[j]@,
        decreases targets.len() - i,
    {
        r.push(targets[i].clone());
        i = i + 1;
    }
    assert(targets_view(r@) =~= targets_view(targets@));
    r
}

/// Whether two lists hold the same targets in the same order.
pub fn same_targets(a: &Vec<TargetConfig>, b: &Vec<TargetConfig>) -> (r: bool)
    ensures
        r == (targets_view(a@) == targets_view(b@)),
{
    if a.len() != b.len() {
        assert(targets_view(a@).len() != targets_view(b@).len());
        return false;
    }
    let mut i: usize = 0;
    while i < a.len()
        invariant
            i <= a.len(),
            a.len() == b.len(),
            forall|j: int| 0 <= j < i ==> a@[j]@ == b@[j]@,
        decreases a.len() - i,
    {
        if a[i] != b[i] {
            assert(targets_view(a@)[i as int] != targets_view(b@)[i as int]);
            return false;
        }
        i = i + 1;
    }
    assert(targets_view(a@) =~= targets_view(b@));
    true
}

/// The settings of the agent and the targets it probes.
#[derive(Debug)]
pub struct ProbeConfig {
    /// Milliseconds between two ticks.
    pub probe_interval_ms: u64,
    /// The timeout of a probe that has none of its own, in milliseconds.
    pub default_timeout_ms: u64,
    pub targets: Vec<TargetConfig>,
    pub log_level: String,
    pub enable_latency_history: bool,
}

/// A configuration as plain values.
pub struct ConfigView {
    pub probe_interval_ms: u64,
    pub default_timeout_ms: u64,
    pub targets: Seq<TargetView>,
    pub log_level: Seq<char>,
    pub enable_latency_history: bool,
}

impl View for ProbeConfig {
    type V = ConfigView;

    open spec fn view(&self) -> ConfigView {
        ConfigView {
            probe_interval_ms: self.probe_interval_ms,
            default_timeout_ms: self.default_timeout_ms,
            targets: targets_view(self.targets@),
            log_level: self.log_level@,
            enable_latency_history: self.enable_latency_history,
        }
    }
}

impl Clone for ProbeConfig {
    fn clone(&self) -> (r: Self)
        ensures
            r@ == self@,
    {
        ProbeConfig {
            probe_interval_ms: self.probe_interval_ms,
            default_timeout_ms: self.default_timeout_ms,
            targets: clone_targets(&self.targets),
            log_level: self.log_level.clone(),
            enable_latency_history: self.enable_latency_history,
        }
    }
}

impl PartialEq for ProbeConfig {
    fn eq(&self, other: &Self) -> (r: bool) {
        self.probe_interval_ms == other.probe_interval_ms && self.default_timeout_ms
            == other.default_timeout_ms && same_targets(&self.targets, &other.targets)
            && self.log_level == other.log_level && self.enable_latency_history
            == other.enable_latency_history
    }
}

impl PartialEqSpecImpl for ProbeConfig {
    open spec fn obeys_eq_spec() -> bool {
        true
    }

    open spec fn eq_spec(&self, other: &Self) -> bool {
        self@ == other@
    }
}

/// The log level of a configuration that names none.
pub fn default_log_level() -> (s: String)
    ensures
        s@ == "info"@,
{
    String::from_str("info")
}

/// Whether latency history is kept where a configuration does not say: it is
/// not, and only the current latency is shown.
pub fn default_enable_latency_history() -> (enabled: bool)
    ensures
        !enabled,
{
    false
}

/// How much the agent logs, from most to least.
#[derive(Debug, Clone, Copy, PartialEq, Eq, Structural)]
pub enum LogLevel {
    Trace,
    Debug,
    Info,
    Warn,
    Error,
}

/// The level that a lower-case name stands for: `trace`, `debug`, `info`,
/// `warn` or `warning`, `error`; no other text names a level.
pub open spec fn level_named(name: Seq<char>) -> Option<LogLevel> {
    if name == "trace"@ {
        Some(LogLevel::Trace)
    } else if name == "debug"@ {
        Some(LogLevel::Debug)
    } else if name == "info"@ {
        Some(LogLevel::Info)
    } else if name == "warn"@ || name == "warning"@ {
        Some(LogLevel::Warn)
    } else if name == "error"@ {
        Some(LogLevel::Error)
    } else {
        None
    }
}

/// The lower-case name of a level.
pub open spec fn level_name(level: LogLevel) -> Seq<char> {
    match level {
        LogLevel::Trace => "trace"@,
        LogLevel::Debug => "debug"@,
        LogLevel::Info => "info"@,
        LogLevel::Warn => "warn"@,
        LogLevel::Error => "error"@,
    }
}

impl LogLevel {
    /// The level that the lower-case name `name` stands for, if any.
    pub fn from_lowercase(name: &str) -> (r: Option<LogLevel>)
        ensures
            r == level_named(name@),
    {
        if same_text(name, "trace") {
            Some(LogLevel::Trace)
        } else if same_text(name, "debug") {
            Some(LogLevel::Debug)
        } else if same_text(name, "info") {
            Some(LogLevel::Info)
        } else if same_text(name, "warn") || same_text(name, "warning") {
            Some(LogLevel::Warn)
        } else if same_text(name, "error") {
            Some(LogLevel::Error)
        } else {
            None
        }
    }

    /// The lower-case name of the level.
    pub fn name(&self) -> (s: &'static str)
        ensures
            s@ == level_name(*self),
    {
        match self {
            LogLevel::Trace => "trace",
            LogLevel::Debug => "debug",
            LogLevel::Info => "info",
            LogLevel::Warn => "warn",
            LogLevel::Error => "error",
        }
    }
}

/// The filter directive that sets the agent's own log level: `latency_probe=`
/// and the name of the level.
pub open spec fn directive_of(level: LogLevel) -> Seq<char> {
    "latency_probe="@ + level_name(level)
}

/// The filter directive that sets the agent's own log level.
pub fn filter_directive(level: LogLevel) -> (s: String)
    ensures
        s@ == directive_of(level),
{
    let mut s = String::from_str("latency_probe=");
    s.append(level.name());
    s
}

/// The name of a level stands for that level.
pub proof fn lemma_level_name_round_trip(level: LogLevel)
    ensures
        level_named(level_name(level)) == Some(level),
{
    reveal_strlit("trace");
    reveal_strlit("debug");
    reveal_strlit("info");
    reveal_strlit("warn");
    reveal_strlit("warning");
    reveal_strlit("error");
    assert("trace"@[0] == 't' && "debug"@[0] == 'd' && "info"@[0] == 'i' && "warn"@[0] == 'w'
        && "warning"@[0] == 'w' && "error"@[0] == 'e');
}

/// What is wrong with a configuration.
#[derive(Debug)]
pub enum ConfigError {
    /// The log level, as written, names no level.
    InvalidLogLevel(String),
}

/// What an error says, as plain text.
pub open spec fn error_message(level: Seq<char>) -> Seq<char> {
    "Invalid log level: "@ + level + ". Valid levels are: trace, debug, info, warn, error"@
}

impl ConfigError {
    /// The log level that was refused, as it was written.
    pub open spec fn refused_level(&self) -> Seq<char> {
        match self {
            ConfigError::InvalidLogLevel(level) => level@,
        }
    }

    /// What the error says.
    pub fn message(&self) -> (s: String)
        ensures
            s@ == error_message(self.refused_level()),
    {
        match self {
            ConfigError::InvalidLogLevel(level) => {
                let mut s = String::from_str("Invalid log level: ");
                s.append(level.as_str());
                s.append(". Valid levels are: trace, debug, info, warn, error");
                s
            },
        }
    }
}

/// The level that a configured log level text stands for: the level named by
/// its lower-case form.
pub open spec fn configured_level(log_level: Seq<char>) -> Option<LogLevel> {
    level_named(lowercase_of(log_level))
}

impl ProbeConfig {
    /// The level that the configured log level names, whatever its case; an
    /// error that holds the text as written where it names none.
    pub fn get_tracing_level(&self) -> (r: Result<LogLevel, ConfigError>)
        ensures
            match configured_level(self.log_level@) {
                Some(level) => r == Ok::<LogLevel, ConfigError>(level),
                None => r is Err && r->Err_0.refused_level() == self.log_level@,
            },
    {
        let lowered = lowercase(self.log_level.as_str());
        match LogLevel::from_lowercase(lowered.as_str()) {
            Some(level) => Ok(level),
            None => Err(ConfigError::InvalidLogLevel(self.log_level.clone())),
        }
    }

    /// Accepts the configuration exactly when its log level names a level.
    pub fn validate_log_level(&self) -> (r: Result<(), ConfigError>)
        ensures
            match configured_level(self.log_level@) {
                Some(_) => r is Ok,
                None => r is Err && r->Err_0.refused_level() == self.log_level@,
            },
    {
        match self.get_tracing_level() {
            Ok(_) => Ok(()),
            Err(e) => Err(e),
        }
    }
}

/// What the store holds after a read of the configuration source: the
/// configuration that was read, or the one it held where the read failed.
pub open spec fn refreshed(current: ConfigView, fetched: Option<ConfigView>) -> ConfigView {
    match fetched {
        Some(new_config) => new_config,
        None => current,
    }
}

/// How a read of the configuration source ended.
#[derive(Debug, Clone, Copy, PartialEq, Eq, Structural)]
pub enum RefreshOutcome {
    /// A configuration was read that differs from the one held; it is now held.
    Updated,
    /// The configuration read is the one held.
    Unchanged,
    /// The read failed; the configuration last read is kept.
    KeptLastGood,
}

/// The outcome of a read, by what the store held and what was read.
pub open spec fn refresh_outcome(current: ConfigView, fetched: Option<ConfigView>) -> RefreshOutcome {
    match fetched {
        Some(new_config) => if new_config == current {
            RefreshOutcome::Unchanged
        } else {
            RefreshOutcome::Updated
        },
        None => RefreshOutcome::KeptLastGood,
    }
}

/// The view of a configuration that may be absent.
pub open spec fn fetched_view(fetched: Option<ProbeConfig>) -> Option<ConfigView> {
    match fetched {
        Some(config) => Some(config@),
        None => None,
    }
}

/// Holds the configuration last read successfully and hands out copies of it.
pub struct ConfigStore {
    config: ProbeConfig,
}

impl View for ConfigStore {
    type V = ConfigView;

    closed spec fn view(&self) -> ConfigView {
        self.config@
    }
}

impl ConfigStore {
    /// A store that holds `initial`.
    pub fn new(initial: ProbeConfig) -> (store: Self)
        ensures
            store@ == initial@,
    {
        ConfigStore { config: initial }
    }

    /// A copy of the configuration held.
    pub fn current_config(&self) -> (config: ProbeConfig)
        ensures
            config@ == self@,
    {
        self.config.clone()
    }

    /// The targets held, as a copy of its own: a later refresh of the store
    /// does not reach it.
    pub fn current_targets(&self) -> (targets: Vec<TargetConfig>)
        ensures
            targets_view(targets@) == self@.targets,
    {
        clone_targets(&self.config.targets)
    }

    /// The timeout, in milliseconds, of a probe that has none of its own.
    pub fn current_default_timeout(&self) -> (timeout_ms: u64)
        ensures
            timeout_ms == self@.default_timeout_ms,
    {
        self.config.default_timeout_ms
    }

    /// Takes in the result of a read of the configuration source: `None` for a
    /// read that failed. Holds what was read from then on; a failed read
    /// leaves the store as it was.
    pub fn apply_refresh(&mut self, fetched: Option<ProbeConfig>) -> (outcome: RefreshOutcome)
        ensures
            final(self)@ == refreshed(old(self)@, fetched_view(fetched)),
            outcome == refresh_outcome(old(self)@, fetched_view(fetched)),
    {
        match fetched {
            Some(new_config) => {
                if new_config == self.config {
                    RefreshOutcome::Unchanged
                } else {
                    self.config = new_config;
                    RefreshOutcome::Updated
                }
            },
            None => RefreshOutcome::KeptLastGood,
        }
    }
}

/// Where the configuration is read from.
#[derive(Debug, Clone, Copy, PartialEq, Eq, Structural)]
pub enum ConfigSource {
    /// The remote configuration service.
    AppConfig,
    /// A file on this machine.
    LocalFile,
}

/// The view of a text that may be absent.
pub open spec fn text_view(text: Option<&str>) -> Option<Seq<char>> {
    match text {
        Some(s) => Some(s@),
        None => None,
    }
}

/// The source that a setting selects: the remote service exactly when the
/// setting is present and reads `true`.
pub open spec fn selected_source(flag: Option<Seq<char>>) -> ConfigSource {
    if flag == Some("true"@) {
        ConfigSource::AppConfig
    } else {
        ConfigSource::LocalFile
    }
}

/// Seconds between two reads of the remote service, where none is set.
pub const APP_CONFIG_POLL_SECS: u64 = 60;

/// Seconds between two reads of the local file, where none is set.
pub const LOCAL_FILE_POLL_SECS: u64 = 30;

/// The local file that is read where none is named.
pub open spec fn default_config_file() -> Seq<char> {
    "targets.json"@
}

impl ConfigSource {
    /// The source that the setting `flag` selects: the remote service exactly
    /// when it is present and reads `true`; the local file otherwise.
    pub fn select(flag: Option<&str>) -> (source: ConfigSource)
        ensures
            source == selected_source(text_view(flag)),
    {
        match flag {
            Some(text) => if same_text(text, "true") {
                ConfigSource::AppConfig
            } else {
                ConfigSource::LocalFile
            },
            None => ConfigSource::LocalFile,
        }
    }

    /// Seconds between two reads of this source where none is set: 60 for the
    /// remote service, 30 for the local file.
    pub open spec fn default_poll_secs(self) -> u64 {
        match self {
            ConfigSource::AppConfig => APP_CONFIG_POLL_SECS,
            ConfigSource::LocalFile => LOCAL_FILE_POLL_SECS,
        }
    }

    /// Seconds between two reads, by the setting `raw`: its value where it is
    /// an unsigned decimal number that fits 64 bits, else the default of the
    /// source.
    pub open spec fn poll_secs_spec(self, raw: Option<Seq<char>>) -> u64 {
        match raw {
            Some(text) => match parse_unsigned_spec(text, u64::MAX as nat) {
                Some(secs) => secs as u64,
                None => self.default_poll_secs(),
            },
            None => self.default_poll_secs(),
        }
    }

    /// Seconds between two reads of this source, by the setting `raw`.
    pub fn poll_interval_secs(&self, raw: Option<&str>) -> (secs: u64)
        ensures
            secs == self.poll_secs_spec(text_view(raw)),
    {
        let fallback = match self {
            ConfigSource::AppConfig => APP_CONFIG_POLL_SECS,
            ConfigSource::LocalFile => LOCAL_FILE_POLL_SECS,
        };
        match raw {
            Some(text) => match parse_unsigned(text, u64::MAX) {
                Some(secs) => secs,
                None => fallback,
            },
            None => fallback,
        }
    }
}

/// The path of the local configuration file: the one that is set, or
/// `targets.json`.
pub fn config_file_path(raw: Option<&str>) -> (path: String)
    ensures
        path@ == match raw {
            Some(text) => text@,
            None => default_config_file(),
        },
{
    match raw {
        Some(text) => String::from_str(text),
        None => String::from_str("targets.json"),
    }
}

} // verus!
