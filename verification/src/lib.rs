//! Core of a latency-monitoring agent: target configuration, the fixed-interval
//! tick schedule, per-tick probe dispatch and the failure counters, with the
//! behaviour of each stated as a contract.

pub mod config;
pub mod dispatch;
pub mod metrics;
pub mod prober;
pub mod scheduler;
pub mod text;
pub mod timestamp;
pub mod util;
