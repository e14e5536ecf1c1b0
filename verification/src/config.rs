//! The bot's settings and their defaults.
use vstd::prelude::*;

verus! {

/// A span of time: whole seconds and the nanoseconds beyond them.
#[derive(Debug, Clone, Copy, PartialEq, Eq, Structural)]
pub struct TimeSpan {
    pub secs: u64,
    pub nanos: u32,
}

impl TimeSpan {
    /// A span of whole seconds.
    pub fn from_secs(secs: u64) -> (r: TimeSpan)
        ensures
            r == (TimeSpan { secs, nanos: 0 }),
    {
        TimeSpan { secs, nanos: 0 }
    }
}

/// Settings of the feedback flow.
#[derive(Debug, Clone, Copy, PartialEq, Eq, Structural)]
pub struct FeedbackConfig {
    /// How long the "thanks for the feedback" message stays.
    pub ack_ttl: TimeSpan,
    /// How long a requested feedback may take before it is cancelled.
    pub timeout: TimeSpan,
}

/// Settings of the store.
#[derive(Debug, Clone, PartialEq, Eq)]
pub struct DbConfig {
    /// The URLs of the cluster's nodes.
    pub nodes: Vec<String>,
    /// The directory of the store scripts.
    pub scripts_path: String,
    /// The most connections the pool keeps.
    pub pool_size: u8,
    /// How long to wait for a connection from the pool.
    pub connection_timeout: TimeSpan,
}

/// By default a requested feedback is cancelled after two minutes.
pub fn timeout() -> (r: TimeSpan)
    ensures
        r == (TimeSpan { secs: 120, nanos: 0 }),
{
    TimeSpan::from_secs(60 * 2)
}

/// By default the "thanks for the feedback" message stays five seconds.
pub fn ack_ttl() -> (r: TimeSpan)
    ensures
        r == (TimeSpan { secs: 5, nanos: 0 }),
{
    TimeSpan::from_secs(5)
}

/// By default the connection pool keeps up to ten connections.
pub fn pool_size() -> (r: u8)
    ensures
        r == 10,
{
    10
}

/// By default a connection is waited for three seconds.
pub fn connection_timeout() -> (r: TimeSpan)
    ensures
        r == (TimeSpan { secs: 3, nanos: 0 }),
{
    TimeSpan::from_secs(3)
}

/// Where the logs go.
#[derive(Debug, Clone, PartialEq, Eq)]
pub enum LogsConfig {
    Stdout,
    File { dir: String, prefix: String },
}

impl Default for LogsConfig {
    /// Logs go to the standard output by default.
    fn default() -> (r: LogsConfig)
        ensures
            r is Stdout,
    {
        LogsConfig::Stdout
    }
}

} // verus!
