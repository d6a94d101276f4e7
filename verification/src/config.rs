use vstd::prelude::*;

verus! {

/// Conversion rates from raw engagement signals to points.  Each rate is a
/// positive divisor: so many raw units make one point.
#[derive(Clone, Copy, Debug, PartialEq, Eq, Structural)]
pub struct PointsConfig {
    /// Currency units of tip revenue per point.
    pub superchat_rate: i64,
    /// Concurrent viewers per point.
    pub concurrent_rate: i64,
    /// Likes per point.
    pub like_rate: i64,
    /// Newly gained subscribers per point.
    pub subscriber_rate: i64,
}

impl PointsConfig {
    /// All four rates are positive, so the derived components are defined.
    pub open spec fn valid(self) -> bool {
        &&& self.superchat_rate >= 1
        &&& self.concurrent_rate >= 1
        &&& self.like_rate >= 1
        &&& self.subscriber_rate >= 1
    }
}

impl Default for PointsConfig {
    fn default() -> (r: Self)
        ensures
            r == (PointsConfig {
                superchat_rate: 100,
                concurrent_rate: 100,
                like_rate: 10,
                subscriber_rate: 1,
            }),
            r.valid(),
    {
        PointsConfig { superchat_rate: 100, concurrent_rate: 100, like_rate: 10, subscriber_rate: 1 }
    }
}

/// Where the snapshot stream is served from.
#[derive(Clone, Copy, Debug, PartialEq, Eq, Structural)]
pub struct ServerConfig {
    pub port: u16,
}

impl Default for ServerConfig {
    fn default() -> (r: Self)
        ensures
            r.port == 8080,
    {
        ServerConfig { port: 8080 }
    }
}

/// How often an active session asks the worker for fresh snapshot data.
#[derive(Clone, Copy, Debug, PartialEq, Eq, Structural)]
pub struct PollingConfig {
    pub interval_seconds: u64,
}

impl PollingConfig {
    /// A polling interval of zero would spin; the loop needs at least one
    /// time unit between ticks.
    pub open spec fn valid(self) -> bool {
        self.interval_seconds >= 1
    }
}

impl Default for PollingConfig {
    fn default() -> (r: Self)
        ensures
            r.interval_seconds == 5,
            r.valid(),
    {
        PollingConfig { interval_seconds: 5 }
    }
}

/// The whole configuration, loaded once and effectively immutable for a
/// session.
#[derive(Clone, Copy, Debug, PartialEq, Eq, Structural)]
pub struct Config {
    pub points: PointsConfig,
    pub server: ServerConfig,
    pub polling: PollingConfig,
}

impl Config {
    pub open spec fn valid(self) -> bool {
        self.points.valid() && self.polling.valid()
    }
}

impl Default for Config {
    fn default() -> (r: Self)
        ensures
            r.points == (PointsConfig {
                superchat_rate: 100,
                concurrent_rate: 100,
                like_rate: 10,
                subscriber_rate: 1,
            }),
            r.server.port == 8080,
            r.polling.interval_seconds == 5,
            r.valid(),
    {
        Config {
            points: PointsConfig::default(),
            server: ServerConfig::default(),
            polling: PollingConfig::default(),
        }
    }
}

} // verus!
