//! What the supervisor is configured with.

use vstd::prelude::*;

verus! {

/// The path of the query endpoint.
pub const QUERY_PATH: &'static str = "/";

/// The path of the subscription upgrade endpoint.
pub const SUBSCRIPTION_PATH: &'static str = "/ws";

/// The listen address of a default configuration: all interfaces, port 8080.
pub const DEFAULT_LISTEN_ADDRESS: &'static str = "0.0.0.0:8080";

/// The grace period of a default configuration, in milliseconds.
pub const DEFAULT_GRACE_PERIOD_MILLIS: u64 = 1000;

/// The options of a supervisor. They are fixed for the whole life of the loop:
/// every server instance binds the same address and drains for the same time.
#[derive(Clone, Debug)]
pub struct Config {
    /// The network bind target, as `host:port`.
    pub listen_address: String,
    /// How long in-flight requests may run on after a shutdown was triggered,
    /// in milliseconds; what is still open after that is closed by force.
    pub grace_period_millis: u64,
}

impl Config {
    /// A configuration with the given bind target and grace period.
    pub fn new(listen_address: &str, grace_period_millis: u64) -> (config: Config)
        ensures
            config.listen_address@ == listen_address@,
            config.grace_period_millis == grace_period_millis,
    {
        Config { listen_address: listen_address.to_owned(), grace_period_millis }
    }
}

impl Default for Config {
    /// Port 8080 on all interfaces, and one second to drain.
    fn default() -> (config: Config)
        ensures
            config.listen_address@ == DEFAULT_LISTEN_ADDRESS@,
            config.grace_period_millis == DEFAULT_GRACE_PERIOD_MILLIS,
    {
        Config::new(DEFAULT_LISTEN_ADDRESS, DEFAULT_GRACE_PERIOD_MILLIS)
    }
}

} // verus!
