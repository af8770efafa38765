//! The settings that the library's decisions depend on.

use vstd::prelude::*;

verus! {

/// The settings of a replica.
#[derive(Debug)]
pub struct Config {
    /// Whether clients may connect to the hubs.
    pub enable_websocket: bool,
    /// Whether notifications also go out through the push relay.
    pub push_enabled: bool,
    /// Whether notifications are to reach the other replicas.
    pub redis_websocket_enabled: bool,
    /// Whether to go on alone where that fails at the start.
    pub redis_websocket_fallback_memory: bool,
    /// The Redis server, if there is one.
    pub redis_url: Option<String>,
    /// What every channel and bucket key starts with.
    pub redis_channel_prefix: String,
    pub login_ratelimit_seconds: u64,
    pub login_ratelimit_max_burst: u32,
    pub login_account_ratelimit_seconds: u64,
    pub login_account_ratelimit_max_burst: u32,
    pub admin_ratelimit_seconds: u64,
    pub admin_ratelimit_max_burst: u32,
}

impl Config {
    /// Whether nobody is to be told anything.
    pub open spec fn silent(self) -> bool {
        !self.enable_websocket && !self.push_enabled
    }

    /// Whether nobody is to be told anything.
    pub fn notifications_disabled(&self) -> (disabled: bool)
        ensures
            disabled == self.silent(),
            disabled <==> !(self.enable_websocket || self.push_enabled),
    {
        !self.enable_websocket && !self.push_enabled
    }
}

/// Nobody is told anything exactly where neither WebSockets nor push are on: either of
/// them alone, or both, have notifications go out.
pub proof fn law_silent_only_where_both_are_off(config: Config)
    ensures
        config.enable_websocket ==> !config.silent(),
        config.push_enabled ==> !config.silent(),
        config.silent() || config.enable_websocket || config.push_enabled,
{
}

}
