use vstd::prelude::*;

verus! {

/// Idle connections kept open per host by one pooled client.
pub const POOL_MAX_IDLE_PER_HOST: usize = 2;

/// Interval between TCP keep-alive probes, in seconds.
pub const TCP_KEEPALIVE_SECS: u64 = 10;

/// How long an idle pooled connection is kept, in seconds.
pub const POOL_IDLE_TIMEOUT_SECS: u64 = 15;

/// How the pooled client of one endpoint is configured.
#[derive(Debug, Clone, Copy, PartialEq, Eq, Structural)]
pub struct ClientSettings {
    pub timeout_secs: u64,
    pub pool_max_idle_per_host: usize,
    pub tcp_keepalive_secs: u64,
    pub pool_idle_timeout_secs: u64,
}

impl ClientSettings {
    /// The settings of a client whose requests time out after `timeout_secs`.
    pub fn for_timeout(timeout_secs: u8) -> (r: ClientSettings)
        ensures
            r == (ClientSettings {
                timeout_secs: timeout_secs as u64,
                pool_max_idle_per_host: POOL_MAX_IDLE_PER_HOST,
                tcp_keepalive_secs: TCP_KEEPALIVE_SECS,
                pool_idle_timeout_secs: POOL_IDLE_TIMEOUT_SECS,
            }),
    {
        ClientSettings {
            timeout_secs: timeout_secs as u64,
            pool_max_idle_per_host: POOL_MAX_IDLE_PER_HOST,
            tcp_keepalive_secs: TCP_KEEPALIVE_SECS,
            pool_idle_timeout_secs: POOL_IDLE_TIMEOUT_SECS,
        }
    }
}

} // verus!
