use vstd::prelude::*;

verus! {

/// Timing settings of the dashboard.
#[derive(Debug, Clone, Copy)]
pub struct Config {
    /// UI tick rate in milliseconds (controls animation smoothness).
    pub tick_rate_ms: u64,
    /// System metrics refresh interval in milliseconds.
    pub metrics_interval_ms: u64,
}

impl Default for Config {
    fn default() -> (r: Self)
        ensures
            r.tick_rate_ms == 120,
            r.metrics_interval_ms == 1000,
    {
        Config { tick_rate_ms: 120, metrics_interval_ms: 1_000 }
    }
}

} // verus!
