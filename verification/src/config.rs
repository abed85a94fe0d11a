use vstd::prelude::*;

verus! {

/// Settings of a probe node.
#[derive(Clone, Copy, Debug, PartialEq, Eq, Structural)]
pub struct Config {
    /// Seconds between two polls of the WiFi interface.
    pub poll_interval_secs: u64,
    /// Signal percentage under which the average counts as a disruption.
    pub signal_threshold: u32,
    /// Number of samples kept for the moving average.
    pub moving_average_window: usize,
}

/// The settings a node uses when none were stored.
pub open spec fn default_config() -> Config {
    Config { poll_interval_secs: 15, signal_threshold: 70, moving_average_window: 3 }
}

impl Default for Config {
    fn default() -> (c: Self)
        ensures
            c == default_config(),
    {
        Config { poll_interval_secs: 15, signal_threshold: 70, moving_average_window: 3 }
    }
}

/// Decides which settings a node runs with, given the settings that could be
/// read back from storage (`None` when there were none, or they could not be
/// read or decoded). The flag of the result tells whether the defaults must be
/// written back to storage.
pub fn resolve_config(loaded: Option<Config>) -> (res: (Config, bool))
    ensures
        res == (match loaded {
            Some(c) => (c, false),
            None => (default_config(), true),
        }),
{
    match loaded {
        Some(c) => (c, false),
        None => (Config::default(), true),
    }
}

} // verus!
