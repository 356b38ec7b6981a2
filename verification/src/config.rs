use vstd::prelude::*;

verus! {

/// Runtime configuration for the monitor, immutable once the daemon has
/// started. Unset core bounds mean "use the full range of live cores";
/// an unset relax time means cycles follow each other back to back.
pub struct Config {
    pub verbose: bool,
    pub daemon: bool,
    pub cpu_min: Option<usize>,
    pub cpu_max: Option<usize>,
    pub relax_time: Option<u64>,
}

impl Config {
    /// A fresh configuration with everything at its default: quiet,
    /// foreground, scanning all cores, no relax interval.
    pub fn new() -> (cfg: Config)
        ensures
            !cfg.verbose,
            !cfg.daemon,
            cfg.cpu_min is None,
            cfg.cpu_max is None,
            cfg.relax_time is None,
    {
        Config { verbose: false, daemon: false, cpu_min: None, cpu_max: None, relax_time: None }
    }
}

impl Default for Config {
    fn default() -> (cfg: Config)
        ensures
            !cfg.verbose,
            !cfg.daemon,
            cfg.cpu_min is None,
            cfg.cpu_max is None,
            cfg.relax_time is None,
    {
        Config::new()
    }
}

/// A fatal configuration violation: the monitor refuses to start rather
/// than scan a range the host does not have or dwell for no time at all.
#[derive(Clone, Copy, Debug, PartialEq, Eq, Structural)]
pub enum ConfigError {
    /// The requested lower core bound exceeds the highest live core index.
    CpuMinOutOfRange { cpu_min: usize, max_index: usize },
    /// The requested upper core bound exceeds the highest live core index.
    CpuMaxOutOfRange { cpu_max: usize, max_index: usize },
    /// The resolved range starts after it ends.
    RangeInverted { start: usize, end: usize },
    /// The configured dwell window is below the shortest usable dwell.
    DwellBelowMinimum { dwell: usize, minimum: usize },
    /// The configured dwell window starts after it ends.
    DwellRangeInverted { dwell_min: usize, dwell_max: usize },
}

} // verus!
