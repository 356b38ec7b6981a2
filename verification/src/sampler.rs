use vstd::prelude::*;
use rand::Rng;
use crate::config::ConfigError;
use crate::detector::CounterSample;

verus! {

#[verifier::external_type_specification]
#[verifier::external_body]
pub struct ExCounter(perf_event::Counter);

/// The two hardware cache events the monitor measures.
enum CounterKind {
    CacheReferences,
    CacheMisses,
}

/// A fatal failure to provision or control a hardware counter: the host
/// cannot provide what the monitor needs, so there is no degraded mode.
#[derive(Clone, Copy, Debug, PartialEq, Eq, Structural)]
pub enum CapabilityError {
    CounterOpen { cpu: usize },
    CounterEnable { cpu: usize },
    CounterDisable { cpu: usize },
    CounterRead { cpu: usize },
}

/// Bounds of the per-core dwell window in whole seconds; the actual
/// dwell is drawn fresh from this window for every core of every cycle,
/// to resist predictable-timing evasion.
#[derive(Clone, Copy, Debug, PartialEq, Eq, Structural)]
pub struct SamplerParams {
    pub dwell_min_seconds: usize,
    pub dwell_max_seconds: usize,
}

pub const DEFAULT_DWELL_MIN_SECONDS: usize = 5;

pub const DEFAULT_DWELL_MAX_SECONDS: usize = 10;

impl SamplerParams {
    /// A usable dwell window: at least one second, and not inverted.
    pub open spec fn wf(self) -> bool {
        1 <= self.dwell_min_seconds <= self.dwell_max_seconds
    }

    /// Validates a dwell window: a dwell under one second cannot
    /// produce a per-second rate, and an inverted window is empty.
    pub fn new(dwell_min_seconds: usize, dwell_max_seconds: usize) -> (r: Result<SamplerParams, ConfigError>)
        ensures
            dwell_min_seconds < 1 ==> r == Err::<SamplerParams, ConfigError>(
                ConfigError::DwellBelowMinimum { dwell: dwell_min_seconds, minimum: 1 },
            ),
            dwell_min_seconds >= 1 && dwell_min_seconds > dwell_max_seconds ==> r == Err::<
                SamplerParams,
                ConfigError,
            >(
                ConfigError::DwellRangeInverted {
                    dwell_min: dwell_min_seconds,
                    dwell_max: dwell_max_seconds,
                },
            ),
            1 <= dwell_min_seconds <= dwell_max_seconds ==> {
                &&& r matches Ok(p)
                &&& p.dwell_min_seconds == dwell_min_seconds
                &&& p.dwell_max_seconds == dwell_max_seconds
                &&& p.wf()
            },
    {
        if dwell_min_seconds < 1 {
            Err(ConfigError::DwellBelowMinimum { dwell: dwell_min_seconds, minimum: 1 })
        } else if dwell_min_seconds > dwell_max_seconds {
            Err(
                ConfigError::DwellRangeInverted {
                    dwell_min: dwell_min_seconds,
                    dwell_max: dwell_max_seconds,
                },
            )
        } else {
            Ok(SamplerParams { dwell_min_seconds, dwell_max_seconds })
        }
    }
}

impl Default for SamplerParams {
    fn default() -> (p: SamplerParams)
        ensures
            p.dwell_min_seconds == DEFAULT_DWELL_MIN_SECONDS,
            p.dwell_max_seconds == DEFAULT_DWELL_MAX_SECONDS,
            p.wf(),
    {
        SamplerParams {
            dwell_min_seconds: DEFAULT_DWELL_MIN_SECONDS,
            dwell_max_seconds: DEFAULT_DWELL_MAX_SECONDS,
        }
    }
}

/// Relies on rand's Rng::gen_range over an inclusive range: returns a
/// uniformly drawn value within the range; it panics only on an empty
/// range, which the precondition rules out.
#[verifier::external_body]
pub(crate) fn random_dwell(params: &SamplerParams) -> (d: usize)
    requires
        params.wf(),
    ensures
        params.dwell_min_seconds <= d <= params.dwell_max_seconds,
{
    rand::thread_rng().gen_range(params.dwell_min_seconds..=params.dwell_max_seconds)
}

/// Relies on perf_event's Builder (one_cpu, observe_pid with -1 for all
/// processes, kind, build): opens one hardware cache counter scoped to
/// the given core and to every process; build fails when the host,
/// hardware event or privileges cannot support it.
#[verifier::external_body]
fn open_counter(cpu: usize, kind: CounterKind) -> (r: Result<perf_event::Counter, CapabilityError>) {
    let event = match kind {
        CounterKind::CacheReferences => perf_event::events::Hardware::CACHE_REFERENCES,
        CounterKind::CacheMisses => perf_event::events::Hardware::CACHE_MISSES,
    };
    match perf_event::Builder::new().one_cpu(cpu).observe_pid(-1).kind(event).build() {
        Ok(c) => Ok(c),
        Err(_) => Err(CapabilityError::CounterOpen { cpu }),
    }
}

/// Relies on perf_event's Counter::enable: starts the counter counting
/// its event; the accumulated count itself is not touched.
#[verifier::external_body]
fn enable_counter(counter: &mut perf_event::Counter, cpu: usize) -> (r: Result<(), CapabilityError>) {
    match counter.enable() {
        Ok(()) => Ok(()),
        Err(_) => Err(CapabilityError::CounterEnable { cpu }),
    }
}

/// Relies on perf_event's Counter::disable: stops the counter counting;
/// the accumulated count is unaffected.
#[verifier::external_body]
fn disable_counter(counter: &mut perf_event::Counter, cpu: usize) -> (r: Result<(), CapabilityError>) {
    match counter.disable() {
        Ok(()) => Ok(()),
        Err(_) => Err(CapabilityError::CounterDisable { cpu }),
    }
}

/// Relies on perf_event's Counter::read: returns the event count the
/// counter accumulated while enabled.
#[verifier::external_body]
fn read_counter(counter: &mut perf_event::Counter, cpu: usize) -> (r: Result<u64, CapabilityError>) {
    match counter.read() {
        Ok(n) => Ok(n),
        Err(_) => Err(CapabilityError::CounterRead { cpu }),
    }
}

/// A core's pair of live hardware counters, enabled and counting over
/// the same wall-clock window until the sample is finished.
pub struct ActiveSample {
    pub cpu: usize,
    pub refs: perf_event::Counter,
    pub misses: perf_event::Counter,
}

/// Opens the cache-reference and cache-miss counters for one core and
/// enables them back to back, so both cover the same window from here
/// until they are disabled together. Any provisioning failure is
/// surfaced as the capability error it is — there is nothing to retry.
pub fn begin_sample(cpu: usize) -> (r: Result<ActiveSample, CapabilityError>)
    ensures
        r matches Ok(a) ==> a.cpu == cpu,
{
    let mut refs = match open_counter(cpu, CounterKind::CacheReferences) {
        Ok(c) => c,
        Err(e) => {
            return Err(e);
        },
    };
    let mut misses = match open_counter(cpu, CounterKind::CacheMisses) {
        Ok(c) => c,
        Err(e) => {
            return Err(e);
        },
    };
    match enable_counter(&mut refs, cpu) {
        Ok(()) => {},
        Err(e) => {
            return Err(e);
        },
    }
    match enable_counter(&mut misses, cpu) {
        Ok(()) => {},
        Err(e) => {
            return Err(e);
        },
    }
    Ok(ActiveSample { cpu, refs, misses })
}

/// Disables both of a core's counters back to back and reads the final
/// counts, closing the identical wall-clock window the pair was enabled
/// over; the result carries the core index and dwell it was taken with.
pub fn finish_sample(sample: ActiveSample, dwell_seconds: usize) -> (r: Result<CounterSample, CapabilityError>)
    requires
        dwell_seconds >= 1,
    ensures
        r matches Ok(s) ==> s.cpu == sample.cpu && s.dwell_seconds == dwell_seconds,
{
    let mut s = sample;
    let cpu = s.cpu;
    match disable_counter(&mut s.refs, cpu) {
        Ok(()) => {},
        Err(e) => {
            return Err(e);
        },
    }
    match disable_counter(&mut s.misses, cpu) {
        Ok(()) => {},
        Err(e) => {
            return Err(e);
        },
    }
    let cache_misses = match read_counter(&mut s.misses, cpu) {
        Ok(n) => n,
        Err(e) => {
            return Err(e);
        },
    };
    let cache_references = match read_counter(&mut s.refs, cpu) {
        Ok(n) => n,
        Err(e) => {
            return Err(e);
        },
    };
    Ok(CounterSample { cpu, dwell_seconds, cache_references, cache_misses })
}

} // verus!
