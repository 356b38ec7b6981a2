use vstd::prelude::*;
use rand::seq::SliceRandom;
use crate::config::{Config, ConfigError};

verus! {

/// The inclusive range of core indices one scan cycle will visit.
#[derive(Clone, Copy, Debug, PartialEq, Eq, Structural)]
pub struct ScanRange {
    pub start: usize,
    pub end: usize,
}

impl ScanRange {
    /// A usable range: non-empty, and with room for `end + 1` so the
    /// range can be materialized by counting up to and past `end`.
    pub open spec fn wf(self) -> bool {
        self.start <= self.end < usize::MAX
    }

    /// The core indices of the range, in ascending order.
    pub open spec fn indices(self) -> Seq<usize> {
        Seq::new((self.end - self.start + 1) as nat, |i: int| (self.start + i) as usize)
    }
}

/// How a configured pair of optional bounds resolves against the live
/// core count: either bound out of range is rejected, then an inverted
/// range is rejected, and what remains is the inclusive range from the
/// configured minimum (default 0) to the configured maximum (default
/// the highest live index).
pub open spec fn resolve_spec(cfg: Config, core_count: usize) -> Result<ScanRange, ConfigError>
    recommends
        core_count >= 1,
{
    let max_index = (core_count - 1) as usize;
    let start: usize = if cfg.cpu_min is Some { cfg.cpu_min->0 } else { 0 };
    let end: usize = if cfg.cpu_max is Some { cfg.cpu_max->0 } else { max_index };
    if cfg.cpu_min is Some && cfg.cpu_min->0 > max_index {
        Err(ConfigError::CpuMinOutOfRange { cpu_min: cfg.cpu_min->0, max_index })
    } else if cfg.cpu_max is Some && cfg.cpu_max->0 > max_index {
        Err(ConfigError::CpuMaxOutOfRange { cpu_max: cfg.cpu_max->0, max_index })
    } else if start > end {
        Err(ConfigError::RangeInverted { start, end })
    } else {
        Ok(ScanRange { start, end })
    }
}

/// Resolves the configured core bounds against the live core count,
/// rejecting bounds past the last live core and inverted ranges before
/// any sampling can begin.
pub fn resolve_scan_range(cfg: &Config, core_count: usize) -> (r: Result<ScanRange, ConfigError>)
    requires
        core_count >= 1,
    ensures
        r == resolve_spec(*cfg, core_count),
        r matches Ok(range) ==> range.wf() && range.end < core_count,
{
    let max_index = core_count - 1;
    let start = match cfg.cpu_min {
        Some(m) => {
            if m > max_index {
                return Err(ConfigError::CpuMinOutOfRange { cpu_min: m, max_index });
            }
            m
        },
        None => 0,
    };
    let end = match cfg.cpu_max {
        Some(m) => {
            if m > max_index {
                return Err(ConfigError::CpuMaxOutOfRange { cpu_max: m, max_index });
            }
            m
        },
        None => max_index,
    };
    if start > end {
        return Err(ConfigError::RangeInverted { start, end });
    }
    Ok(ScanRange { start, end })
}

/// Builds the ascending list of core indices in the range.
fn materialize_range(range: &ScanRange) -> (v: Vec<usize>)
    requires
        range.wf(),
    ensures
        v@ == range.indices(),
{
    let mut v: Vec<usize> = Vec::new();
    let mut i: usize = range.start;
    while i <= range.end
        invariant
            range.wf(),
            range.start <= i <= range.end + 1,
            v@.len() == i - range.start,
            forall|k: int| 0 <= k < v@.len() ==> v@[k] == range.start + k,
        decreases range.end + 1 - i,
    {
        v.push(i);
        i = i + 1;
    }
    proof {
        assert(v@ =~= range.indices());
    }
    v
}

/// Relies on rand's SliceRandom::shuffle: an in-place random
/// permutation of the slice by element swaps, so the multiset of
/// elements (and hence the length) is unchanged.
#[verifier::external_body]
fn shuffle_in_place(v: &mut Vec<usize>)
    ensures
        final(v)@.len() == old(v)@.len(),
        final(v)@.to_multiset() == old(v)@.to_multiset(),
{
    v.shuffle(&mut rand::thread_rng());
}

/// One cycle's scan order: the resolved range of core indices in a
/// fresh random order, so an attacker cannot time around a fixed sweep.
/// The output visits every index of the resolved range exactly once —
/// it is a permutation of the range, nothing more and nothing less.
pub fn generate_cpu_list(cfg: &Config, core_count: usize) -> (r: Result<Vec<usize>, ConfigError>)
    requires
        core_count >= 1,
    ensures
        (r is Ok) <==> (resolve_spec(*cfg, core_count) is Ok),
        r matches Err(e) ==> resolve_spec(*cfg, core_count) == Err::<ScanRange, ConfigError>(e),
        r matches Ok(v) ==> {
            &&& resolve_spec(*cfg, core_count) matches Ok(range)
            &&& v@.to_multiset() == range.indices().to_multiset()
            &&& v@.len() == range.indices().len()
        },
{
    let range = match resolve_scan_range(cfg, core_count) {
        Ok(range) => range,
        Err(e) => {
            return Err(e);
        },
    };
    let mut v = materialize_range(&range);
    shuffle_in_place(&mut v);
    Ok(v)
}

} // verus!
