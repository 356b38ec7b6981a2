use vstd::prelude::*;

verus! {

/// Clamps a raw processor-count probe result to a usable core count:
/// any failed or nonsensical probe (a value below one) falls back to a
/// single core, so the monitor always has at least one core to scan.
pub fn core_count_from_probe(raw: i64) -> (n: usize)
    ensures
        n >= 1,
        raw < 1 ==> n == 1,
        1 <= raw && raw <= usize::MAX ==> n == raw,
{
    if raw < 1 {
        1
    } else if raw as u64 > usize::MAX as u64 {
        usize::MAX
    } else {
        raw as usize
    }
}

} // verus!
