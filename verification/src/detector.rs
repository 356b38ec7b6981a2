use vstd::prelude::*;
use vstd::arithmetic::div_mod::{lemma_div_is_ordered, lemma_div_multiples_vanish, lemma_div_pos_is_pos};
use vstd::arithmetic::mul::{lemma_mul_inequality, lemma_mul_upper_bound};

verus! {

/// Detection tuning: the activity floor below which a core's sample is
/// ignored, and the miss/reference ratio above which a core is flagged.
/// Ratios and thresholds are carried in hundredths of a percent, so the
/// default alert threshold of 90.00% is 9000.
pub struct DetectorParams {
    /// Minimum cache references per second for a sample to be meaningful.
    pub volume_floor_per_second: u64,
    /// Alert when the miss/reference ratio strictly exceeds this, in
    /// hundredths of a percent.
    pub alert_threshold_centipercent: u64,
}

pub const DEFAULT_VOLUME_FLOOR_PER_SECOND: u64 = 10000;

pub const DEFAULT_ALERT_THRESHOLD_CENTIPERCENT: u64 = 9000;

impl DetectorParams {
    pub fn new(volume_floor_per_second: u64, alert_threshold_centipercent: u64) -> (p: DetectorParams)
        ensures
            p.volume_floor_per_second == volume_floor_per_second,
            p.alert_threshold_centipercent == alert_threshold_centipercent,
    {
        DetectorParams { volume_floor_per_second, alert_threshold_centipercent }
    }
}

impl Default for DetectorParams {
    fn default() -> (p: DetectorParams)
        ensures
            p.volume_floor_per_second == DEFAULT_VOLUME_FLOOR_PER_SECOND,
            p.alert_threshold_centipercent == DEFAULT_ALERT_THRESHOLD_CENTIPERCENT,
    {
        DetectorParams {
            volume_floor_per_second: DEFAULT_VOLUME_FLOOR_PER_SECOND,
            alert_threshold_centipercent: DEFAULT_ALERT_THRESHOLD_CENTIPERCENT,
        }
    }
}

/// One core's raw counter readings over one dwell window, consumed by
/// the detector and then discarded.
#[derive(Clone, Copy, Debug, PartialEq, Eq, Structural)]
pub struct CounterSample {
    pub cpu: usize,
    pub dwell_seconds: usize,
    pub cache_references: u64,
    pub cache_misses: u64,
}

/// What the detector concluded about one sample.
#[derive(Clone, Copy, Debug, PartialEq, Eq, Structural)]
pub enum Classification {
    /// Too little cache activity for the ratio to mean anything.
    Ignored,
    /// Active core whose miss ratio stays at or under the threshold.
    Normal,
    /// Active core whose miss ratio strictly exceeds the threshold.
    Alert,
}

/// The derived ratio (in hundredths of a percent, rounded down) together
/// with the classification of the sample.
#[derive(Clone, Copy, Debug, PartialEq, Eq, Structural)]
pub struct DetectionOutcome {
    pub ratio_centipercent: u128,
    pub classification: Classification,
}

/// Everything an operator needs to act on one alert: which core, the
/// measured ratio, the threshold it exceeded, and the raw inputs.
#[derive(Clone, Copy, Debug, PartialEq, Eq, Structural)]
pub struct AlertRecord {
    pub cpu: usize,
    pub ratio_centipercent: u128,
    pub threshold_centipercent: u64,
    pub dwell_seconds: usize,
    pub cache_references: u64,
    pub cache_misses: u64,
}

/// The miss/reference ratio in hundredths of a percent, rounded down;
/// zero references count as a ratio of zero rather than a division.
pub open spec fn ratio_centipercent_of(refs: u64, misses: u64) -> int {
    if refs == 0 {
        0
    } else {
        (misses * 10000) / (refs as int)
    }
}

/// Whether a sample saw too few cache references per second of dwell to
/// be worth judging: strictly under the floor, with the comparison done
/// multiplicatively so no precision is lost to division.
pub open spec fn low_activity(refs: u64, dwell: usize, floor: u64) -> bool {
    (refs as int) < (floor as int) * (dwell as int)
}

/// Whether the miss/reference ratio strictly exceeds the threshold
/// (both sides scaled to avoid any rounding): misses/refs * 100 >
/// threshold/100 exactly when misses * 10000 > refs * threshold.
pub open spec fn above_threshold(refs: u64, misses: u64, threshold: u64) -> bool {
    (misses as int) * 10000 > (refs as int) * (threshold as int)
}

/// The three-way classification of one sample's counts.
pub open spec fn classify_counts(refs: u64, misses: u64, dwell: usize, p: DetectorParams) -> Classification {
    if low_activity(refs, dwell, p.volume_floor_per_second) {
        Classification::Ignored
    } else if above_threshold(refs, misses, p.alert_threshold_centipercent) {
        Classification::Alert
    } else {
        Classification::Normal
    }
}

proof fn lemma_mul_u64_fits_u128(a: int, b: int)
    requires
        0 <= a <= u64::MAX,
        0 <= b <= u64::MAX,
    ensures
        0 <= a * b <= u128::MAX,
{
    lemma_mul_upper_bound(a, u64::MAX as int, b, u64::MAX as int);
    assert((u64::MAX as int) * (u64::MAX as int) <= u128::MAX);
    vstd::arithmetic::mul::lemma_mul_nonnegative(a, b);
}

/// Law: for any sample whose miss count does not exceed its reference
/// count, the miss/reference ratio lies between 0 and 100 percent.
pub proof fn lemma_ratio_bounded(refs: u64, misses: u64)
    requires
        misses <= refs,
    ensures
        0 <= ratio_centipercent_of(refs, misses) <= 10000,
{
    if refs != 0 {
        let m = misses as int;
        let r = refs as int;
        lemma_div_pos_is_pos(m * 10000, r);
        lemma_mul_inequality(m, r, 10000);
        lemma_div_is_ordered(m * 10000, r * 10000, r);
        lemma_div_multiples_vanish(10000, r);
        assert(r * 10000 == 10000 * r) by (nonlinear_arith);
        assert((r * 10000) / r == 10000);
    }
}

/// Turns one sample's raw counts into a ratio and a classification:
/// ignore quiet cores, flag active ones whose miss ratio strictly
/// exceeds the threshold, and treat zero references as a zero ratio.
pub fn classify(sample: &CounterSample, params: &DetectorParams) -> (out: DetectionOutcome)
    requires
        sample.dwell_seconds >= 1,
    ensures
        out.classification == classify_counts(
            sample.cache_references,
            sample.cache_misses,
            sample.dwell_seconds,
            *params,
        ),
        out.ratio_centipercent == ratio_centipercent_of(sample.cache_references, sample.cache_misses),
        sample.cache_references == 0 ==> out.ratio_centipercent == 0,
{
    let refs = sample.cache_references;
    let misses = sample.cache_misses;
    proof {
        lemma_mul_u64_fits_u128(params.volume_floor_per_second as int, sample.dwell_seconds as int);
        lemma_mul_u64_fits_u128(refs as int, params.alert_threshold_centipercent as int);
        lemma_mul_u64_fits_u128(misses as int, 10000);
    }
    let floor_volume: u128 = (params.volume_floor_per_second as u128) * (sample.dwell_seconds as u128);
    let ratio_centipercent: u128 = if refs == 0 {
        0
    } else {
        (misses as u128) * 10000 / (refs as u128)
    };
    let classification = if (refs as u128) < floor_volume {
        Classification::Ignored
    } else if (misses as u128) * 10000 > (refs as u128) * (params.alert_threshold_centipercent as u128) {
        Classification::Alert
    } else {
        Classification::Normal
    };
    DetectionOutcome { ratio_centipercent, classification }
}

/// Runs the detector on one sample and, when it alerts, builds the
/// alert record whose core index, dwell and raw counts are exactly the
/// sample's own, alongside the measured ratio and configured threshold.
pub fn detect(sample: &CounterSample, params: &DetectorParams) -> (r: (DetectionOutcome, Option<AlertRecord>))
    requires
        sample.dwell_seconds >= 1,
    ensures
        r.0.classification == classify_counts(
            sample.cache_references,
            sample.cache_misses,
            sample.dwell_seconds,
            *params,
        ),
        r.0.ratio_centipercent == ratio_centipercent_of(sample.cache_references, sample.cache_misses),
        (r.1 is Some) <==> (r.0.classification is Alert),
        r.1 matches Some(a) ==> {
            &&& a.cpu == sample.cpu
            &&& a.dwell_seconds == sample.dwell_seconds
            &&& a.cache_references == sample.cache_references
            &&& a.cache_misses == sample.cache_misses
            &&& a.ratio_centipercent == ratio_centipercent_of(sample.cache_references, sample.cache_misses)
            &&& a.threshold_centipercent == params.alert_threshold_centipercent
        },
{
    let outcome = classify(sample, params);
    let alert = match outcome.classification {
        Classification::Alert => Some(
            AlertRecord {
                cpu: sample.cpu,
                ratio_centipercent: outcome.ratio_centipercent,
                threshold_centipercent: params.alert_threshold_centipercent,
                dwell_seconds: sample.dwell_seconds,
                cache_references: sample.cache_references,
                cache_misses: sample.cache_misses,
            },
        ),
        _ => None,
    };
    (outcome, alert)
}

} // verus!
