use barnowld::detector::{classify, Classification, DetectorParams};
use barnowld::sampler::{begin_sample, finish_sample, CapabilityError};

#[test]
fn counters_open_and_read_or_fail_cleanly() {
    // Opening real hardware counters needs perf privileges the test
    // environment may not grant; either way the sampler must hand back
    // a clean result, never panic.
    match begin_sample(0) {
        Ok(active) => {
            assert_eq!(active.cpu, 0);
            let sample = finish_sample(active, 1).expect("counters that opened must read");
            assert_eq!(sample.cpu, 0);
            assert_eq!(sample.dwell_seconds, 1);
            // whatever was counted in the instant the pair was enabled,
            // the detector accepts it.
            let _ = classify(&sample, &DetectorParams::default());
        }
        Err(e) => {
            // which control step the host refuses depends on privileges;
            // every variant carries the core it failed on.
            let cpu = match e {
                CapabilityError::CounterOpen { cpu } => cpu,
                CapabilityError::CounterEnable { cpu } => cpu,
                CapabilityError::CounterDisable { cpu } => cpu,
                CapabilityError::CounterRead { cpu } => cpu,
            };
            assert_eq!(cpu, 0);
        }
    }
}

#[test]
fn detector_handles_an_idle_window() {
    // A dwell of one second with whatever a freshly enabled and at once
    // disabled counter pair saw classifies without error; with a zero
    // floor the quietest window is still judged.
    let params = DetectorParams::new(0, 9_000);
    let s = barnowld::detector::CounterSample {
        cpu: 0,
        dwell_seconds: 1,
        cache_references: 0,
        cache_misses: 0,
    };
    let out = classify(&s, &params);
    assert_eq!(out.classification, Classification::Normal);
    assert_eq!(out.ratio_centipercent, 0);
}
