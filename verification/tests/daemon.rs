use barnowld::config::{Config, ConfigError};
use barnowld::daemon::{daemon_step, DaemonAction, DaemonPhase, DaemonState};
use barnowld::sampler::SamplerParams;
use barnowld::scheduler::generate_cpu_list;

#[test]
fn config_new_defaults() {
    let cfg = Config::new();
    assert!(!cfg.verbose);
    assert!(!cfg.daemon);
    assert!(cfg.cpu_min.is_none());
    assert!(cfg.cpu_max.is_none());
    assert!(cfg.relax_time.is_none());
    let d = Config::default();
    assert!(!d.verbose);
    assert!(d.cpu_min.is_none());
}

#[test]
fn sampler_params_defaults_and_validation() {
    let p = SamplerParams::default();
    assert_eq!(p.dwell_min_seconds, 5);
    assert_eq!(p.dwell_max_seconds, 10);
    let p = SamplerParams::new(2, 4).expect("2..=4 is a valid dwell window");
    assert_eq!(p.dwell_min_seconds, 2);
    assert_eq!(p.dwell_max_seconds, 4);
    let err = SamplerParams::new(0, 4).expect_err("a zero-second dwell cannot be sampled");
    assert_eq!(err, ConfigError::DwellBelowMinimum { dwell: 0, minimum: 1 });
    let err = SamplerParams::new(6, 4).expect_err("an inverted dwell window is empty");
    assert_eq!(err, ConfigError::DwellRangeInverted { dwell_min: 6, dwell_max: 4 });
}

#[test]
fn scanning_hands_out_each_core_in_schedule_order() {
    let params = SamplerParams::default();
    let mut state = DaemonState::begin_cycle(vec![2, 0, 3, 1]);
    let mut seen = Vec::new();
    for _ in 0..4 {
        let (next, action) = daemon_step(state, None, &params);
        match action {
            DaemonAction::SampleCore { cpu, dwell_seconds } => {
                assert!((5..=10).contains(&dwell_seconds));
                seen.push(cpu);
            }
            other => panic!("expected a sample action while scanning, got {:?}", other),
        }
        state = next;
    }
    assert_eq!(seen, vec![2, 0, 3, 1]);
}

#[test]
fn exhausted_cycle_without_relax_begins_next_cycle_at_once() {
    let params = SamplerParams::default();
    let state = DaemonState::begin_cycle(vec![0]);
    let (state, _) = daemon_step(state, None, &params);
    let (state, action) = daemon_step(state, None, &params);
    assert_eq!(action, DaemonAction::BeginCycle);
    assert_eq!(state.phase, DaemonPhase::Scanning);
}

#[test]
fn exhausted_cycle_with_relax_sleeps_then_begins_next_cycle() {
    let params = SamplerParams::default();
    let state = DaemonState::begin_cycle(vec![0]);
    let (state, _) = daemon_step(state, Some(30), &params);
    let (state, action) = daemon_step(state, Some(30), &params);
    assert_eq!(action, DaemonAction::Relax { seconds: 30 });
    assert_eq!(state.phase, DaemonPhase::Relaxing);
    let (state, action) = daemon_step(state, Some(30), &params);
    assert_eq!(action, DaemonAction::BeginCycle);
    assert_eq!(state.phase, DaemonPhase::Scanning);
}

#[test]
fn four_cores_default_bounds_each_sampled_exactly_once_per_cycle() {
    // core count 4, no explicit bounds: the resolved range is [0,3], the
    // schedule is some permutation of {0,1,2,3}, and driving the daemon
    // through one cycle samples each of those cores exactly once.
    let cfg = Config::new();
    let params = SamplerParams::default();
    let schedule = generate_cpu_list(&cfg, 4).expect("default bounds over 4 cores must schedule");
    assert_eq!(schedule.len(), 4);
    let mut state = DaemonState::begin_cycle(schedule);
    let mut sampled = Vec::new();
    loop {
        let (next, action) = daemon_step(state, None, &params);
        state = next;
        match action {
            DaemonAction::SampleCore { cpu, .. } => sampled.push(cpu),
            DaemonAction::BeginCycle => break,
            DaemonAction::Relax { .. } => panic!("no relax interval was configured"),
        }
    }
    sampled.sort();
    assert_eq!(sampled, vec![0, 1, 2, 3]);
}
