use vstd::prelude::*;
use crate::sampler::{random_dwell, SamplerParams};

verus! {

/// The two states of the daemon loop: walking the current cycle's
/// permuted core list, or sleeping out the relax interval between
/// cycles. There is no terminal state — the loop runs until the
/// process is terminated from outside.
#[derive(Clone, Copy, Debug, PartialEq, Eq, Structural)]
pub enum DaemonPhase {
    Scanning,
    Relaxing,
}

/// The daemon's whole state: its phase, the current cycle's scan order,
/// and how far into that order the cycle has come.
#[derive(Clone, Debug)]
pub struct DaemonState {
    pub phase: DaemonPhase,
    pub schedule: Vec<usize>,
    pub next_index: usize,
}

/// What the loop's driver must do next: sample one core for a given
/// dwell, sleep out the relax interval, or start a fresh cycle with a
/// newly generated permutation.
#[derive(Clone, Copy, Debug, PartialEq, Eq, Structural)]
pub enum DaemonAction {
    SampleCore { cpu: usize, dwell_seconds: usize },
    Relax { seconds: u64 },
    BeginCycle,
}

impl DaemonState {
    /// The cursor never points past the end of the schedule.
    pub open spec fn wf(self) -> bool {
        self.next_index <= self.schedule@.len()
    }

    /// A fresh cycle: scanning from the top of the given scan order.
    pub fn begin_cycle(schedule: Vec<usize>) -> (s: DaemonState)
        ensures
            s.phase is Scanning,
            s.schedule@ == schedule@,
            s.next_index == 0,
            s.wf(),
    {
        DaemonState { phase: DaemonPhase::Scanning, schedule, next_index: 0 }
    }
}

/// One decision of the daemon loop. While scanning, each core of the
/// schedule is handed out exactly once, in order, with a dwell drawn
/// fresh from the configured window; when the schedule is exhausted the
/// loop relaxes if an interval is configured and otherwise starts the
/// next cycle at once; after relaxing, the next cycle always begins.
pub fn daemon_step(state: DaemonState, relax_time: Option<u64>, params: &SamplerParams) -> (r: (
    DaemonState,
    DaemonAction,
))
    requires
        state.wf(),
        params.wf(),
    ensures
        r.0.wf(),
        state.phase is Scanning && state.next_index < state.schedule@.len() ==> {
            &&& r.1 matches DaemonAction::SampleCore { cpu, dwell_seconds }
            &&& cpu == state.schedule@[state.next_index as int]
            &&& params.dwell_min_seconds <= dwell_seconds <= params.dwell_max_seconds
            &&& r.0.phase is Scanning
            &&& r.0.schedule@ == state.schedule@
            &&& r.0.next_index == state.next_index + 1
        },
        state.phase is Scanning && state.next_index == state.schedule@.len() ==> (match relax_time {
            Some(seconds) => {
                &&& r.1 == DaemonAction::Relax { seconds }
                &&& r.0.phase is Relaxing
                &&& r.0.schedule@ == state.schedule@
                &&& r.0.next_index == state.next_index
            },
            None => {
                &&& r.1 is BeginCycle
                &&& r.0.phase is Scanning
            },
        }),
        state.phase is Relaxing ==> r.1 is BeginCycle && r.0.phase is Scanning,
{
    match state.phase {
        DaemonPhase::Scanning => {
            if state.next_index < state.schedule.len() {
                let cpu = state.schedule[state.next_index];
                let dwell_seconds = random_dwell(params);
                let next = DaemonState {
                    phase: DaemonPhase::Scanning,
                    next_index: state.next_index + 1,
                    schedule: state.schedule,
                };
                (next, DaemonAction::SampleCore { cpu, dwell_seconds })
            } else {
                match relax_time {
                    Some(seconds) => {
                        let next = DaemonState {
                            phase: DaemonPhase::Relaxing,
                            next_index: state.next_index,
                            schedule: state.schedule,
                        };
                        (next, DaemonAction::Relax { seconds })
                    },
                    None => {
                        let next = DaemonState {
                            phase: DaemonPhase::Scanning,
                            next_index: state.next_index,
                            schedule: state.schedule,
                        };
                        (next, DaemonAction::BeginCycle)
                    },
                }
            }
        },
        DaemonPhase::Relaxing => {
            let next = DaemonState {
                phase: DaemonPhase::Scanning,
                next_index: state.next_index,
                schedule: state.schedule,
            };
            (next, DaemonAction::BeginCycle)
        },
    }
}

} // verus!
