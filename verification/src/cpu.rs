//! The CPU occupier's settings and the duty cycle of one busy task: within
//! each cycle it works for a share of the cycle and sleeps for the rest,
//! until its run time is over.

use vstd::prelude::*;

verus! {

/// Length of one duty cycle, in nanoseconds (10 ms).
pub const CYCLE_NANOS: u64 = 10_000_000;

/// Settings of the CPU occupier.
#[derive(Debug, Clone)]
pub struct CPUOccupyConfig {
    /// Target share of each core, in percent (0 to 100).
    pub rate: u16,
    /// Number of cores to keep busy.
    pub cpu_num: u16,
    /// Length of the busy loop.
    pub loop_time: u16,
}

impl CPUOccupyConfig {
    /// A CPU occupier for `rate` percent, on no core yet.
    pub fn new(rate: u16) -> (c: Self)
        ensures
            c.rate == rate,
            c.cpu_num == 0,
            c.loop_time == 0,
    {
        CPUOccupyConfig { rate, cpu_num: 0, loop_time: 0 }
    }
}

/// The duty cycle of one busy task, in nanoseconds.
#[derive(Debug, Clone, Copy, PartialEq, Eq)]
pub struct BusyPlan {
    /// Time to work within each cycle.
    pub work_nanos: u64,
    /// Length of each cycle.
    pub cycle_nanos: u64,
    /// Time after which the task ends.
    pub run_nanos: u128,
}

/// The plan of a busy task for a ratio of `ratio` (taken as a whole number)
/// that runs `run_time_ms` milliseconds: none for a ratio of zero, where the
/// task ends at once; otherwise the work share is the ratio, capped at one
/// whole cycle, of the cycle.
pub fn busy_plan(ratio: u16, run_time_ms: u64) -> (p: Option<BusyPlan>)
    ensures
        ratio == 0 <==> p is None,
        p matches Some(plan) ==> {
            &&& plan.cycle_nanos == CYCLE_NANOS
            &&& plan.work_nanos == CYCLE_NANOS * (if ratio < 1 { ratio as int } else { 1 })
            &&& plan.run_nanos == run_time_ms as int * 1_000_000
        },
{
    if ratio == 0 {
        return None;
    }
    Some(BusyPlan {
        work_nanos: CYCLE_NANOS,
        cycle_nanos: CYCLE_NANOS,
        run_nanos: run_time_ms as u128 * 1_000_000,
    })
}

impl BusyPlan {
    /// Whether the work phase of a cycle goes on after `elapsed_nanos`.
    pub fn keep_working(&self, elapsed_nanos: u128) -> (b: bool)
        ensures
            b == (elapsed_nanos < self.work_nanos),
    {
        elapsed_nanos < self.work_nanos as u128
    }

    /// How long to sleep at the end of a cycle that has taken
    /// `cycle_elapsed_nanos`: the rest of the cycle, or nothing.
    pub fn sleep_nanos(&self, cycle_elapsed_nanos: u128) -> (s: u128)
        ensures
            cycle_elapsed_nanos < self.cycle_nanos ==> s == self.cycle_nanos - cycle_elapsed_nanos,
            cycle_elapsed_nanos >= self.cycle_nanos ==> s == 0,
    {
        if cycle_elapsed_nanos < self.cycle_nanos as u128 {
            self.cycle_nanos as u128 - cycle_elapsed_nanos
        } else {
            0
        }
    }

    /// Whether the task ends once `total_elapsed_nanos` have passed since it
    /// started: once its run time is exceeded.
    pub fn finished(&self, total_elapsed_nanos: u128) -> (b: bool)
        ensures
            b == (total_elapsed_nanos > self.run_nanos),
    {
        total_elapsed_nanos > self.run_nanos
    }
}

} // verus!
