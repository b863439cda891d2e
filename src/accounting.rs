use crate::process::{ProcessState, ProcessView};
use vstd::prelude::*;

verus! {

impl ProcessView {
    /// The process after a dispatch with `quantum` at `at`: unchanged when
    /// the dispatch is refused.
    pub open spec fn dispatched(self, quantum: nat, at: nat) -> ProcessView {
        if self.run_error(quantum) is Some {
            self
        } else {
            self.after_run(quantum, at)
        }
    }

    /// The CPU time a dispatch reports: zero when it is refused.
    pub open spec fn consumed(self, quantum: nat) -> nat {
        if self.run_error(quantum) is Some {
            0
        } else {
            self.run_length(quantum)
        }
    }

    /// What a dispatch with `quantum` at `at` asks of the driver: time does
    /// not precede arrival and the resulting times fit the clock.
    pub open spec fn admits(self, quantum: nat, at: nat) -> bool {
        at >= self.start_time && self.run_fits(quantum, at)
    }
}

/// The process after dispatching it once for each `(quantum, at)` in `steps`.
pub open spec fn dispatch_all(p: ProcessView, steps: Seq<(nat, nat)>) -> ProcessView
    decreases steps.len(),
{
    if steps.len() == 0 {
        p
    } else {
        dispatch_all(p.dispatched(steps[0].0, steps[0].1), steps.drop_first())
    }
}

/// The sum of the CPU times those dispatches report.
pub open spec fn total_consumed(p: ProcessView, steps: Seq<(nat, nat)>) -> nat
    decreases steps.len(),
{
    if steps.len() == 0 {
        0
    } else {
        p.consumed(steps[0].0) + total_consumed(p.dispatched(steps[0].0, steps[0].1), steps.drop_first())
    }
}

/// Whether every one of those dispatches meets the driver's side of the
/// contract.
pub open spec fn all_admitted(p: ProcessView, steps: Seq<(nat, nat)>) -> bool
    decreases steps.len(),
{
    steps.len() == 0 || (p.admits(steps[0].0, steps[0].1) && all_admitted(
        p.dispatched(steps[0].0, steps[0].1),
        steps.drop_first(),
    ))
}

/// One dispatch keeps the process well formed, adds exactly what it
/// reports to `work_done` without passing `workload`, and floors the
/// allotment at zero.
pub proof fn lemma_dispatch_step(p: ProcessView, quantum: nat, at: nat)
    requires
        p.wf(),
        p.admits(quantum, at),
    ensures
        p.dispatched(quantum, at).wf(),
        p.dispatched(quantum, at).workload == p.workload,
        p.dispatched(quantum, at).work_done == p.work_done + p.consumed(quantum),
        p.work_done <= p.dispatched(quantum, at).work_done <= p.workload,
        p.dispatched(quantum, at).allotment == if p.consumed(quantum) < p.allotment {
            p.allotment - p.consumed(quantum)
        } else {
            0int
        },
{
    if p.io_interval > 0 {
        assert(p.work_done % p.io_interval < p.io_interval);
    }
}

/// The response time is latched by the first dispatch that runs, to that
/// dispatch's time minus the arrival time, and no later dispatch alters it.
pub proof fn lemma_response_time_latched_once(p: ProcessView, quantum: nat, at: nat)
    requires
        p.wf(),
        p.admits(quantum, at),
    ensures
        p.response_time is Some ==> p.dispatched(quantum, at).response_time == p.response_time,
        p.response_time is None && p.run_error(quantum) is None ==> p.dispatched(
            quantum,
            at,
        ).response_time == Some((at - p.start_time) as nat),
        p.response_time is None && p.run_error(quantum) is Some ==> p.dispatched(
            quantum,
            at,
        ).response_time is None,
{
}

/// The turnaround time is unset until the dispatch that finishes the
/// process, which sets it to that dispatch's end time minus the arrival
/// time; no later dispatch alters it.
pub proof fn lemma_turnaround_time_latched_once(p: ProcessView, quantum: nat, at: nat)
    requires
        p.wf(),
        p.admits(quantum, at),
    ensures
        p.turnaround_time is Some ==> p.dispatched(quantum, at).turnaround_time
            == p.turnaround_time,
        p.state !is Finished && p.dispatched(quantum, at).state is Finished ==> p.dispatched(
            quantum,
            at,
        ).turnaround_time == Some((at + p.consumed(quantum) - p.start_time) as nat),
        p.dispatched(quantum, at).state !is Finished ==> p.dispatched(
            quantum,
            at,
        ).turnaround_time is None,
{
}

/// Over any run of dispatches the process stays well formed, `work_done`
/// grows by exactly the sum of the reported CPU times and never passes
/// `workload`, and latched times keep their values.
pub proof fn lemma_dispatch_all(p: ProcessView, steps: Seq<(nat, nat)>)
    requires
        p.wf(),
        all_admitted(p, steps),
    ensures
        dispatch_all(p, steps).wf(),
        dispatch_all(p, steps).workload == p.workload,
        dispatch_all(p, steps).work_done == p.work_done + total_consumed(p, steps),
        p.work_done <= dispatch_all(p, steps).work_done <= p.workload,
        p.response_time is Some ==> dispatch_all(p, steps).response_time == p.response_time,
        p.turnaround_time is Some ==> dispatch_all(p, steps).turnaround_time
            == p.turnaround_time,
    decreases steps.len(),
{
    if steps.len() > 0 {
        let q = p.dispatched(steps[0].0, steps[0].1);
        lemma_dispatch_step(p, steps[0].0, steps[0].1);
        lemma_dispatch_all(q, steps.drop_first());
    }
}

/// The CPU times reported by the dispatches of a new process, up to the one
/// that finishes it, add up to its workload.
pub proof fn lemma_consumed_sums_to_workload(p: ProcessView, steps: Seq<(nat, nat)>)
    requires
        p.wf(),
        p.state is Ready,
        all_admitted(p, steps),
        dispatch_all(p, steps).state is Finished,
    ensures
        total_consumed(p, steps) == p.workload,
{
    lemma_dispatch_all(p, steps);
}

} // verus!
