use vstd::prelude::*;

verus! {

/// The lifecycle state of a process.
///
/// `Running` also covers a process that used up its whole quantum: readiness
/// after preemption is signalled to the driver by the returned run length and
/// by queue membership, not by this field.
#[derive(Clone, Copy, PartialEq, Eq, Debug, Structural)]
pub enum ProcessState {
    Ready,
    Running,
    Blocked,
    Finished,
}

/// Why a dispatch was refused. Both mean that the driver broke its contract
/// and must be treated as unrecoverable; the process is left untouched.
#[derive(Clone, Copy, PartialEq, Eq, Debug, Structural)]
pub enum RunError {
    /// The process has already finished.
    FinishedProcess,
    /// The dispatch would consume no CPU time: the quantum is zero or no work
    /// is left.
    InvariantBroken,
}

/// What a trace event reports.
#[derive(Clone, Copy, PartialEq, Eq, Debug, Structural)]
pub enum TraceKind {
    /// First dispatch: the process enters the running state.
    Started,
    /// The process resumes after an I/O block.
    Resumed,
    /// The process ran for a whole quantum without blocking or finishing.
    Preempted { run_time: u32 },
    /// The process ran, then blocked for I/O of the given length.
    BlockedForIo { run_time: u32, io_length: u32 },
    /// The process ran, then finished its workload.
    Completed { run_time: u32 },
}

/// One status event of a dispatch, stamped with the simulated time and the
/// identifier of the queue the process was dispatched from.
#[derive(Clone, Copy, PartialEq, Eq, Debug, Structural)]
pub struct TraceEvent {
    pub time: u32,
    pub queue: usize,
    pub pid: u32,
    pub kind: TraceKind,
}

/// The mathematical model of a [`Process`].
///
/// `response_time` and `turnaround_time` are `None` until they are latched;
/// `next_schedule_time` is `None` once the process has finished.
pub ghost struct ProcessView {
    pub pid: nat,
    pub io_interval: nat,
    pub io_length: nat,
    pub workload: nat,
    pub work_done: nat,
    pub start_time: nat,
    pub next_schedule_time: Option<nat>,
    pub turnaround_time: Option<nat>,
    pub response_time: Option<nat>,
    pub allotment: nat,
    pub state: ProcessState,
}

/// A process control block.
pub struct Process {
    pid: u32,
    io_interval: u32,
    io_length: u32,
    workload: u32,
    work_done: u32,
    start_time: u32,
    next_schedule_time: Option<u32>,
    turnaround_time: Option<u32>,
    response_time: Option<u32>,
    allotment: u32,
    state: ProcessState,
}

pub open spec fn opt_nat(o: Option<u32>) -> Option<nat> {
    match o {
        Some(v) => Some(v as nat),
        None => None,
    }
}

impl View for Process {
    type V = ProcessView;

    closed spec fn view(&self) -> ProcessView {
        ProcessView {
            pid: self.pid as nat,
            io_interval: self.io_interval as nat,
            io_length: self.io_length as nat,
            workload: self.workload as nat,
            work_done: self.work_done as nat,
            start_time: self.start_time as nat,
            next_schedule_time: opt_nat(self.next_schedule_time),
            turnaround_time: opt_nat(self.turnaround_time),
            response_time: opt_nat(self.response_time),
            allotment: self.allotment as nat,
            state: self.state,
        }
    }
}

impl ProcessView {
    /// The invariant that every process maintains between dispatches.
    pub open spec fn wf(self) -> bool {
        &&& self.wf_fields()
        &&& (self.response_time is Some <==> self.state !is Ready)
        &&& (self.turnaround_time is Some <==> self.state is Finished)
        &&& (self.next_schedule_time is None <==> self.state is Finished)
        &&& (self.state is Finished ==> self.work_done == self.workload)
        &&& (self.state is Ready ==> self.work_done == 0)
    }

    /// Bounds on the plain fields.
    pub open spec fn wf_fields(self) -> bool {
        &&& self.work_done <= self.workload <= u32::MAX
        &&& self.start_time <= u32::MAX
        &&& self.allotment <= u32::MAX
    }

    /// Work still to be done.
    pub open spec fn work_left(self) -> nat {
        (self.workload - self.work_done) as nat
    }

    /// Distance to the next I/O trigger; a full interval when `work_done` is
    /// an exact multiple of `io_interval`.
    pub open spec fn work_before_io(self) -> nat
        recommends
            self.io_interval > 0,
    {
        (self.io_interval - self.work_done % self.io_interval) as nat
    }

    /// Whether a dispatch with this quantum reaches an I/O trigger before
    /// the workload completes.
    pub open spec fn blocks_for_io(self, quantum: nat) -> bool {
        &&& self.io_interval > 0
        &&& self.work_before_io() < self.work_left()
        &&& self.work_before_io() <= quantum
    }

    /// Whether a dispatch with this quantum completes the workload.
    pub open spec fn completes(self, quantum: nat) -> bool {
        !self.blocks_for_io(quantum) && self.work_left() <= quantum
    }

    /// The CPU time that a dispatch with this quantum consumes.
    pub open spec fn run_length(self, quantum: nat) -> nat {
        if self.blocks_for_io(quantum) {
            self.work_before_io()
        } else if self.completes(quantum) {
            self.work_left()
        } else {
            quantum
        }
    }

    /// The state a dispatch with this quantum leaves the process in.
    pub open spec fn outcome(self, quantum: nat) -> ProcessState {
        if self.blocks_for_io(quantum) {
            ProcessState::Blocked
        } else if self.completes(quantum) {
            ProcessState::Finished
        } else {
            ProcessState::Running
        }
    }

    /// The error a dispatch with this quantum is refused with, if any.
    pub open spec fn run_error(self, quantum: nat) -> Option<RunError> {
        if self.state is Finished {
            Some(RunError::FinishedProcess)
        } else if self.run_length(quantum) == 0 {
            Some(RunError::InvariantBroken)
        } else {
            None
        }
    }

    /// The remaining allotment after consuming `used`, floored at zero.
    pub open spec fn allotment_after(self, used: nat) -> nat {
        if used < self.allotment {
            (self.allotment - used) as nat
        } else {
            0
        }
    }

    /// The process after a successful dispatch with `quantum` at time `at`.
    pub open spec fn after_run(self, quantum: nat, at: nat) -> ProcessView {
        let used = self.run_length(quantum);
        ProcessView {
            work_done: self.work_done + used,
            next_schedule_time: if self.blocks_for_io(quantum) {
                Some(at + self.io_length)
            } else if self.completes(quantum) {
                None
            } else {
                Some(at + quantum)
            },
            turnaround_time: if self.completes(quantum) {
                Some((at + used - self.start_time) as nat)
            } else {
                self.turnaround_time
            },
            response_time: if self.response_time is None {
                Some((at - self.start_time) as nat)
            } else {
                self.response_time
            },
            allotment: self.allotment_after(used),
            state: self.outcome(quantum),
            ..self
        }
    }

    /// The event that reports the outcome of a dispatch.
    pub open spec fn outcome_event(self, quantum: nat, at: nat, queue: usize) -> TraceEvent {
        let used = self.run_length(quantum);
        TraceEvent {
            time: (at + used) as u32,
            queue,
            pid: self.pid as u32,
            kind: if self.blocks_for_io(quantum) {
                TraceKind::BlockedForIo { run_time: used as u32, io_length: self.io_length as u32 }
            } else if self.completes(quantum) {
                TraceKind::Completed { run_time: used as u32 }
            } else {
                TraceKind::Preempted { run_time: used as u32 }
            },
        }
    }

    /// The events of a successful dispatch: an entry event when the process
    /// was ready or blocked, then the outcome.
    pub open spec fn run_trace(self, quantum: nat, at: nat, queue: usize) -> Seq<TraceEvent> {
        let last = self.outcome_event(quantum, at, queue);
        match self.state {
            ProcessState::Ready => seq![
                TraceEvent { time: at as u32, queue, pid: self.pid as u32, kind: TraceKind::Started },
                last,
            ],
            ProcessState::Blocked => seq![
                TraceEvent { time: at as u32, queue, pid: self.pid as u32, kind: TraceKind::Resumed },
                last,
            ],
            _ => seq![last],
        }
    }

    /// The times a dispatch writes fit in the clock's range.
    pub open spec fn run_fits(self, quantum: nat, at: nat) -> bool {
        &&& at + self.run_length(quantum) <= u32::MAX
        &&& (self.blocks_for_io(quantum) ==> at + self.io_length <= u32::MAX)
    }

    /// What the dispatch steps need: the fields are in range, the process is
    /// not finished, its response time is latched, and the dispatch makes
    /// progress and fits the clock.
    pub open spec fn dispatchable(self, quantum: nat, at: nat) -> bool {
        &&& self.wf_fields()
        &&& self.state !is Finished
        &&& self.response_time is Some
        &&& self.start_time <= at
        &&& self.run_length(quantum) > 0
        &&& self.run_fits(quantum, at)
    }

    /// A dispatch consumes nothing exactly when the quantum is zero or no
    /// work is left.
    pub proof fn lemma_run_length_zero(self, quantum: nat)
        requires
            self.work_done <= self.workload,
        ensures
            self.run_length(quantum) == 0 <==> (self.work_left() == 0 || quantum == 0),
    {
        if self.io_interval > 0 {
            assert(self.work_done % self.io_interval < self.io_interval);
        }
    }
}

impl Process {
    /// Creates a process that arrives at `arrival_time`, in state `Ready`.
    pub fn new(
        pid: u32,
        io_interval: u32,
        io_length: u32,
        workload: u32,
        arrival_time: u32,
    ) -> (r: Process)
        ensures
            r@.wf(),
            r@ == (ProcessView {
                pid: pid as nat,
                io_interval: io_interval as nat,
                io_length: io_length as nat,
                workload: workload as nat,
                work_done: 0,
                start_time: arrival_time as nat,
                next_schedule_time: Some(arrival_time as nat),
                turnaround_time: None,
                response_time: None,
                allotment: 0,
                state: ProcessState::Ready,
            }),
    {
        Process {
            pid,
            io_interval,
            io_length,
            workload,
            work_done: 0,
            start_time: arrival_time,
            next_schedule_time: Some(arrival_time),
            turnaround_time: None,
            response_time: None,
            allotment: 0,
            state: ProcessState::Ready,
        }
    }

    pub fn pid(&self) -> (r: u32)
        ensures
            r == self@.pid,
    {
        self.pid
    }

    pub fn io_interval(&self) -> (r: u32)
        ensures
            r == self@.io_interval,
    {
        self.io_interval
    }

    pub fn io_length(&self) -> (r: u32)
        ensures
            r == self@.io_length,
    {
        self.io_length
    }

    pub fn workload(&self) -> (r: u32)
        ensures
            r == self@.workload,
    {
        self.workload
    }

    pub fn work_done(&self) -> (r: u32)
        ensures
            r == self@.work_done,
    {
        self.work_done
    }

    pub fn start_time(&self) -> (r: u32)
        ensures
            r == self@.start_time,
    {
        self.start_time
    }

    /// The earliest time the driver may dispatch the process again; `None`
    /// once it has finished.
    pub fn next_schedule_time(&self) -> (r: Option<u32>)
        ensures
            opt_nat(r) == self@.next_schedule_time,
    {
        self.next_schedule_time
    }

    /// Completion time minus arrival time; zero until the process finishes.
    pub fn turnaround_time(&self) -> (r: u32)
        ensures
            r == match self@.turnaround_time {
                Some(t) => t,
                None => 0,
            },
    {
        match self.turnaround_time {
            Some(t) => t,
            None => 0,
        }
    }

    /// First dispatch time minus arrival time; zero until the first dispatch.
    pub fn response_time(&self) -> (r: u32)
        ensures
            r == match self@.response_time {
                Some(t) => t,
                None => 0,
            },
    {
        match self.response_time {
            Some(t) => t,
            None => 0,
        }
    }

    /// Sets the CPU budget left before the scheduling policy demotes the
    /// process.
    pub fn set_allotment(&mut self, allotment: u32)
        ensures
            final(self)@ == (ProcessView { allotment: allotment as nat, ..old(self)@ }),
    {
        self.allotment = allotment;
    }

    pub fn allotment(&self) -> (r: u32)
        ensures
            r == self@.allotment,
    {
        self.allotment
    }

    pub fn is_blocked(&self) -> (r: bool)
        ensures
            r == (self@.state is Blocked),
    {
        match self.state {
            ProcessState::Blocked => true,
            _ => false,
        }
    }

    pub fn is_finished(&self) -> (r: bool)
        ensures
            r == (self@.state is Finished),
    {
        match self.state {
            ProcessState::Finished => true,
            _ => false,
        }
    }

    /// Dispatches the process for at most `quantum` time units starting at
    /// simulated time `at`, from the queue `queue`, and returns the CPU time
    /// it consumed. The dispatch's trace events are appended to `trace`.
    ///
    /// The run stops at the first of: the next I/O trigger (the process
    /// blocks for `io_length`), completion of the workload (the process
    /// finishes and its turnaround time is latched), or the end of the
    /// quantum. The first dispatch latches the response time. The allotment
    /// is reduced by the time consumed, floored at zero.
    ///
    /// A finished process, or a dispatch that would consume nothing, is
    /// refused with an error and leaves the process and the trace unchanged.
    /// Simulated time never runs backwards, so `at` is never before the
    /// arrival time.
    pub fn run(
        &mut self,
        quantum: u32,
        at: u32,
        queue: usize,
        trace: &mut Vec<TraceEvent>,
    ) -> (r: Result<u32, RunError>)
        requires
            old(self)@.wf(),
            at >= old(self)@.start_time,
            old(self)@.run_fits(quantum as nat, at as nat),
        ensures
            final(self)@.wf(),
            match old(self)@.run_error(quantum as nat) {
                Some(e) => {
                    &&& r == Err::<u32, RunError>(e)
                    &&& final(self)@ == old(self)@
                    &&& final(trace)@ == old(trace)@
                },
                None => {
                    &&& r == Ok::<u32, RunError>(old(self)@.run_length(quantum as nat) as u32)
                    &&& final(self)@ == old(self)@.after_run(quantum as nat, at as nat)
                    &&& final(trace)@ == old(trace)@ + old(self)@.run_trace(
                        quantum as nat,
                        at as nat,
                        queue,
                    )
                },
            },
    {
        if self.state == ProcessState::Finished {
            return Err(RunError::FinishedProcess);
        }
        proof {
            self@.lemma_run_length_zero(quantum as nat);
        }
        if self.work_done == self.workload || quantum == 0 {
            return Err(RunError::InvariantBroken);
        }
        // latch the response time on the very first dispatch only
        if self.response_time.is_none() {
            self.response_time = Some(at - self.start_time);
        }
        match self.state {
            ProcessState::Ready => Ok(self.run_from_ready(quantum, at, queue, trace)),
            ProcessState::Running => Ok(self.run_from_running(quantum, at, queue, trace)),
            ProcessState::Blocked => Ok(self.run_from_blocked(quantum, at, queue, trace)),
            ProcessState::Finished => Err(RunError::FinishedProcess),
        }
    }

    fn run_from_ready(
        &mut self,
        quantum: u32,
        at: u32,
        queue: usize,
        trace: &mut Vec<TraceEvent>,
    ) -> (r: u32)
        requires
            old(self)@.state is Ready,
            old(self)@.dispatchable(quantum as nat, at as nat),
        ensures
            r == old(self)@.run_length(quantum as nat),
            final(self)@ == old(self)@.after_run(quantum as nat, at as nat),
            final(trace)@ == old(trace)@ + old(self)@.run_trace(quantum as nat, at as nat, queue),
    {
        self.state = ProcessState::Running;
        trace.push(TraceEvent { time: at, queue, pid: self.pid, kind: TraceKind::Started });
        let r = self.run_from_running(quantum, at, queue, trace);
        assert(trace@ =~= old(trace)@ + old(self)@.run_trace(quantum as nat, at as nat, queue));
        r
    }

    fn run_from_blocked(
        &mut self,
        quantum: u32,
        at: u32,
        queue: usize,
        trace: &mut Vec<TraceEvent>,
    ) -> (r: u32)
        requires
            old(self)@.state is Blocked,
            old(self)@.dispatchable(quantum as nat, at as nat),
        ensures
            r == old(self)@.run_length(quantum as nat),
            final(self)@ == old(self)@.after_run(quantum as nat, at as nat),
            final(trace)@ == old(trace)@ + old(self)@.run_trace(quantum as nat, at as nat, queue),
    {
        self.state = ProcessState::Running;
        trace.push(TraceEvent { time: at, queue, pid: self.pid, kind: TraceKind::Resumed });
        let r = self.run_from_running(quantum, at, queue, trace);
        assert(trace@ =~= old(trace)@ + old(self)@.run_trace(quantum as nat, at as nat, queue));
        r
    }

    fn run_from_running(
        &mut self,
        quantum: u32,
        at: u32,
        queue: usize,
        trace: &mut Vec<TraceEvent>,
    ) -> (r: u32)
        requires
            old(self)@.dispatchable(quantum as nat, at as nat),
        ensures
            r == old(self)@.run_length(quantum as nat),
            final(self)@ == (ProcessView { state: ProcessState::Running, ..old(self)@ }).after_run(
                quantum as nat,
                at as nat,
            ),
            final(trace)@ == old(trace)@.push(old(self)@.outcome_event(quantum as nat, at as nat, queue)),
    {
        let run_time: u32;
        let work_left = self.workload - self.work_done;
        if self.io_interval > 0 {
            // the next I/O trigger; a full interval away on an exact multiple
            let work_before_io = self.io_interval - (self.work_done % self.io_interval);
            if work_before_io < work_left && work_before_io <= quantum {
                run_time = work_before_io;
                self.work_done = self.work_done + run_time;
                self.next_schedule_time = Some(at + self.io_length);
                self.state = ProcessState::Blocked;
            } else if work_left <= quantum {
                run_time = work_left;
                self.work_done = self.work_done + run_time;
                self.next_schedule_time = None;
                self.turnaround_time = Some(at - self.start_time + run_time);
                self.state = ProcessState::Finished;
            } else {
                run_time = quantum;
                self.work_done = self.work_done + run_time;
                self.next_schedule_time = Some(at + quantum);
                self.state = ProcessState::Running;
            }
        } else {
            if work_left <= quantum {
                run_time = work_left;
                self.work_done = self.work_done + run_time;
                self.next_schedule_time = None;
                self.turnaround_time = Some(at - self.start_time + run_time);
                self.state = ProcessState::Finished;
            } else {
                run_time = quantum;
                self.work_done = self.work_done + run_time;
                self.next_schedule_time = Some(at + quantum);
                self.state = ProcessState::Running;
            }
        }
        if run_time < self.allotment {
            self.allotment = self.allotment - run_time;
        } else {
            self.allotment = 0;
        }
        let kind = match self.state {
            ProcessState::Blocked => TraceKind::BlockedForIo { run_time, io_length: self.io_length },
            ProcessState::Finished => TraceKind::Completed { run_time },
            _ => TraceKind::Preempted { run_time },
        };
        trace.push(TraceEvent { time: at + run_time, queue, pid: self.pid, kind });
        run_time
    }
}

} // verus!
