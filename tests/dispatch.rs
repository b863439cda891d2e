use sched_process::process::{Process, RunError, TraceEvent, TraceKind};

fn dispatch(p: &mut Process, quantum: u32, at: u32) -> Result<u32, RunError> {
    let mut trace: Vec<TraceEvent> = Vec::new();
    p.run(quantum, at, 0, &mut trace)
}

#[test]
fn cpu_bound_process_runs_whole_quanta_then_finishes() {
    let mut p = Process::new(1, 0, 0, 37, 0);
    let mut consumed = Vec::new();
    let mut at: u32 = 0;
    while !p.is_finished() {
        let c = dispatch(&mut p, 10, at).unwrap();
        consumed.push(c);
        at += c;
    }
    assert_eq!(consumed, vec![10, 10, 10, 7]);
    assert!(p.is_finished());
    assert_eq!(p.turnaround_time(), 37);
    assert_eq!(p.work_done(), 37);
    assert_eq!(p.next_schedule_time(), None);
}

#[test]
fn io_bound_process_blocks_at_first_trigger() {
    let mut p = Process::new(2, 5, 3, 12, 4);
    assert_eq!(dispatch(&mut p, 10, 4), Ok(5));
    assert!(p.is_blocked());
    assert!(!p.is_finished());
    assert_eq!(p.work_done(), 5);
    assert_eq!(p.next_schedule_time(), Some(7));
}

#[test]
fn dispatching_finished_process_fails() {
    let mut p = Process::new(3, 0, 0, 4, 0);
    assert_eq!(dispatch(&mut p, 10, 0), Ok(4));
    assert!(p.is_finished());
    let mut trace: Vec<TraceEvent> = Vec::new();
    assert_eq!(p.run(10, 4, 0, &mut trace), Err(RunError::FinishedProcess));
    assert!(trace.is_empty());
    assert_eq!(p.work_done(), 4);
    assert_eq!(p.turnaround_time(), 4);
}

#[test]
fn zero_quantum_is_refused() {
    let mut p = Process::new(4, 0, 0, 4, 0);
    assert_eq!(dispatch(&mut p, 0, 0), Err(RunError::InvariantBroken));
    assert_eq!(p.work_done(), 0);
    assert_eq!(p.response_time(), 0);
    assert!(!p.is_blocked());
}

#[test]
fn empty_workload_is_refused() {
    let mut p = Process::new(5, 3, 1, 0, 2);
    assert_eq!(dispatch(&mut p, 10, 2), Err(RunError::InvariantBroken));
    assert!(!p.is_finished());
}

#[test]
fn consumed_times_sum_to_workload() {
    let mut p = Process::new(6, 4, 2, 23, 1);
    let mut at: u32 = 1;
    let mut total: u32 = 0;
    let mut runs = Vec::new();
    while !p.is_finished() {
        if p.is_blocked() {
            at = p.next_schedule_time().unwrap();
        }
        let c = dispatch(&mut p, 3, at).unwrap();
        runs.push(c);
        total += c;
        at += c;
    }
    assert_eq!(total, 23);
    assert_eq!(runs, vec![3, 1, 3, 1, 3, 1, 3, 1, 3, 1, 3]);
}

#[test]
fn io_trigger_on_exact_multiple_is_a_full_interval_away() {
    let mut p = Process::new(7, 5, 2, 20, 0);
    assert_eq!(dispatch(&mut p, 5, 0), Ok(5));
    assert!(p.is_blocked());
    assert_eq!(p.work_done(), 5);
    assert_eq!(dispatch(&mut p, 10, 2), Ok(5));
    assert_eq!(p.work_done(), 10);
    assert!(p.is_blocked());
}

#[test]
fn completion_wins_when_trigger_coincides_with_end() {
    let mut p = Process::new(8, 5, 2, 5, 0);
    assert_eq!(dispatch(&mut p, 10, 0), Ok(5));
    assert!(p.is_finished());
    assert!(!p.is_blocked());
    assert_eq!(p.turnaround_time(), 5);
}

#[test]
fn quantum_shorter_than_trigger_preempts() {
    let mut p = Process::new(9, 8, 2, 20, 0);
    assert_eq!(dispatch(&mut p, 3, 0), Ok(3));
    assert!(!p.is_blocked());
    assert!(!p.is_finished());
    assert_eq!(p.next_schedule_time(), Some(3));
    assert_eq!(dispatch(&mut p, 10, 3), Ok(5));
    assert!(p.is_blocked());
    assert_eq!(p.next_schedule_time(), Some(5));
}

#[test]
fn response_time_latched_once_even_when_zero() {
    let mut p = Process::new(10, 0, 0, 30, 6);
    assert_eq!(p.response_time(), 0);
    assert_eq!(dispatch(&mut p, 10, 6), Ok(10));
    assert_eq!(p.response_time(), 0);
    assert_eq!(dispatch(&mut p, 10, 40), Ok(10));
    assert_eq!(p.response_time(), 0);

    let mut q = Process::new(11, 0, 0, 30, 6);
    assert_eq!(dispatch(&mut q, 10, 15), Ok(10));
    assert_eq!(q.response_time(), 9);
    assert_eq!(dispatch(&mut q, 10, 50), Ok(10));
    assert_eq!(q.response_time(), 9);
}

#[test]
fn turnaround_time_set_at_completion_only() {
    let mut p = Process::new(12, 0, 0, 15, 5);
    assert_eq!(dispatch(&mut p, 10, 7), Ok(10));
    assert_eq!(p.turnaround_time(), 0);
    assert_eq!(dispatch(&mut p, 10, 30), Ok(5));
    assert_eq!(p.turnaround_time(), 30);
}

#[test]
fn allotment_is_floored_at_zero() {
    let mut p = Process::new(13, 0, 0, 100, 0);
    p.set_allotment(25);
    assert_eq!(p.allotment(), 25);
    assert_eq!(dispatch(&mut p, 10, 0), Ok(10));
    assert_eq!(p.allotment(), 15);
    assert_eq!(dispatch(&mut p, 10, 10), Ok(10));
    assert_eq!(p.allotment(), 5);
    assert_eq!(dispatch(&mut p, 10, 20), Ok(10));
    assert_eq!(p.allotment(), 0);
    assert_eq!(dispatch(&mut p, 10, 30), Ok(10));
    assert_eq!(p.allotment(), 0);
}

#[test]
fn work_done_grows_and_stays_within_workload() {
    let mut p = Process::new(14, 3, 1, 10, 0);
    let mut at: u32 = 0;
    let mut last = p.work_done();
    while !p.is_finished() {
        if p.is_blocked() {
            at = p.next_schedule_time().unwrap();
        }
        let c = dispatch(&mut p, 4, at).unwrap();
        assert!(c > 0);
        assert!(p.work_done() >= last);
        assert!(p.work_done() <= p.workload());
        last = p.work_done();
        at += c;
    }
    assert_eq!(p.work_done(), 10);
}

#[test]
fn state_queries_follow_each_dispatch() {
    let mut p = Process::new(15, 2, 4, 5, 0);
    assert!(!p.is_blocked() && !p.is_finished());
    assert_eq!(dispatch(&mut p, 10, 0), Ok(2));
    assert!(p.is_blocked() && !p.is_finished());
    assert_eq!(dispatch(&mut p, 1, 4), Ok(1));
    assert!(!p.is_blocked() && !p.is_finished());
    assert_eq!(dispatch(&mut p, 10, 5), Ok(1));
    assert!(p.is_blocked() && !p.is_finished());
    assert_eq!(dispatch(&mut p, 10, 10), Ok(1));
    assert!(!p.is_blocked() && p.is_finished());
}

#[test]
fn accessors_report_construction_values() {
    let p = Process::new(16, 7, 3, 40, 9);
    assert_eq!(p.pid(), 16);
    assert_eq!(p.io_interval(), 7);
    assert_eq!(p.io_length(), 3);
    assert_eq!(p.workload(), 40);
    assert_eq!(p.work_done(), 0);
    assert_eq!(p.start_time(), 9);
    assert_eq!(p.next_schedule_time(), Some(9));
    assert_eq!(p.turnaround_time(), 0);
    assert_eq!(p.response_time(), 0);
    assert_eq!(p.allotment(), 0);
}

#[test]
fn trace_reports_each_transition() {
    let mut p = Process::new(17, 4, 6, 9, 0);
    let mut trace: Vec<TraceEvent> = Vec::new();
    assert_eq!(p.run(10, 2, 1, &mut trace), Ok(4));
    assert_eq!(p.run(2, 8, 3, &mut trace), Ok(2));
    assert_eq!(p.run(2, 10, 3, &mut trace), Ok(2));
    assert_eq!(p.run(5, 18, 0, &mut trace), Ok(1));
    let ev = |time: u32, queue: usize, kind: TraceKind| TraceEvent { time, queue, pid: 17, kind };
    assert_eq!(
        trace,
        vec![
            ev(2, 1, TraceKind::Started),
            ev(6, 1, TraceKind::BlockedForIo { run_time: 4, io_length: 6 }),
            ev(8, 3, TraceKind::Resumed),
            ev(10, 3, TraceKind::Preempted { run_time: 2 }),
            ev(12, 3, TraceKind::BlockedForIo { run_time: 2, io_length: 6 }),
            ev(18, 0, TraceKind::Resumed),
            ev(19, 0, TraceKind::Completed { run_time: 1 }),
        ]
    );
    assert_eq!(p.turnaround_time(), 19);
    assert_eq!(p.response_time(), 2);
}
